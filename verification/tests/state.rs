use yasc_core::environment::actor_wrapper::{
    ActorWrapper, ButtonArgs, ButtonState, DepthStencil, DrawCommand, Input, RenderDetails,
    RenderPayload, RenderTarget, RenderableActorWrapper, ShaderVersion, UpdatePayload,
};
use yasc_core::environment::key_bindings::{InputButton, KEY_D, KEY_F, KEY_RETURN};
use yasc_core::environment::state::{GameState, GameStateRenderDetails, StateEnum};
use yasc_core::environment::update_routine::{
    EnvelopeSink, UpdateEnvelope, WindowContext, WindowRequest, WindowResponse,
};
use yasc_core::environment::GameTime;
use yasc_core::song_player::lanes::Lanes;

struct MockCtx {
    window_size: Option<(u32, u32)>,
}

impl WindowContext for MockCtx {
    fn dispatch(&mut self, req: WindowRequest) -> WindowResponse {
        match req {
            WindowRequest::CreateLanes => WindowResponse::LanesCreated(Lanes {
                texture_width: 640,
                texture_height: 480,
            }),
            WindowRequest::CreateLaneGovernor(r) => {
                WindowResponse::LaneGovernorCreated(r.handle(self.window_size))
            }
        }
    }
}

struct ImmediateSink {
    ctx: MockCtx,
}

impl ImmediateSink {
    fn working() -> ImmediateSink {
        ImmediateSink {
            ctx: MockCtx {
                window_size: Some((640, 480)),
            },
        }
    }

    fn broken() -> ImmediateSink {
        ImmediateSink {
            ctx: MockCtx { window_size: None },
        }
    }
}

impl EnvelopeSink for ImmediateSink {
    fn deliver(&mut self, env: UpdateEnvelope) {
        let mut env = env;
        env.handle(&mut self.ctx);
    }
}

fn tick(event: Option<Input>, instant: i64) -> UpdatePayload<()> {
    UpdatePayload::new(
        event,
        GameTime {
            instant,
            song_time: None,
        },
        (),
    )
}

fn press(button: InputButton) -> Option<Input> {
    Some(Input::Button(ButtonArgs {
        state: ButtonState::Press,
        button,
    }))
}

fn release(button: InputButton) -> Option<Input> {
    Some(Input::Button(ButtonArgs {
        state: ButtonState::Release,
        button,
    }))
}

fn render_payload() -> RenderPayload<()> {
    RenderPayload::new(
        (),
        GameTime {
            instant: 0,
            song_time: None,
        },
        RenderTarget::Screen,
        DepthStencil(0),
        ShaderVersion(330),
    )
}

#[test]
fn first_tick_enters_song_state() {
    let mut gs = GameState::start();
    assert!(matches!(gs.state, StateEnum::Uninitialized));
    let mut sink = ImmediateSink::working();
    gs.update(tick(None, 0), &mut sink);
    assert!(matches!(gs.state, StateEnum::Song(_)));
    // and it stays in the song state on every later tick
    for i in 1..5 {
        gs.update(tick(None, i), &mut sink);
        assert!(matches!(gs.state, StateEnum::Song(_)));
    }
}

#[test]
fn failed_initialization_stays_uninitialized() {
    let mut gs = GameState::start();
    let mut sink = ImmediateSink::broken();
    gs.update(tick(None, 0), &mut sink);
    assert!(matches!(gs.state, StateEnum::Uninitialized));
}

#[test]
fn title_screen_confirms_on_start_binding() {
    let mut gs = GameState::start();
    gs.state = StateEnum::TitleScreen;
    let mut sink = ImmediateSink::working();
    // an unbound key does not confirm
    gs.update(tick(press(InputButton::Keyboard(KEY_D)), 0), &mut sink);
    assert!(matches!(gs.state, StateEnum::TitleScreen));
    // a release of the confirm key does not confirm
    gs.update(tick(release(InputButton::Keyboard(KEY_RETURN)), 1), &mut sink);
    assert!(matches!(gs.state, StateEnum::TitleScreen));
    // the confirm key press does
    gs.update(tick(press(InputButton::Keyboard(KEY_RETURN)), 2), &mut sink);
    assert!(matches!(gs.state, StateEnum::Song(_)));
}

#[test]
fn button_log_tracks_presses_and_releases() {
    let mut gs = GameState::start();
    gs.state = StateEnum::Settings;
    let mut sink = ImmediateSink::working();
    let d = InputButton::Keyboard(KEY_D);
    let f = InputButton::Keyboard(KEY_F);
    gs.update(tick(press(d), 10), &mut sink);
    gs.update(tick(press(f), 11), &mut sink);
    gs.update(tick(press(d), 12), &mut sink);
    assert_eq!(gs.buttons_pressed, vec![(d, 10), (f, 11), (d, 12)]);
    gs.update(tick(release(d), 13), &mut sink);
    assert_eq!(gs.buttons_pressed, vec![(f, 11)]);
    gs.update(tick(None, 14), &mut sink);
    assert_eq!(gs.buttons_pressed, vec![(f, 11)]);
    // the settings screen never changes state on its own
    assert!(matches!(gs.state, StateEnum::Settings));
}

#[test]
fn render_details_follow_state() {
    let mut gs = GameState::start();
    let d = gs.emit_render_details(render_payload());
    assert!(matches!(d, GameStateRenderDetails::Uninitialized));
    assert_eq!(d.render(), vec![]);

    gs.state = StateEnum::TitleScreen;
    let d = gs.emit_render_details(render_payload());
    assert!(matches!(d, GameStateRenderDetails::TitleScreen));
    assert_eq!(d.render(), vec![]);
}

#[test]
fn song_state_renders_lanes_then_composite() {
    let mut gs = GameState::start();
    let mut sink = ImmediateSink::working();
    gs.update(tick(None, 0), &mut sink);
    let d = gs.emit_render_details(render_payload());
    assert!(matches!(d, GameStateRenderDetails::Song(_)));
    let cmds = d.render();
    assert_eq!(cmds.len(), 2);
    assert!(matches!(
        cmds[0],
        DrawCommand::Lanes {
            target: RenderTarget::LanesTexture
        }
    ));
    match cmds[1] {
        DrawCommand::LaneComposite { target, .. } => assert_eq!(target, RenderTarget::Screen),
        _ => panic!("composite draw missing"),
    }
}
