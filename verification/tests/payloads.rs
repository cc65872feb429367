use yasc_core::environment::actor_wrapper::{
    ActorWrapper, DepthStencil, Input, RenderPayload, RenderTarget, ShaderVersion, UpdatePayload,
    WrappedActor,
};
use yasc_core::environment::state::{GameState, StateEnum};
use yasc_core::environment::update_routine::{
    EnvelopeSink, UpdateEnvelope, WindowContext, WindowRequest, WindowResponse,
};
use yasc_core::environment::GameTime;
use yasc_core::song_player::lanes::Lanes;
use yasc_core::song_player::song_timer::SongTime;

fn game_time(instant: i64) -> GameTime {
    GameTime {
        instant,
        song_time: Some(SongTime(5)),
    }
}

#[test]
fn update_payload_fan_out_keeps_event_and_time() {
    let p = UpdatePayload::new(Some(Input::Other), game_time(9), 77u32);
    assert_eq!(p.event, Some(Input::Other));
    assert_eq!(p.game_time.instant, 9);
    assert_eq!(p.payload, 77);
    let child = p.another("lanes");
    assert_eq!(child.event, Some(Input::Other));
    assert_eq!(child.game_time.song_time, Some(SongTime(5)));
    assert_eq!(child.payload, "lanes");
}

#[test]
fn render_payload_retargeting() {
    let p = RenderPayload::new(
        1u8,
        game_time(0),
        RenderTarget::Screen,
        DepthStencil(4),
        ShaderVersion(330),
    );
    assert_eq!(p.get_time().instant, 0);
    let p = p.set_color_target(RenderTarget::LanesTexture);
    assert_eq!(p.color_target, RenderTarget::LanesTexture);
    let p = p.set_depth_stencil(DepthStencil(9));
    assert_eq!(p.depth_stencil, DepthStencil(9));
    let p = p.set_payload(());
    assert_eq!(p.color_target, RenderTarget::LanesTexture);
    assert_eq!(p.shdr_ver, ShaderVersion(330));
}

struct MockCtx;

impl WindowContext for MockCtx {
    fn dispatch(&mut self, req: WindowRequest) -> WindowResponse {
        match req {
            WindowRequest::CreateLanes => WindowResponse::LanesCreated(Lanes {
                texture_width: 1,
                texture_height: 1,
            }),
            WindowRequest::CreateLaneGovernor(r) => {
                WindowResponse::LaneGovernorCreated(r.handle(Some((1, 1))))
            }
        }
    }
}

struct ImmediateSink(MockCtx);

impl EnvelopeSink for ImmediateSink {
    fn deliver(&mut self, env: UpdateEnvelope) {
        let mut env = env;
        env.handle(&mut self.0);
    }
}

#[test]
fn wrapped_actor_delegates_update() {
    let mut wrapped = WrappedActor(GameState::start());
    let mut sink = ImmediateSink(MockCtx);
    wrapped.on_start();
    wrapped.update(UpdatePayload::new(None, game_time(0), ()), &mut sink);
    wrapped.on_message_exhaust();
    assert!(matches!(wrapped.0.state, StateEnum::Song(_)));
}
