use crate::environment::actor_wrapper::{
    ActorWrapper,
    ButtonState,
    DrawCommand,
    Input,
    RenderDetails,
    RenderPayload,
    RenderableActorWrapper,
    UpdatePayload,
};
use crate::environment::key_bindings::{
    binding_for,
    binding_pairs,
    button_keystroke,
    default_binding_layout,
    lookup_role,
    BindRoles,
    ComposedKeystroke,
    GeneralizedKeystroke,
    InputButton,
};
use crate::environment::update_routine::{
    oneshot_pair,
    oneshot_send,
    oneshot_wait,
    EnvelopeSink,
    RequestError,
    WindowRequest,
    WindowResponse,
};
use crate::song_player::governor::{resolved_song_time, LGInitRequest, LGRenderDetails, LaneGovernor};
use crate::utils::TICK_MAX;
use bidir_map::BidirMap;
use futures::sync::oneshot::Receiver as OneshotReceiver;
use vstd::prelude::*;

verus! {

/// Which screen the game is on. The song state owns the lane governor.
pub enum StateEnum {
    Uninitialized,
    TitleScreen,
    Settings,
    SongSelection,
    Song(LaneGovernor),
}

/// The top-level gameplay actor: the current screen, the key bindings, and
/// the log of buttons currently held down with the instant each was pressed.
pub struct GameState {
    pub keybindings: BidirMap<BindRoles, ComposedKeystroke>,
    pub state: StateEnum,
    pub buttons_pressed: Vec<(InputButton, i64)>,
}

/// The press log without any entry of the given button, order kept.
pub open spec fn remove_button(
    buttons: Seq<(InputButton, i64)>,
    button: InputButton,
) -> Seq<(InputButton, i64)>
    decreases buttons.len(),
{
    if buttons.len() == 0 {
        buttons
    } else {
        let rest = remove_button(buttons.drop_last(), button);
        if buttons.last().0 == button {
            rest
        } else {
            rest.push(buttons.last())
        }
    }
}

/// The press log after one tick's event: a press appends the button with
/// its instant, a release removes every entry of that button, anything else
/// leaves the log alone.
pub open spec fn buttons_after(
    buttons: Seq<(InputButton, i64)>,
    event: Option<Input>,
    instant: i64,
) -> Seq<(InputButton, i64)> {
    match event {
        Some(Input::Button(args)) => {
            if args.state is Press {
                buttons.push((args.button, instant))
            } else {
                remove_button(buttons, args.button)
            }
        },
        _ => buttons,
    }
}

impl GameState {
    /// Every keystroke chord stored in the bindings is well-formed.
    pub open spec fn bindings_wf(&self) -> bool {
        forall|i: int|
            0 <= i < binding_pairs(self.keybindings).len() ==> (#[trigger] binding_pairs(
                self.keybindings,
            )[i]).1.wf()
    }

    /// Whether the tick's event is a press of a button bound to the START
    /// role: the confirm input of the title screen.
    pub open spec fn confirm_pressed_spec(&self, event: Option<Input>) -> bool {
        match event {
            Some(Input::Button(args)) => {
                &&& args.state is Press
                &&& match button_keystroke(args.button) {
                    Some(gk) => match lookup_role(
                        binding_pairs(self.keybindings),
                        BindRoles::START,
                    ) {
                        Some(ks) => ks.has_key(gk),
                        None => false,
                    },
                    None => false,
                }
            },
            _ => false,
        }
    }

    /// A fresh game: stock key bindings, the uninitialized screen, and no
    /// buttons held.
    pub fn start() -> (r: GameState)
        ensures
            default_binding_layout(binding_pairs(r.keybindings)),
            r.state is Uninitialized,
            r.buttons_pressed@.len() == 0,
            r.bindings_wf(),
    {
        GameState {
            keybindings: BindRoles::default_keyboard_binding(),
            state: StateEnum::Uninitialized,
            buttons_pressed: Vec::new(),
        }
    }

    /// Whether the tick's event is the title screen's confirm input.
    fn confirm_pressed(&self, event: &Option<Input>) -> (r: bool)
        requires
            self.bindings_wf(),
        ensures
            r == self.confirm_pressed_spec(*event),
    {
        match event {
            Some(Input::Button(args)) => {
                if !(args.state == ButtonState::Press) {
                    return false;
                }
                match GeneralizedKeystroke::from_button(&args.button) {
                    Some(gk) => {
                        match binding_for(&self.keybindings, &BindRoles::START) {
                            Some(ks) => {
                                proof {
                                    let ps = binding_pairs(self.keybindings);
                                    lemma_lookup_role_in_pairs(ps, BindRoles::START);
                                }
                                ks.contains(gk)
                            },
                            None => false,
                        }
                    },
                    None => false,
                }
            },
            _ => false,
        }
    }

    /// Applies the outcome of a governor-creation round trip: exactly a
    /// response carrying a created governor enters the song screen, with
    /// that governor; every other outcome — a cancellation, a wrong-kind
    /// response, or a creation that the window side declined — leaves the
    /// screen untouched.
    fn apply_initialization_response(&mut self, response: Result<WindowResponse, RequestError>)
        ensures
            final(self).keybindings == old(self).keybindings,
            final(self).buttons_pressed == old(self).buttons_pressed,
            response matches Ok(WindowResponse::LaneGovernorCreated(Some(g)))
                ==> final(self).state == StateEnum::Song(g),
            !(response matches Ok(WindowResponse::LaneGovernorCreated(Some(_))))
                ==> final(self).state == old(self).state,
    {
        match response {
            Ok(WindowResponse::LaneGovernorCreated(Some(governor))) => {
                self.state = StateEnum::Song(governor);
            },
            _ => {},
        }
    }

    /// Creates the lane governor by the two-step initialization round trip
    /// and enters the song screen when everything succeeded; on any failure
    /// the screen is left as it is. `apply_initialization_response` states
    /// how each round-trip outcome maps to the new screen.
    fn initialize_song<S: EnvelopeSink>(&mut self, sink: &mut S)
        ensures
            final(self).state is Song || final(self).state == old(self).state,
            final(self).keybindings == old(self).keybindings,
            final(self).buttons_pressed == old(self).buttons_pressed,
    {
        match LGInitRequest::debug_new(sink) {
            Ok(req) => {
                let response = (WindowRequest::CreateLaneGovernor(req)).send_then_receive(sink);
                self.apply_initialization_response(response);
            },
            Err(_) => {},
        }
    }
}

/// A chord found by role lookup is one of the map's pairs.
proof fn lemma_lookup_role_in_pairs(ps: Seq<(BindRoles, ComposedKeystroke)>, role: BindRoles)
    ensures
        lookup_role(ps, role) matches Some(ks) ==> exists|i: int|
            0 <= i < ps.len() && (#[trigger] ps[i]).1 == ks && ps[i].0 == role,
    decreases ps.len(),
{
    if ps.len() > 0 && !(ps[0].0 == role) {
        lemma_lookup_role_in_pairs(ps.subrange(1, ps.len() as int), role);
        if lookup_role(ps, role) is Some {
            let ks = lookup_role(ps, role).unwrap();
            let tail = ps.subrange(1, ps.len() as int);
            let i = choose|i: int|
                0 <= i < tail.len() && (#[trigger] tail[i]).1 == ks && tail[i].0 == role;
            assert(ps[i + 1] == tail[i]);
        }
    }
}

impl ActorWrapper for GameState {
    type Payload = ();

    open spec fn update_ready(&self, payload: UpdatePayload<()>) -> bool {
        self.bindings_wf()
    }

    /// One update tick. The press log is updated from the tick's event; the
    /// very first tick leaves the uninitialized screen by requesting the
    /// song resources, and the title screen does the same on the confirm
    /// input. The initialization round trip goes through the sink, and on
    /// its failure the screen stays where it was.
    fn update<S: EnvelopeSink>(&mut self, payload: UpdatePayload<()>, sink: &mut S)
        ensures
            final(self).keybindings == old(self).keybindings,
            final(self).buttons_pressed@ == buttons_after(
                old(self).buttons_pressed@,
                payload.event,
                payload.game_time.instant,
            ),
            final(self).state is Song || final(self).state == old(self).state,
            !(old(self).state is Uninitialized) && !(old(self).state is TitleScreen)
                ==> final(self).state == old(self).state,
            old(self).state is TitleScreen && !old(self).confirm_pressed_spec(payload.event)
                ==> final(self).state == old(self).state,
    {
        match &payload.event {
            Some(Input::Button(args)) => {
                if args.state == ButtonState::Press {
                    self.buttons_pressed.push((args.button, payload.game_time.instant));
                } else {
                    let released: InputButton = args.button;
                    let mut kept: Vec<(InputButton, i64)> = Vec::new();
                    let n: usize = self.buttons_pressed.len();
                    let mut i: usize = 0;
                    while i < n
                        invariant
                            i <= n,
                            n == self.buttons_pressed@.len(),
                            kept@ == remove_button(self.buttons_pressed@.take(i as int), released),
                        decreases n - i,
                    {
                        let entry: (InputButton, i64) = self.buttons_pressed[i];
                        proof {
                            let pre = self.buttons_pressed@.take(i as int);
                            let post = self.buttons_pressed@.take(i + 1 as int);
                            assert(post.drop_last() =~= pre);
                            assert(post.last() == entry);
                        }
                        if !(entry.0 == released) {
                            kept.push(entry);
                        }
                        i = i + 1;
                    }
                    proof {
                        assert(self.buttons_pressed@.take(n as int) =~= self.buttons_pressed@);
                    }
                    self.buttons_pressed = kept;
                }
            },
            _ => {},
        }
        let advance: bool = match &self.state {
            StateEnum::Uninitialized => true,
            StateEnum::TitleScreen => self.confirm_pressed(&payload.event),
            _ => false,
        };
        if advance {
            self.initialize_song(sink);
        }
    }
}

/// The top-level render details: one variant per screen, where only the
/// song screen carries work — the pending render details of the lane
/// governor.
pub enum GameStateRenderDetails {
    Uninitialized,
    TitleScreen,
    Settings,
    SongSelection,
    Song(OneshotReceiver<LGRenderDetails>),
}

impl RenderableActorWrapper for GameState {
    type Payload = ();

    type Details = GameStateRenderDetails;

    open spec fn render_ready(&self, payload: RenderPayload<()>) -> bool {
        match self.state {
            StateEnum::Song(governor) => governor.wf() && -TICK_MAX <= resolved_song_time(
                payload.time,
            ) <= TICK_MAX,
            _ => true,
        }
    }

    /// Dispatches the render tick to the active screen: the song screen
    /// forwards it to the lane governor, every other screen draws nothing.
    fn emit_render_details(&mut self, payload: RenderPayload<()>) -> (d: GameStateRenderDetails)
        ensures
            final(self).keybindings == old(self).keybindings,
            final(self).buttons_pressed == old(self).buttons_pressed,
            final(self).state == old(self).state,
            match old(self).state {
                StateEnum::Uninitialized => d is Uninitialized,
                StateEnum::TitleScreen => d is TitleScreen,
                StateEnum::Settings => d is Settings,
                StateEnum::SongSelection => d is SongSelection,
                StateEnum::Song(_) => d is Song,
            },
    {
        match &mut self.state {
            StateEnum::Uninitialized => GameStateRenderDetails::Uninitialized,
            StateEnum::TitleScreen => GameStateRenderDetails::TitleScreen,
            StateEnum::Settings => GameStateRenderDetails::Settings,
            StateEnum::SongSelection => GameStateRenderDetails::SongSelection,
            StateEnum::Song(governor) => {
                let details: LGRenderDetails = governor.emit_render_details(payload);
                let (tx, rx) = oneshot_pair();
                oneshot_send(tx, details);
                GameStateRenderDetails::Song(rx)
            },
        }
    }
}

impl RenderDetails for GameStateRenderDetails {
    /// Renders the active screen. The song screen waits for the governor's
    /// pending details and renders them; when that response channel was
    /// cancelled the frame simply draws nothing, without panicking. The
    /// other screens draw nothing.
    fn render(self) -> (r: Vec<DrawCommand>)
        ensures
            !(self is Song) ==> r@.len() == 0,
            r@.len() != 0 ==> 1 <= r@.len() <= 2 && r@.last() is LaneComposite,
    {
        match self {
            GameStateRenderDetails::Song(pending) => {
                match oneshot_wait(pending) {
                    Ok(details) => details.render(),
                    Err(_) => Vec::new(),
                }
            },
            _ => Vec::new(),
        }
    }
}

} // verus!
