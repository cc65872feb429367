use crate::environment::key_bindings::InputButton;
use crate::environment::update_routine::EnvelopeSink;
use crate::environment::GameTime;
use crate::song_player::governor::Transform;
use vstd::prelude::*;

verus! {

/// Whether a button event is a press or a release.
#[derive(Debug, Clone, Copy, PartialEq, Eq, Structural)]
pub enum ButtonState {
    Press,
    Release,
}

/// One button event as the windowing layer delivers it.
#[derive(Debug, Clone, Copy, PartialEq, Eq, Structural)]
pub struct ButtonArgs {
    pub state: ButtonState,
    pub button: InputButton,
}

/// One input event of a tick. Only button events drive this crate's logic;
/// everything else the window delivers is carried opaquely.
#[derive(Debug, Clone, Copy, PartialEq, Eq, Structural)]
pub enum Input {
    Button(ButtonArgs),
    Other,
}

/// A color render target, by role: the window surface, or one of the
/// off-screen textures the lane governor lets its children draw into.
#[derive(Debug, Clone, Copy, PartialEq, Eq, Structural)]
pub enum RenderTarget {
    Screen,
    LanesTexture,
    LaserTexture,
}

/// The depth-stencil buffer a draw writes to, by id.
#[derive(Debug, Clone, Copy, PartialEq, Eq, Structural)]
pub struct DepthStencil(pub u64);

/// The shader-language capability of the running graphics context, as a
/// GLSL version number (for example 330).
#[derive(Debug, Clone, Copy, PartialEq, Eq, Structural)]
pub struct ShaderVersion(pub u32);

/// One draw submission, in the order the graphics layer must issue them:
/// the lane layer samples the lane texture; the composite layer puts the
/// governor's textures on screen under the frame's transform.
#[derive(Debug, Clone, Copy, PartialEq, Eq)]
pub enum DrawCommand {
    Lanes { target: RenderTarget },
    LaneComposite { target: RenderTarget, transform: Transform },
}

/// The message an actor receives on an update tick: at most one input
/// event, the tick's clocks, and an actor-specific payload.
#[derive(Debug, Clone, Copy, PartialEq)]
pub struct UpdatePayload<P> {
    pub event: Option<Input>,
    pub game_time: GameTime,
    pub payload: P,
}

impl<P> UpdatePayload<P> {
    /// Builds an update payload from its parts.
    pub fn new(event: Option<Input>, game_time: GameTime, payload: P) -> (r: UpdatePayload<P>)
        ensures
            r.event == event,
            r.game_time == game_time,
            r.payload == payload,
    {
        UpdatePayload { event, game_time, payload }
    }

    /// A payload for a child actor: the same event and clocks, with the
    /// child's own payload.
    pub fn another<P2>(&self, payload: P2) -> (r: UpdatePayload<P2>)
        ensures
            r.event == self.event,
            r.game_time == self.game_time,
            r.payload == payload,
    {
        UpdatePayload { event: self.event, game_time: self.game_time, payload }
    }
}

/// The message an actor receives on a render tick: the draw target and
/// capabilities it needs, the tick's clocks, and an actor-specific payload.
#[derive(Debug, Clone, Copy, PartialEq)]
pub struct RenderPayload<P> {
    pub payload: P,
    pub time: GameTime,
    pub color_target: RenderTarget,
    pub depth_stencil: DepthStencil,
    pub shdr_ver: ShaderVersion,
}

impl<P> RenderPayload<P> {
    /// Builds a render payload from its parts.
    pub fn new(
        payload: P,
        time: GameTime,
        color_target: RenderTarget,
        depth_stencil: DepthStencil,
        shdr_ver: ShaderVersion,
    ) -> (r: RenderPayload<P>)
        ensures
            r.payload == payload,
            r.time == time,
            r.color_target == color_target,
            r.depth_stencil == depth_stencil,
            r.shdr_ver == shdr_ver,
    {
        RenderPayload { payload, time, color_target, depth_stencil, shdr_ver }
    }

    /// The tick's clocks.
    pub fn get_time(&self) -> (r: &GameTime)
        ensures
            r == self.time,
    {
        &self.time
    }

    /// The same payload aimed at another color target.
    pub fn set_color_target(self, color_target: RenderTarget) -> (r: RenderPayload<P>)
        ensures
            r == (RenderPayload { color_target, ..self }),
    {
        RenderPayload { color_target, ..self }
    }

    /// The same payload with another depth-stencil buffer.
    pub fn set_depth_stencil(self, depth_stencil: DepthStencil) -> (r: RenderPayload<P>)
        ensures
            r == (RenderPayload { depth_stencil, ..self }),
    {
        RenderPayload { depth_stencil, ..self }
    }

    /// The same tick and targets carrying another actor's payload.
    pub fn set_payload<P2>(self, payload: P2) -> (r: RenderPayload<P2>)
        ensures
            r.payload == payload,
            r.time == self.time,
            r.color_target == self.color_target,
            r.depth_stencil == self.depth_stencil,
            r.shdr_ver == self.shdr_ver,
    {
        RenderPayload {
            payload,
            time: self.time,
            color_target: self.color_target,
            depth_stencil: self.depth_stencil,
            shdr_ver: self.shdr_ver,
        }
    }
}

/// The uniform two-message contract of every gameplay component: an update
/// tick that may mutate state and request resources, and (for renderable
/// actors) a render tick that describes what to draw.
pub trait ActorWrapper: Sized {
    type Payload;

    /// When an update dispatch is permitted for this actor.
    spec fn update_ready(&self, payload: UpdatePayload<Self::Payload>) -> bool;

    /// Handles one update tick: at most one input event and the current
    /// time. May send resource-initialization envelopes through the sink
    /// and block until their responses arrive.
    fn update<S: EnvelopeSink>(&mut self, payload: UpdatePayload<Self::Payload>, sink: &mut S)
        requires
            old(self).update_ready(payload),
    ;

    /// Called once when the actor begins running.
    fn on_start(&mut self) {
    }

    /// Called once the actor's inbound queue is empty.
    fn on_message_exhaust(&mut self) {
    }
}

/// A one-shot description of what to draw, possibly holding pending child
/// results that are awaited when it is rendered.
pub trait RenderDetails: Sized {
    /// Consumes the details, waits for any embedded child results, and
    /// produces the draw commands in back-to-front layer order. A child
    /// whose response channel was cancelled is skipped, never a panic.
    fn render(self) -> Vec<DrawCommand>;
}

/// An actor that can describe what it draws.
pub trait RenderableActorWrapper: ActorWrapper {
    type Payload;
    type Details: RenderDetails;

    /// When a render dispatch is permitted for this actor.
    spec fn render_ready(
        &self,
        payload: RenderPayload<<Self as RenderableActorWrapper>::Payload>,
    ) -> bool;

    /// Produces a description of what to draw, fanning the payload out to
    /// child actors where there are any.
    fn emit_render_details(
        &mut self,
        payload: RenderPayload<<Self as RenderableActorWrapper>::Payload>,
    ) -> (d: Self::Details)
        requires
            old(self).render_ready(payload),
    ;
}

/// Shell that runs any actor-wrapper under the uniform actor interface.
#[derive(Debug, Clone)]
pub struct WrappedActor<A>(pub A) where A: ActorWrapper;

impl<A: ActorWrapper> ActorWrapper for WrappedActor<A> {
    type Payload = A::Payload;

    open spec fn update_ready(&self, payload: UpdatePayload<A::Payload>) -> bool {
        self.0.update_ready(payload)
    }

    fn update<S: EnvelopeSink>(&mut self, payload: UpdatePayload<A::Payload>, sink: &mut S) {
        self.0.update(payload, sink)
    }

    fn on_start(&mut self) {
        self.0.on_start()
    }

    fn on_message_exhaust(&mut self) {
        self.0.on_message_exhaust()
    }
}

} // verus!
