use crate::song_player::governor::{LGInitRequest, LaneGovernor};
use crate::song_player::lanes::Lanes;
use futures::future::Future;
use futures::sync::mpsc::{UnboundedReceiver, UnboundedSender};
use futures::sync::oneshot::{Receiver as OneshotReceiver, Sender as OneshotSender};
use vstd::prelude::*;

verus! {

#[verifier::external_type_specification]
#[verifier::external_body]
#[verifier::reject_recursive_types(T)]
pub struct ExOneshotSender<T>(OneshotSender<T>);

#[verifier::external_type_specification]
#[verifier::external_body]
#[verifier::reject_recursive_types(T)]
pub struct ExOneshotReceiver<T>(OneshotReceiver<T>);

#[verifier::external_type_specification]
#[verifier::external_body]
#[verifier::reject_recursive_types(T)]
pub struct ExUnboundedSender<T>(UnboundedSender<T>);

#[verifier::external_type_specification]
#[verifier::external_body]
#[verifier::reject_recursive_types(T)]
pub struct ExUnboundedReceiver<T>(UnboundedReceiver<T>);

/// Why a request round trip failed.
#[derive(Debug, Clone, Copy, PartialEq, Eq, Structural)]
pub enum RequestError {
    /// The response channel was dropped before a value was sent, e.g. the
    /// window closed mid-request. Expected and recoverable.
    Canceled,
    /// The window side answered with a response of the wrong kind.
    UnexpectedResponse,
}

/// Relies on `futures::sync::oneshot::channel`: creates the two halves of a
/// single-shot in-process channel.
#[verifier::external_body]
pub(crate) fn oneshot_pair<T>() -> (r: (OneshotSender<T>, OneshotReceiver<T>)) {
    futures::sync::oneshot::channel()
}

/// Relies on `futures::sync::oneshot::Sender::send`: hands the value to the
/// receiving half. When the receiver is already gone the value is discarded
/// silently, by design: an abandoned request is not an error.
#[verifier::external_body]
pub(crate) fn oneshot_send<T>(tx: OneshotSender<T>, value: T) {
    let _ = tx.send(value);
}

/// Relies on the `Future` impl of `futures::sync::oneshot::Receiver`:
/// `wait` blocks until the sent value arrives, or fails once the sender is
/// dropped without sending. The only failure it reports is that
/// cancellation.
#[verifier::external_body]
pub(crate) fn oneshot_wait<T>(rx: OneshotReceiver<T>) -> (r: Result<T, RequestError>)
    ensures
        r matches Err(e) ==> e == RequestError::Canceled,
{
    match rx.wait() {
        Ok(v) => Ok(v),
        Err(_) => Err(RequestError::Canceled),
    }
}

/// A resource-initialization request bound for the thread that owns the
/// graphics context. The set of request kinds is closed, so one queue can
/// carry them all to the single consumer.
#[derive(Debug, Clone, PartialEq)]
pub enum WindowRequest {
    CreateLanes,
    CreateLaneGovernor(LGInitRequest),
}

/// The response produced by handling a `WindowRequest`, sent back through
/// the envelope's single-shot channel.
#[derive(Debug, Clone, PartialEq)]
pub enum WindowResponse {
    LanesCreated(Lanes),
    LaneGovernorCreated(Option<LaneGovernor>),
}

/// The single owner of the window and graphics handles. Handling a request
/// must happen on the one thread that owns those resources; everything else
/// reaches it only through envelopes.
pub trait WindowContext {
    /// Handles one request against the owned resources.
    fn dispatch(&mut self, req: WindowRequest) -> WindowResponse;
}

/// Where envelopes are delivered: the real queue toward the resource-owning
/// thread, or an immediate executor in tests.
pub trait EnvelopeSink {
    /// Accepts one envelope for later (or immediate) handling.
    fn deliver(&mut self, env: UpdateEnvelope);
}

/// A single-use, type-erased request/response pair: the request together
/// with the single-shot sender its response will travel through.
#[derive(Debug)]
pub struct UpdateEnvelope {
    inner: Option<(OneshotSender<WindowResponse>, WindowRequest)>,
}

impl UpdateEnvelope {
    /// Whether this envelope still awaits dispatch.
    pub closed spec fn is_pending(&self) -> bool {
        self.inner is Some
    }

    /// Whether this envelope has already been dispatched (or never held a
    /// request).
    pub open spec fn is_consumed(&self) -> bool {
        !self.is_pending()
    }

    /// The request still inside the envelope, if any.
    pub closed spec fn pending_request(&self) -> Option<WindowRequest> {
        match self.inner {
            Some((_, req)) => Some(req),
            None => None,
        }
    }

    /// Bundles a request with a fresh response channel; the receiver half is
    /// handed back to the requester.
    pub fn new(msg: WindowRequest) -> (r: (UpdateEnvelope, OneshotReceiver<WindowResponse>))
        ensures
            r.0.is_pending(),
            r.0.pending_request() == Some(msg),
    {
        let (tx, rx) = oneshot_pair();
        (UpdateEnvelope { inner: Some((tx, msg)) }, rx)
    }

    /// Dispatches the contained request against the resource-owning context
    /// and sends the response, consuming the envelope's contents. A second
    /// call finds the envelope empty and is a no-op: it dispatches nothing,
    /// sends nothing, and does not panic.
    pub fn handle<C: WindowContext>(&mut self, uwp: &mut C) -> (dispatched: bool)
        ensures
            final(self).is_consumed(),
            dispatched == old(self).is_pending(),
    {
        match self.inner.take() {
            Some((tx, req)) => {
                let response = uwp.dispatch(req);
                oneshot_send(tx, response);
                true
            },
            None => false,
        }
    }

    /// Relies on `futures::sync::mpsc::unbounded`: creates the unbounded
    /// in-process queue that carries envelopes to the resource-owning
    /// thread.
    #[verifier::external_body]
    pub fn unbounded() -> (r: (UnboundedSender<UpdateEnvelope>, UnboundedReceiver<UpdateEnvelope>)) {
        futures::sync::mpsc::unbounded()
    }
}

/// Relies on `futures::sync::mpsc::UnboundedSender::unbounded_send`: enqueues
/// the envelope. A failure means the receiving half is gone; the envelope is
/// then dropped, which the waiting side observes as a cancellation.
#[verifier::external_body]
fn queue_send(tx: &UnboundedSender<UpdateEnvelope>, env: UpdateEnvelope) {
    let _ = tx.unbounded_send(env);
}

/// Relies on the `Stream` impl of `futures::sync::mpsc::UnboundedReceiver`,
/// polled inside a task context that `futures::future::lazy(..).wait()`
/// supplies: collects the envelopes that are ready now, without blocking.
#[verifier::external_body]
fn queue_drain(rx: &mut UnboundedReceiver<UpdateEnvelope>) -> (r: Vec<UpdateEnvelope>) {
    let mut out = Vec::new();
    loop {
        match futures::future::lazy(|| futures::stream::Stream::poll(rx)).wait() {
            Ok(futures::Async::Ready(Some(env))) => out.push(env),
            _ => return out,
        }
    }
}

/// The sending half of the envelope queue, as handed to actors inside their
/// update payloads.
#[derive(Debug)]
pub struct UpdateQueue {
    tx: UnboundedSender<UpdateEnvelope>,
}

impl UpdateQueue {
    /// Wraps the sending half of an envelope queue.
    pub fn new(tx: UnboundedSender<UpdateEnvelope>) -> UpdateQueue {
        UpdateQueue { tx }
    }
}

impl EnvelopeSink for UpdateQueue {
    fn deliver(&mut self, env: UpdateEnvelope) {
        queue_send(&self.tx, env);
    }
}

impl WindowRequest {
    /// Bundles this request into an envelope plus the receiver for its
    /// response.
    pub fn wrap(self) -> (r: (UpdateEnvelope, OneshotReceiver<WindowResponse>))
        ensures
            r.0.is_pending(),
            r.0.pending_request() == Some(self),
    {
        UpdateEnvelope::new(self)
    }

    /// Wraps this request, delivers the envelope to the sink, and blocks the
    /// calling thread until the response arrives. Fails exactly with a
    /// cancellation error when the handling side drops the channel without
    /// responding; what a successful response holds is the handling side's.
    pub fn send_then_receive<S: EnvelopeSink>(self, sink: &mut S) -> (r: Result<
        WindowResponse,
        RequestError,
    >)
        ensures
            r matches Err(e) ==> e == RequestError::Canceled,
    {
        let (env, rx) = self.wrap();
        sink.deliver(env);
        receive_response(rx)
    }
}

/// Blocks until the response to an earlier request arrives, or reports the
/// cancellation — the only failure this path produces — if the sender side
/// was dropped first.
pub fn receive_response(rx: OneshotReceiver<WindowResponse>) -> (r: Result<
    WindowResponse,
    RequestError,
>)
    ensures
        r matches Err(e) ==> e == RequestError::Canceled,
{
    oneshot_wait(rx)
}

/// How many envelopes of the sequence still await dispatch.
pub open spec fn pending_count(envs: Seq<UpdateEnvelope>) -> int
    decreases envs.len(),
{
    if envs.len() == 0 {
        0
    } else {
        pending_count(envs.drop_last()) + if envs.last().is_pending() {
            1int
        } else {
            0int
        }
    }
}

/// A sequence without pending envelopes counts zero.
proof fn lemma_pending_count_zero(envs: Seq<UpdateEnvelope>)
    requires
        forall|i: int| 0 <= i < envs.len() ==> (#[trigger] envs[i]).is_consumed(),
    ensures
        pending_count(envs) == 0,
    decreases envs.len(),
{
    if envs.len() > 0 {
        lemma_pending_count_zero(envs.drop_last());
    }
}

/// No more envelopes are pending than exist.
proof fn lemma_pending_count_le_len(envs: Seq<UpdateEnvelope>)
    ensures
        0 <= pending_count(envs) <= envs.len(),
    decreases envs.len(),
{
    if envs.len() > 0 {
        lemma_pending_count_le_len(envs.drop_last());
    }
}

/// Handles every envelope of the batch against the resource-owning
/// context, walking the batch front to back — the arrival order, since the
/// queue is drained in order. Afterwards every envelope is consumed, and
/// the returned count says how many were actually dispatched (each of them
/// exactly once — an already-consumed envelope dispatches nothing). The
/// dispatch order itself is not a clause here: the context deliberately
/// carries no contract, so there is no specified observable to state it
/// against; it holds by the shape of the walk.
pub fn complete_update_tick<C: WindowContext>(
    pending: &mut Vec<UpdateEnvelope>,
    uwp: &mut C,
) -> (n: usize)
    ensures
        final(pending)@.len() == old(pending)@.len(),
        forall|i: int|
            0 <= i < final(pending)@.len() ==> (#[trigger] final(pending)@[i]).is_consumed(),
        n == pending_count(old(pending)@),
{
    proof {
        lemma_pending_count_le_len(pending@);
    }
    let mut i: usize = 0;
    let mut n: usize = 0;
    while i < pending.len()
        invariant
            i <= pending@.len(),
            pending@.len() == old(pending)@.len(),
            forall|k: int| 0 <= k < i ==> (#[trigger] pending@[k]).is_consumed(),
            forall|k: int| i <= k < pending@.len() ==> pending@[k] == old(pending)@[k],
            n == pending_count(old(pending)@.take(i as int)),
            n <= i,
        decreases pending@.len() - i,
    {
        let dispatched: bool = pending[i].handle(uwp);
        if dispatched {
            n = n + 1;
        }
        proof {
            assert(old(pending)@.take(i + 1 as int).drop_last() =~= old(pending)@.take(i as int));
            assert(old(pending)@.take(i + 1 as int).last() == old(pending)@[i as int]);
        }
        i = i + 1;
    }
    proof {
        assert(old(pending)@.take(pending@.len() as int) =~= old(pending)@);
    }
    n
}

/// Law: one update tick is fair to the queued resource-initialization work.
/// After the batch completes, no envelope is left pending, and the number of
/// dispatches equals the number of envelopes that were waiting: every queued
/// request is served exactly once before the tick is considered complete.
pub proof fn lemma_update_tick_fairness(
    before: Seq<UpdateEnvelope>,
    after: Seq<UpdateEnvelope>,
    n: int,
)
    requires
        after.len() == before.len(),
        forall|i: int| 0 <= i < after.len() ==> (#[trigger] after[i]).is_consumed(),
        n == pending_count(before),
    ensures
        pending_count(after) == 0,
        0 <= n <= before.len(),
{
    lemma_pending_count_zero(after);
    lemma_pending_count_le_len(before);
}

/// Whether `post` and `dispatched` can describe one `handle` call on an
/// envelope in state `pre`.
pub open spec fn handle_transition(
    pre: UpdateEnvelope,
    post: UpdateEnvelope,
    dispatched: bool,
) -> bool {
    post.is_consumed() && dispatched == pre.is_pending()
}

/// Law: an envelope's response is sent at most once. Whatever the first
/// `handle` call did, a second call on the same envelope dispatches nothing.
pub proof fn lemma_envelope_single_consumption(
    e0: UpdateEnvelope,
    e1: UpdateEnvelope,
    e2: UpdateEnvelope,
    d1: bool,
    d2: bool,
)
    requires
        handle_transition(e0, e1, d1),
        handle_transition(e1, e2, d2),
    ensures
        !d2,
{
}

/// Serves every resource-initialization envelope currently queued: drains
/// the queue and handles each envelope, in arrival order, against the
/// resource-owning context. The frame loop calls this while it waits for the
/// update response, so queued requests never starve.
pub fn run_update_tick<C: WindowContext>(
    rx: &mut UnboundedReceiver<UpdateEnvelope>,
    uwp: &mut C,
) -> (n: usize) {
    let mut batch: Vec<UpdateEnvelope> = queue_drain(rx);
    complete_update_tick(&mut batch, uwp)
}

} // verus!
