use crate::danmaku::{decode_danmaku, decoded, opt_view, Danmaku};
use vstd::prelude::*;

verus! {

/// Where one connection's pump stands. There is no way back. A pump
/// cancelled while it connects ends without reaching `Streaming`.
pub enum PumpPhase {
    Connecting,
    Streaming,
    Terminated,
}

/// What the pump learns from its transport and its cancellation token.
pub enum PumpInput {
    HandshakeSucceeded,
    HandshakeFailed(String),
    Cancelled,
    /// A text frame, with its payload.
    TextFrame(String),
    /// A binary, ping, pong or close frame: ignored.
    OtherFrame,
    /// End of stream, or a read error.
    StreamEnded,
}

/// A signal for the consumer of the connection's progress.
pub enum LifecycleEvent {
    Succeeded,
    Failed(String),
    MessageReceived(Danmaku),
    Closed,
}

/// A lifecycle event with its strings as character sequences.
pub enum EventModel {
    Succeeded,
    Failed(Seq<char>),
    MessageReceived(Seq<char>, Seq<char>),
    Closed,
}

impl View for LifecycleEvent {
    type V = EventModel;

    open spec fn view(&self) -> EventModel {
        match self {
            LifecycleEvent::Succeeded => EventModel::Succeeded,
            LifecycleEvent::Failed(r) => EventModel::Failed(r@),
            LifecycleEvent::MessageReceived(d) => EventModel::MessageReceived(d.user@, d.text@),
            LifecycleEvent::Closed => EventModel::Closed,
        }
    }
}

/// The name of the consumer's signal for each kind of event.
pub open spec fn signal_name_of(e: EventModel) -> Seq<char> {
    match e {
        EventModel::Succeeded => "connection-succeed"@,
        EventModel::Failed(_) => "connection-failed"@,
        EventModel::MessageReceived(_, _) => "new-danmaku"@,
        EventModel::Closed => "connection-closed"@,
    }
}

impl LifecycleEvent {
    /// The name of the signal that carries this event to the consumer.
    pub fn signal_name(&self) -> (r: &'static str)
        ensures
            r@ == signal_name_of(self@),
    {
        match self {
            LifecycleEvent::Succeeded => "connection-succeed",
            LifecycleEvent::Failed(_) => "connection-failed",
            LifecycleEvent::MessageReceived(_) => "new-danmaku",
            LifecycleEvent::Closed => "connection-closed",
        }
    }
}

pub open spec fn event_opt_view(e: Option<LifecycleEvent>) -> Option<EventModel> {
    match e {
        Some(e) => Some(e@),
        None => None,
    }
}

/// What the pump does on one input: its next phase and the event it emits.
pub open spec fn transition(phase: PumpPhase, input: PumpInput) -> (PumpPhase, Option<EventModel>) {
    match phase {
        PumpPhase::Connecting => match input {
            PumpInput::HandshakeSucceeded => (PumpPhase::Streaming, Some(EventModel::Succeeded)),
            PumpInput::HandshakeFailed(r) => (PumpPhase::Terminated, Some(EventModel::Failed(r@))),
            PumpInput::Cancelled => (PumpPhase::Terminated, None),
            _ => (PumpPhase::Connecting, None),
        },
        PumpPhase::Streaming => match input {
            PumpInput::Cancelled => (PumpPhase::Terminated, Some(EventModel::Closed)),
            PumpInput::StreamEnded => (PumpPhase::Terminated, Some(EventModel::Closed)),
            PumpInput::TextFrame(raw) => (
                PumpPhase::Streaming,
                match decoded(raw@) {
                    Some(d) => Some(EventModel::MessageReceived(d.0, d.1)),
                    None => None,
                },
            ),
            _ => (PumpPhase::Streaming, None),
        },
        PumpPhase::Terminated => (PumpPhase::Terminated, None),
    }
}

/// The phase reached and the events emitted by a fresh pump fed `inputs`.
pub open spec fn run(inputs: Seq<PumpInput>) -> (PumpPhase, Seq<EventModel>)
    decreases inputs.len(),
{
    if inputs.len() == 0 {
        (PumpPhase::Connecting, Seq::empty())
    } else {
        let (p, ev) = run(inputs.drop_last());
        let (p1, e) = transition(p, inputs.last());
        (
            p1,
            match e {
                Some(e) => ev.push(e),
                None => ev,
            },
        )
    }
}

/// Events in causal order: nothing; or `Failed` alone; or `Succeeded`, then
/// messages, then at most one `Closed`, last.
pub open spec fn causal_order(ev: Seq<EventModel>) -> bool {
    ev.len() == 0 || (ev[0] is Failed && ev.len() == 1) || (ev[0] is Succeeded && forall|i: int|
        0 < i < ev.len() ==> (#[trigger] ev[i] is MessageReceived || (ev[i] is Closed && i
            == ev.len() - 1)))
}

pub open spec fn phase_matches(p: PumpPhase, ev: Seq<EventModel>) -> bool {
    &&& causal_order(ev)
    &&& p is Connecting ==> ev.len() == 0
    &&& p is Streaming ==> ev.len() > 0 && ev[0] is Succeeded && !(ev.last() is Closed)
}

/// Every sequence of inputs makes a pump emit its events in causal order.
pub proof fn lemma_events_in_causal_order(inputs: Seq<PumpInput>)
    ensures
        causal_order(run(inputs).1),
        phase_matches(run(inputs).0, run(inputs).1),
    decreases inputs.len(),
{
    if inputs.len() > 0 {
        lemma_events_in_causal_order(inputs.drop_last());
        let (p, ev) = run(inputs.drop_last());
        let (p1, ev1) = run(inputs);
        assert(ev.len() > 0 ==> ev[0] == ev1[0]);
        assert forall|i: int| 0 < i < ev.len() implies ev1[i] == ev[i] by {}
    }
}

/// Cancelling a second time changes nothing and emits nothing.
pub proof fn lemma_cancel_idempotent(phase: PumpPhase)
    ensures
        transition(transition(phase, PumpInput::Cancelled).0, PumpInput::Cancelled) == (
        transition(phase, PumpInput::Cancelled).0, None::<EventModel>),
{
}

/// A pump cancelled while it connects has emitted nothing, and emits nothing
/// whatever follows: it never reaches `Streaming`.
pub proof fn lemma_cancelled_while_connecting(pre: Seq<PumpInput>, rest: Seq<PumpInput>)
    requires
        run(pre).0 is Connecting,
    ensures
        run(pre.push(PumpInput::Cancelled) + rest) == (PumpPhase::Terminated, Seq::<EventModel>::empty()),
    decreases rest.len(),
{
    lemma_events_in_causal_order(pre);
    let p = pre.push(PumpInput::Cancelled);
    if rest.len() == 0 {
        assert(p + rest =~= p);
        assert(p.drop_last() =~= pre);
    } else {
        lemma_cancelled_while_connecting(pre, rest.drop_last());
        assert((p + rest).drop_last() =~= p + rest.drop_last());
    }
}

/// Once a pump has terminated, no input makes it emit again.
pub proof fn lemma_terminated_is_silent(input: PumpInput)
    ensures
        transition(PumpPhase::Terminated, input) == (PumpPhase::Terminated, None::<EventModel>),
{
}

/// The per-connection pump: from handshake to termination.
pub struct StreamPump {
    phase: PumpPhase,
}

impl StreamPump {
    pub closed spec fn phase(&self) -> PumpPhase {
        self.phase
    }

    /// A pump that is waiting for its handshake.
    pub fn new() -> (r: Self)
        ensures
            r.phase() is Connecting,
    {
        StreamPump { phase: PumpPhase::Connecting }
    }

    /// Takes one input, and returns the event to emit, if any.
    pub fn step(&mut self, input: PumpInput) -> (r: Option<LifecycleEvent>)
        ensures
            (final(self).phase(), event_opt_view(r)) == transition(old(self).phase(), input),
    {
        let ghost g_input = input;
        match self.phase {
            PumpPhase::Connecting => match input {
                PumpInput::HandshakeSucceeded => {
                    self.phase = PumpPhase::Streaming;
                    Some(LifecycleEvent::Succeeded)
                },
                PumpInput::HandshakeFailed(reason) => {
                    self.phase = PumpPhase::Terminated;
                    Some(LifecycleEvent::Failed(reason))
                },
                PumpInput::Cancelled => {
                    self.phase = PumpPhase::Terminated;
                    None
                },
                _ => None,
            },
            PumpPhase::Streaming => match input {
                PumpInput::Cancelled | PumpInput::StreamEnded => {
                    self.phase = PumpPhase::Terminated;
                    Some(LifecycleEvent::Closed)
                },
                PumpInput::TextFrame(raw) => match decode_danmaku(raw.as_str()) {
                    Some(d) => Some(LifecycleEvent::MessageReceived(d)),
                    None => None,
                },
                _ => None,
            },
            PumpPhase::Terminated => None,
        }
    }

    /// Whether the pump has finished: it reads and emits nothing more.
    pub fn is_terminated(&self) -> (r: bool)
        ensures
            r == (self.phase() is Terminated),
    {
        match self.phase {
            PumpPhase::Terminated => true,
            _ => false,
        }
    }
}

} // verus!
