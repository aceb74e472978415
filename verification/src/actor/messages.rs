//! What reaches an actor, and what it tells its supervisor.
use super::actor_cell::ActorCell;
use super::errors::{ActorProcessingErr, ActorProcessingErrView};
use vstd::prelude::*;

verus! {

/// An order that an actor cannot put off: it interrupts the hook that runs.
#[derive(Clone, Copy, PartialEq, Eq, Structural, Debug)]
pub enum Signal {
    /// End now.
    Kill,
}

/// The reason that stands for a signal.
pub open spec fn signal_text(signal: Signal) -> Seq<char> {
    match signal {
        Signal::Kill => "killed"@,
    }
}

impl Signal {
    /// The reason that stands for the signal.
    pub fn to_string(&self) -> (res: String)
        ensures
            res@ == signal_text(*self),
            res@ == "killed"@,
    {
        match self {
            Signal::Kill => String::from_str("killed"),
        }
    }
}

/// A request to stop once the message at hand is done.
pub enum StopMessage {
    /// Stop.
    Stop,
    /// Stop, for a reason.
    Reason(String),
}

/// An optional reason as an optional sequence of characters.
pub open spec fn reason_view(reason: Option<String>) -> Option<Seq<char>> {
    match reason {
        Some(text) => Some(text@),
        None => None,
    }
}

/// The reason in a request to stop.
pub open spec fn stop_reason(message: StopMessage) -> Option<Seq<char>> {
    match message {
        StopMessage::Stop => None,
        StopMessage::Reason(reason) => Some(reason@),
    }
}

/// What a supervisor hears of an actor. `S` is the last state of the actor.
pub enum SupervisionEvent<S, E> {
    /// The actor has begun to process messages.
    ActorStarted(ActorCell),
    /// The actor has ended, with its last state and the reason where there are any.
    ActorTerminated(ActorCell, Option<S>, Option<String>),
    /// The actor has failed.
    ActorPanicked(ActorCell, ActorProcessingErr<E>),
}

/// A [`SupervisionEvent`] with its texts as sequences of characters.
#[verifier::ext_equal]
pub enum SupervisionEventView<S, E> {
    ActorStarted(ActorCell),
    ActorTerminated(ActorCell, Option<S>, Option<Seq<char>>),
    ActorPanicked(ActorCell, ActorProcessingErrView<E>),
}

impl<S, E> View for SupervisionEvent<S, E> {
    type V = SupervisionEventView<S, E>;

    open spec fn view(&self) -> SupervisionEventView<S, E> {
        match self {
            SupervisionEvent::ActorStarted(cell) => SupervisionEventView::ActorStarted(*cell),
            SupervisionEvent::ActorTerminated(cell, state, reason) =>
                SupervisionEventView::ActorTerminated(*cell, *state, reason_view(*reason)),
            SupervisionEvent::ActorPanicked(cell, error) =>
                SupervisionEventView::ActorPanicked(*cell, error@),
        }
    }
}

/// A message on its way to an actor.
///
/// `M` is the form of a message that may be of any type: only whoever takes it out learns whether
/// it is one that the actor takes. `S` is the form in which a message travels between processes.
pub struct BoxedMessage<M, S> {
    /// The message itself, where it has that form.
    pub msg: Option<M>,
    /// The message as it travels between processes, where it has that form.
    pub serialized_msg: Option<S>,
}

/// What the ports of an actor hand out. `M` and `S` are the forms of a message, `B` is the last
/// state of an actor that it supervises.
pub enum ActorPortMessage<M, S, B, E> {
    Signal(Signal),
    Stop(StopMessage),
    Supervision(SupervisionEvent<B, E>),
    Message(BoxedMessage<M, S>),
}

} // verus!
