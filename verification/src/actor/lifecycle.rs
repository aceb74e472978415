//! The life of an actor, as a relation between what happens to it and what it has done.
//!
//! A life goes through the phases of [`Phase`]. In each of them the actor waits for one thing; the
//! [`Event`] that tells how that went takes it to the next phase, and yields the [`Effect`]s that
//! are due then, in their order. [`transition`] says which.
use super::actor_cell::{ActorCell, ActorStatus};
use super::errors::{
    ActorErr, ActorErrView, ActorProcessingErr, ActorProcessingErrView, HookOutcome, MessagingErr,
    PanicPayload, SpawnErr, SpawnErrView,
};
use super::messages::{
    ActorPortMessage, BoxedMessage, Signal, SupervisionEvent, SupervisionEventView,
};
use super::runtime::Actor;
use vstd::prelude::*;

verus! {

/// What an actor waits for.
#[derive(Clone, Copy, PartialEq, Eq, Structural, Debug)]
pub enum Phase {
    /// To be started.
    Created,
    /// For the hook `pre_start`.
    PreStart,
    /// For the hook `post_start`.
    PostStart,
    /// For something to come out of its ports.
    Listen,
    /// For the hook that handles what came out of its ports.
    Handle,
    /// For the hook `post_stop`.
    PostStop,
    /// For nothing: it could not be started.
    Failed,
    /// For nothing: it has ended.
    Finished,
}

/// What came out of the ports of an actor.
pub type PortOutcome<TActor> = Result<
    ActorPortMessage<
        <TActor as Actor>::BoxedMsg,
        <TActor as Actor>::Serialized,
        <TActor as Actor>::BoxedState,
        <TActor as Actor>::Failure,
    >,
    MessagingErr,
>;

/// A message on its way to an actor of the type `TActor`.
pub type MessageFor<TActor> = BoxedMessage<
    <TActor as Actor>::BoxedMsg,
    <TActor as Actor>::Serialized,
>;

/// What came of a handler: what it returned, or the signal that interrupted it.
pub type HandlerOutcome<TActor> = Result<
    Result<(), ActorProcessingErr<<TActor as Actor>::Failure>>,
    Signal,
>;

/// The hook that a message goes to.
pub enum MessageHook<TActor: Actor> {
    /// The hook `handle`.
    Handle(TActor::Msg),
    /// The hook `handle_serialized`.
    HandleSerialized(TActor::Serialized),
}

/// What an actor of the type `TActor` hears of an actor that it supervises.
pub type ChildEvent<TActor> = SupervisionEvent<
    <TActor as Actor>::BoxedState,
    <TActor as Actor>::Failure,
>;

/// What an actor of the type `TActor` tells its supervisor.
pub type OwnEvent<TActor> = SupervisionEvent<<TActor as Actor>::State, <TActor as Actor>::Failure>;

/// An [`OwnEvent`] with its texts as sequences of characters.
pub type OwnEventView<TActor> = SupervisionEventView<
    <TActor as Actor>::State,
    <TActor as Actor>::Failure,
>;

/// Something that an actor waited for.
pub enum Event<TActor: Actor> {
    /// The hook `pre_start` ended.
    PreStartDone(HookOutcome<TActor::State, TActor::Failure>),
    /// The hook `post_start` ended.
    PostStartDone(HookOutcome<(), TActor::Failure>),
    /// The ports handed something out, or are closed.
    PortReady(PortOutcome<TActor>),
    /// The handling of what came out of the ports ended, or a signal interrupted it.
    HandlerDone(HandlerOutcome<TActor>),
    /// There was a panic while the actor listened to its ports or handled what came out of them.
    LoopPanicked(PanicPayload),
    /// The hook `post_stop` ended.
    PostStopDone(HookOutcome<(), TActor::Failure>),
}

/// Something to be done for an actor.
///
/// The effects from `RunPreStart` on are requests: each is answered by one event. What handles a
/// message or a supervision event is to be run in such a way that a signal interrupts it.
pub enum Effect<TActor: Actor> {
    /// Give the actor a status.
    SetStatus(ActorStatus),
    /// Make the cell the actor's supervisor.
    Link(ActorCell),
    /// Make the cell the actor's supervisor no longer.
    Unlink(ActorCell),
    /// Terminate the actors that the actor supervises.
    TerminateChildren,
    /// Tell the actor's supervisor, if it has one.
    NotifySupervisor(OwnEvent<TActor>),
    /// Tell whoever started the actor that it is up; all that follows goes on in the background.
    StartSucceeded(ActorCell),
    /// Tell whoever started the actor that it is not up.
    StartFailed(SpawnErr<TActor::Failure>),
    /// Run the hook `pre_start`.
    RunPreStart(TActor::Arguments),
    /// Run the hook `post_start`.
    RunPostStart,
    /// Wait for something to come out of the ports, in the order of their priority.
    Listen,
    /// Find the hook that the message goes to, by [`handle_message`], and run it; the message fails
    /// where there is none.
    ///
    /// [`handle_message`]: super::runtime::ActorRuntime::handle_message
    RunHandleMessage(MessageFor<TActor>),
    /// Run the hook `handle_supervisor_evt`.
    RunHandleSupervisorEvt(ChildEvent<TActor>),
    /// Run the hook `post_stop`.
    RunPostStop,
}

/// An [`Effect`] with its texts as sequences of characters.
#[verifier::ext_equal]
pub enum EffectView<TActor: Actor> {
    SetStatus(ActorStatus),
    Link(ActorCell),
    Unlink(ActorCell),
    TerminateChildren,
    NotifySupervisor(OwnEventView<TActor>),
    StartSucceeded(ActorCell),
    StartFailed(SpawnErrView<TActor::Failure>),
    RunPreStart(TActor::Arguments),
    RunPostStart,
    Listen,
    RunHandleMessage(MessageFor<TActor>),
    RunHandleSupervisorEvt(ChildEvent<TActor>),
    RunPostStop,
}

impl<TActor: Actor> View for Effect<TActor> {
    type V = EffectView<TActor>;

    open spec fn view(&self) -> EffectView<TActor> {
        match self {
            Effect::SetStatus(status) => EffectView::SetStatus(*status),
            Effect::Link(cell) => EffectView::Link(*cell),
            Effect::Unlink(cell) => EffectView::Unlink(*cell),
            Effect::TerminateChildren => EffectView::TerminateChildren,
            Effect::NotifySupervisor(event) => EffectView::NotifySupervisor(event@),
            Effect::StartSucceeded(cell) => EffectView::StartSucceeded(*cell),
            Effect::StartFailed(error) => EffectView::StartFailed(error@),
            Effect::RunPreStart(args) => EffectView::RunPreStart(*args),
            Effect::RunPostStart => EffectView::RunPostStart,
            Effect::Listen => EffectView::Listen,
            Effect::RunHandleMessage(message) => EffectView::RunHandleMessage(*message),
            Effect::RunHandleSupervisorEvt(event) => EffectView::RunHandleSupervisorEvt(*event),
            Effect::RunPostStop => EffectView::RunPostStop,
        }
    }
}

/// Effects with their texts as sequences of characters.
pub open spec fn effects_view<TActor: Actor>(effects: Seq<Effect<TActor>>) -> Seq<
    EffectView<TActor>,
> {
    effects.map_values(|effect: Effect<TActor>| effect@)
}

/// How far an actor is in its life.
#[verifier::ext_equal]
pub struct Lifecycle<TActor: Actor> {
    /// The actor.
    pub cell: ActorCell,
    /// The status it has been given last.
    pub status: ActorStatus,
    /// What it waits for.
    pub phase: Phase,
    /// Its supervisor, as named when it was started.
    pub supervisor: Option<ActorCell>,
    /// Its own state, from `pre_start` on.
    pub state: Option<TActor::State>,
    /// Why it stops, while `post_stop` runs.
    pub exit_reason: Option<Seq<char>>,
}

/// An actor that has been made and not started.
pub open spec fn created<TActor: Actor>(cell: ActorCell) -> Lifecycle<TActor> {
    Lifecycle {
        cell,
        status: ActorStatus::Unstarted,
        phase: Phase::Created,
        supervisor: None,
        state: None,
        exit_reason: None,
    }
}

/// An actor whose start has begun.
pub open spec fn starting<TActor: Actor>(s: Lifecycle<TActor>, supervisor: Option<ActorCell>) -> Lifecycle<
    TActor,
> {
    Lifecycle { status: ActorStatus::Starting, phase: Phase::PreStart, supervisor, ..s }
}

/// What is due when the start of an actor begins.
pub open spec fn start_effects<TActor: Actor>(args: TActor::Arguments) -> Seq<EffectView<TActor>> {
    seq![EffectView::SetStatus(ActorStatus::Starting)].push(EffectView::RunPreStart(args))
}

/// How the processing of messages ended, with its texts as sequences of characters.
pub open spec fn end_view<E>(end: Result<Option<String>, ActorErr<E>>) -> Result<
    Option<Seq<char>>,
    ActorErrView<E>,
> {
    match end {
        Ok(reason) => Ok(super::messages::reason_view(reason)),
        Err(error) => Err(error@),
    }
}

/// What a supervisor hears at the end of an actor: of an orderly end the last state and the
/// reason, of a cancelled one that it was killed, of a failure what failed.
pub open spec fn exit_event_view<TActor: Actor>(
    cell: ActorCell,
    state: Option<TActor::State>,
    end: Result<Option<Seq<char>>, ActorErrView<TActor::Failure>>,
) -> OwnEventView<TActor> {
    match end {
        Ok(reason) => SupervisionEventView::ActorTerminated(cell, state, reason),
        Err(ActorErrView::Cancelled) => SupervisionEventView::ActorTerminated(
            cell,
            None,
            Some("killed"@),
        ),
        Err(ActorErrView::Panic(error)) => SupervisionEventView::ActorPanicked(cell, error),
    }
}

/// The last things that are done for an actor: its children end, its supervisor hears the
/// `last_words`, it is stopped, and the link to its supervisor is cut.
pub open spec fn closing<TActor: Actor>(
    supervisor: Option<ActorCell>,
    last_words: OwnEventView<TActor>,
) -> Seq<EffectView<TActor>> {
    let end = seq![EffectView::TerminateChildren].push(
        EffectView::NotifySupervisor(last_words),
    ).push(EffectView::SetStatus(ActorStatus::Stopped));
    match supervisor {
        Some(sup) => end.push(EffectView::Unlink(sup)),
        None => end,
    }
}

/// An actor that has ended.
pub open spec fn finished<TActor: Actor>(s: Lifecycle<TActor>) -> Lifecycle<TActor> {
    Lifecycle {
        status: ActorStatus::Stopped,
        phase: Phase::Finished,
        state: None,
        exit_reason: None,
        ..s
    }
}

/// The end of an actor: `first`, then its [`closing`].
pub open spec fn ends<TActor: Actor>(
    s: Lifecycle<TActor>,
    first: Seq<EffectView<TActor>>,
    end: Result<Option<Seq<char>>, ActorErrView<TActor::Failure>>,
) -> (Lifecycle<TActor>, Seq<EffectView<TActor>>) {
    (finished(s), first + closing(s.supervisor, exit_event_view::<TActor>(s.cell, s.state, end)))
}

/// The end of an actor that fails while it processes messages: `post_stop` does not run.
pub open spec fn fails<TActor: Actor>(
    s: Lifecycle<TActor>,
    error: ActorProcessingErrView<TActor::Failure>,
) -> (Lifecycle<TActor>, Seq<EffectView<TActor>>) {
    ends(s, seq![EffectView::SetStatus(ActorStatus::Stopping)], Err(ActorErrView::Panic(error)))
}

/// The end of an actor that gets a signal: its children end at once and `post_stop` does not run.
pub open spec fn obeys<TActor: Actor>(s: Lifecycle<TActor>, signal: Signal) -> (
    Lifecycle<TActor>,
    Seq<EffectView<TActor>>,
) {
    ends(
        s,
        seq![EffectView::TerminateChildren].push(EffectView::SetStatus(ActorStatus::Stopping)),
        Ok(Some(super::messages::signal_text(signal))),
    )
}

/// An actor that is asked to stop, or whose ports are closed: `post_stop` runs next.
pub open spec fn stops<TActor: Actor>(s: Lifecycle<TActor>, reason: Option<Seq<char>>) -> (
    Lifecycle<TActor>,
    Seq<EffectView<TActor>>,
) {
    (
        Lifecycle {
            status: ActorStatus::Stopping,
            phase: Phase::PostStop,
            exit_reason: reason,
            ..s
        },
        seq![EffectView::SetStatus(ActorStatus::Stopping)].push(EffectView::RunPostStop),
    )
}

/// An actor that runs a handler next.
pub open spec fn handles<TActor: Actor>(s: Lifecycle<TActor>, request: EffectView<TActor>) -> (
    Lifecycle<TActor>,
    Seq<EffectView<TActor>>,
) {
    (Lifecycle { phase: Phase::Handle, ..s }, seq![request])
}

/// The failure of a remote actor that gets a message without its serialized form.
pub open spec fn not_serialized() -> Seq<char> {
    "`RemoteActor` failed to read `SerializedMessage` from `BoxedMessage`"@
}

/// Whether `res` is the hook that `message` goes to, or the failure of finding one.
///
/// An actor of this process takes the message itself, as `from_boxed` takes it out. One that stands
/// for an actor of another process takes the serialized form as it is.
pub open spec fn routed<TActor: Actor, F>(
    cell: ActorCell,
    message: MessageFor<TActor>,
    from_boxed: F,
    res: Result<MessageHook<TActor>, ActorProcessingErr<TActor::Failure>>,
) -> bool where F: FnOnce(MessageFor<TActor>) -> Result<TActor::Msg, TActor::Failure> {
    if cell.id is Local {
        exists|taken: Result<TActor::Msg, TActor::Failure>| #[trigger]
            call_ensures(from_boxed, (message,), taken) && match taken {
                Ok(msg) => res matches Ok(hook) && hook == MessageHook::<TActor>::Handle(msg),
                Err(error) => res matches Err(e) && e@ == ActorProcessingErrView::Raised(error),
            }
    } else {
        match message.serialized_msg {
            Some(serialized) => res matches Ok(hook) && hook == MessageHook::<
                TActor,
            >::HandleSerialized(serialized),
            None => res matches Err(e) && e@ == ActorProcessingErrView::<TActor::Failure>::Text(
                not_serialized(),
            ),
        }
    }
}

/// What follows `pre_start`.
pub open spec fn after_pre_start<TActor: Actor>(
    s: Lifecycle<TActor>,
    outcome: HookOutcome<TActor::State, TActor::Failure>,
) -> (Lifecycle<TActor>, Seq<EffectView<TActor>>) {
    match outcome {
        Ok(Ok(state)) => (
            Lifecycle { phase: Phase::PostStart, state: Some(state), ..s },
            match s.supervisor {
                Some(sup) => seq![EffectView::Link(sup)],
                None => Seq::empty(),
            }.push(EffectView::StartSucceeded(s.cell)).push(EffectView::RunPostStart),
        ),
        _ => (
            Lifecycle { phase: Phase::Failed, ..s },
            seq![
                EffectView::StartFailed(
                    SpawnErrView::StartupPanic(super::errors::hook_failure(outcome)->0),
                ),
            ],
        ),
    }
}

/// What follows `post_start`.
pub open spec fn after_post_start<TActor: Actor>(
    s: Lifecycle<TActor>,
    outcome: HookOutcome<(), TActor::Failure>,
) -> (Lifecycle<TActor>, Seq<EffectView<TActor>>) {
    match super::errors::hook_failure(outcome) {
        None => (
            Lifecycle { status: ActorStatus::Running, phase: Phase::Listen, ..s },
            seq![EffectView::SetStatus(ActorStatus::Running)].push(
                EffectView::NotifySupervisor(SupervisionEventView::ActorStarted(s.cell)),
            ).push(EffectView::Listen),
        ),
        Some(error) => ends(s, Seq::empty(), Err(ActorErrView::Panic(error))),
    }
}

/// What follows when the ports handed something out.
pub open spec fn after_listen<TActor: Actor>(s: Lifecycle<TActor>, port: PortOutcome<TActor>) -> (
    Lifecycle<TActor>,
    Seq<EffectView<TActor>>,
) {
    match port {
        Ok(ActorPortMessage::Signal(signal)) => obeys(s, signal),
        Ok(ActorPortMessage::Stop(message)) => stops(s, super::messages::stop_reason(message)),
        Ok(ActorPortMessage::Supervision(event)) => handles(
            s,
            EffectView::RunHandleSupervisorEvt(event),
        ),
        Ok(ActorPortMessage::Message(message)) => handles(
            s,
            EffectView::RunHandleMessage(message),
        ),
        Err(_) => stops(s, None),
    }
}

/// What follows a handler.
pub open spec fn after_handler<TActor: Actor>(
    s: Lifecycle<TActor>,
    outcome: HandlerOutcome<TActor>,
) -> (Lifecycle<TActor>, Seq<EffectView<TActor>>) {
    match outcome {
        Ok(Ok(())) => (Lifecycle { phase: Phase::Listen, ..s }, seq![EffectView::Listen]),
        Ok(Err(error)) => fails(s, error@),
        Err(signal) => obeys(s, signal),
    }
}

/// What follows `post_stop`.
pub open spec fn after_post_stop<TActor: Actor>(
    s: Lifecycle<TActor>,
    outcome: HookOutcome<(), TActor::Failure>,
) -> (Lifecycle<TActor>, Seq<EffectView<TActor>>) {
    match super::errors::hook_failure(outcome) {
        None => ends(s, Seq::empty(), Ok(s.exit_reason)),
        Some(error) => ends(s, Seq::empty(), Err(ActorErrView::Panic(error))),
    }
}

/// What follows an event: the next point of the actor's life and what is due then; nothing, where
/// the actor does not wait for such an event.
pub open spec fn transition<TActor: Actor>(s: Lifecycle<TActor>, event: Event<TActor>) -> Option<
    (Lifecycle<TActor>, Seq<EffectView<TActor>>),
> {
    match (s.phase, event) {
        (Phase::PreStart, Event::PreStartDone(outcome)) => Some(after_pre_start(s, outcome)),
        (Phase::PostStart, Event::PostStartDone(outcome)) => Some(after_post_start(s, outcome)),
        (Phase::Listen, Event::PortReady(port)) => Some(after_listen(s, port)),
        (Phase::Handle, Event::HandlerDone(outcome)) => Some(after_handler(s, outcome)),
        (Phase::Listen, Event::LoopPanicked(panic)) => Some(
            fails(s, ActorProcessingErrView::Text(super::errors::panic_text(panic))),
        ),
        (Phase::Handle, Event::LoopPanicked(panic)) => Some(
            fails(s, ActorProcessingErrView::Text(super::errors::panic_text(panic))),
        ),
        (Phase::PostStop, Event::PostStopDone(outcome)) => Some(after_post_stop(s, outcome)),
        _ => None,
    }
}

} // verus!
