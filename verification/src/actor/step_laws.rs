//! What each event does to an actor, and what is done for the actor then.
use super::actor_cell::{ActorCell, ActorStatus};
use super::errors::{
    ActorErr, ActorErrView, ActorProcessingErr, ActorProcessingErrView, HookOutcome, PanicPayload,
    SpawnErr, SpawnErrView,
};
use super::lifecycle;
use super::lifecycle::{
    Effect, EffectView, Event, Lifecycle, OwnEventView, Phase, PortOutcome,
};
use super::messages;
use super::messages::{
    ActorPortMessage, Signal, StopMessage, SupervisionEvent, SupervisionEventView,
};
use super::runtime::Actor;
use super::{actor_cell, errors};
use vstd::prelude::*;

verus! {

/// An actor takes the events that answer what it waits for, and no others. A panic is taken while it
/// listens or handles something.
pub proof fn law_events_that_are_taken<TActor: Actor>(s: Lifecycle<TActor>, event: Event<TActor>)
    ensures
        lifecycle::transition(s, event) is Some <==> match event {
            Event::PreStartDone(_) => s.phase is PreStart,
            Event::PostStartDone(_) => s.phase is PostStart,
            Event::PortReady(_) => s.phase is Listen,
            Event::HandlerDone(_) => s.phase is Handle,
            Event::LoopPanicked(_) => s.phase is Listen || s.phase is Handle,
            Event::PostStopDone(_) => s.phase is PostStop,
        },
{
}

/// An event changes neither who the actor is nor who supervises it. It touches the state only when
/// `pre_start` yields it and when the actor ends, which is when it goes.
pub proof fn law_what_events_leave_alone<TActor: Actor>(s: Lifecycle<TActor>, event: Event<TActor>)
    requires
        lifecycle::transition(s, event) is Some,
    ensures
        lifecycle::transition(s, event) matches Some((next, _)) && next.cell == s.cell
            && next.supervisor == s.supervisor && match event {
            Event::PreStartDone(Ok(Ok(state))) => next.state == Some(state),
            _ => if next.phase is Finished {
                next.state is None
            } else {
                next.state == s.state
            },
        },
{
}

/// A new actor is not started: it has no status but that, no supervisor and no state.
pub proof fn law_new_actor<TActor: Actor>(cell: ActorCell)
    ensures
        lifecycle::created::<TActor>(cell) == (Lifecycle::<TActor> {
            cell,
            status: ActorStatus::Unstarted,
            phase: Phase::Created,
            supervisor: None,
            state: None,
            exit_reason: None,
        }),
{
}

/// The start of an actor gives it the status `Starting` and the supervisor that is named, and runs
/// `pre_start` with the arguments; it does nothing else.
pub proof fn law_start_begins<TActor: Actor>(
    s: Lifecycle<TActor>,
    args: TActor::Arguments,
    supervisor: Option<ActorCell>,
)
    ensures
        lifecycle::starting(s, supervisor) == (Lifecycle::<TActor> {
            cell: s.cell,
            status: ActorStatus::Starting,
            phase: Phase::PreStart,
            supervisor,
            state: s.state,
            exit_reason: s.exit_reason,
        }),
        lifecycle::start_effects::<TActor>(args) == seq![
            EffectView::<TActor>::SetStatus(ActorStatus::Starting),
            EffectView::RunPreStart(args),
        ],
{
    assert(lifecycle::start_effects::<TActor>(args) =~= seq![
        EffectView::<TActor>::SetStatus(ActorStatus::Starting),
        EffectView::RunPreStart(args),
    ]);
}

/// When `pre_start` has yielded a state the actor keeps it, is linked to its supervisor if one was
/// named, is reported as up, and runs `post_start`, in this order; its status stays.
pub proof fn law_pre_start_succeeds<TActor: Actor>(s: Lifecycle<TActor>, state: TActor::State)
    requires
        s.phase is PreStart,
    ensures
        lifecycle::transition(s, Event::PreStartDone(Ok(Ok(state)))) matches Some((next, effects))
            && next == (Lifecycle::<TActor> {
            cell: s.cell,
            status: s.status,
            phase: Phase::PostStart,
            supervisor: s.supervisor,
            state: Some(state),
            exit_reason: s.exit_reason,
        }) && effects == match s.supervisor {
            Some(sup) => seq![
                EffectView::<TActor>::Link(sup),
                EffectView::StartSucceeded(s.cell),
                EffectView::RunPostStart,
            ],
            None => seq![EffectView::StartSucceeded(s.cell), EffectView::RunPostStart],
        },
{
    let effects = (lifecycle::transition(s, Event::PreStartDone(Ok(Ok(state))))->0).1;
    assert(effects =~= match s.supervisor {
        Some(sup) => seq![
            EffectView::<TActor>::Link(sup),
            EffectView::StartSucceeded(s.cell),
            EffectView::RunPostStart,
        ],
        None => seq![EffectView::StartSucceeded(s.cell), EffectView::RunPostStart],
    });
}

/// When `pre_start` has failed or panicked, the one thing that is done is to report the error that it
/// returned or the text of the panic; the actor stays without a state and waits for nothing.
pub proof fn law_pre_start_fails<TActor: Actor>(
    s: Lifecycle<TActor>,
    outcome: HookOutcome<TActor::State, TActor::Failure>,
)
    requires
        s.phase is PreStart,
        !(outcome matches Ok(Ok(_))),
    ensures
        lifecycle::transition(s, Event::PreStartDone(outcome)) matches Some((next, effects))
            && next == (Lifecycle::<TActor> {
            cell: s.cell,
            status: s.status,
            phase: Phase::Failed,
            supervisor: s.supervisor,
            state: s.state,
            exit_reason: s.exit_reason,
        }) && effects.len() == 1 && effects[0] == EffectView::<TActor>::StartFailed(
            SpawnErrView::StartupPanic(
                match outcome {
                    Ok(Ok(_)) => arbitrary(),
                    Ok(Err(error)) => ActorProcessingErrView::Raised(error),
                    Err(PanicPayload::Owned(text)) => ActorProcessingErrView::Text(text@),
                    Err(PanicPayload::Static(text)) => ActorProcessingErrView::Text(text@),
                    Err(PanicPayload::Other) => ActorProcessingErrView::Text(
                        "Unknown panic occurred which couldn't be coerced to a string"@,
                    ),
                },
            ),
        ),
{
}

/// When `post_start` has succeeded the actor is running, its supervisor hears that it has started,
/// and it listens, in this order.
pub proof fn law_post_start_succeeds<TActor: Actor>(s: Lifecycle<TActor>)
    requires
        s.phase is PostStart,
    ensures
        lifecycle::transition(s, Event::PostStartDone(Ok(Ok(())))) matches Some((next, effects))
            && next == (Lifecycle::<TActor> {
            cell: s.cell,
            status: ActorStatus::Running,
            phase: Phase::Listen,
            supervisor: s.supervisor,
            state: s.state,
            exit_reason: s.exit_reason,
        }) && effects == seq![
            EffectView::<TActor>::SetStatus(ActorStatus::Running),
            EffectView::NotifySupervisor(SupervisionEventView::ActorStarted(s.cell)),
            EffectView::Listen,
        ],
{
    let effects = (lifecycle::transition(s, Event::PostStartDone(Ok(Ok(()))))->0).1;
    assert(effects =~= seq![
        EffectView::<TActor>::SetStatus(ActorStatus::Running),
        EffectView::NotifySupervisor(SupervisionEventView::ActorStarted(s.cell)),
        EffectView::Listen,
    ]);
}

/// A message and a supervision event are handed to their hooks as they came, and nothing else is
/// done: not to the children, not to the supervisor, not to the status.
pub proof fn law_handling<TActor: Actor>(s: Lifecycle<TActor>, port: PortOutcome<TActor>)
    requires
        s.phase is Listen,
        port matches Ok(ActorPortMessage::Supervision(_)) || port matches Ok(
            ActorPortMessage::Message(_),
        ),
    ensures
        lifecycle::transition(s, Event::PortReady(port)) matches Some((next, effects)) && next == (
        Lifecycle::<TActor> {
            cell: s.cell,
            status: s.status,
            phase: Phase::Handle,
            supervisor: s.supervisor,
            state: s.state,
            exit_reason: s.exit_reason,
        }) && effects.len() == 1 && (port matches Ok(ActorPortMessage::Supervision(event)) ==> effects[0]
            == EffectView::<TActor>::RunHandleSupervisorEvt(event)) && (port matches Ok(
            ActorPortMessage::Message(message),
        ) ==> effects[0] == EffectView::<TActor>::RunHandleMessage(message)),
{
}

/// When a handler has succeeded the actor listens again, and nothing else is done.
pub proof fn law_handler_succeeds<TActor: Actor>(s: Lifecycle<TActor>)
    requires
        s.phase is Handle,
    ensures
        lifecycle::transition(s, Event::HandlerDone(Ok(Ok(())))) matches Some((next, effects))
            && next == (Lifecycle::<TActor> {
            cell: s.cell,
            status: s.status,
            phase: Phase::Listen,
            supervisor: s.supervisor,
            state: s.state,
            exit_reason: s.exit_reason,
        }) && effects.len() == 1 && effects[0] == EffectView::<TActor>::Listen,
{
}

/// An actor that is asked to stop, or whose ports are closed, is stopping and runs `post_stop`; its
/// state stays. It keeps the reason that was given, and none where none was.
pub proof fn law_stopping<TActor: Actor>(s: Lifecycle<TActor>, port: PortOutcome<TActor>)
    requires
        s.phase is Listen,
        port is Err || port matches Ok(ActorPortMessage::Stop(_)),
    ensures
        lifecycle::transition(s, Event::PortReady(port)) matches Some((next, effects)) && next == (
        Lifecycle::<TActor> {
            cell: s.cell,
            status: ActorStatus::Stopping,
            phase: Phase::PostStop,
            supervisor: s.supervisor,
            state: s.state,
            exit_reason: match port {
                Ok(ActorPortMessage::Stop(StopMessage::Reason(reason))) => Some(reason@),
                _ => None,
            },
        }) && effects == seq![
            EffectView::<TActor>::SetStatus(ActorStatus::Stopping),
            EffectView::RunPostStop,
        ],
{
    let effects = (lifecycle::transition(s, Event::PortReady(port))->0).1;
    assert(effects =~= seq![
        EffectView::<TActor>::SetStatus(ActorStatus::Stopping),
        EffectView::RunPostStop,
    ]);
}

/// When `post_stop` has succeeded the children of the actor end, its supervisor hears that it has
/// terminated, with its state and the reason that it kept, then it is stopped and unlinked.
pub proof fn law_post_stop_succeeds<TActor: Actor>(s: Lifecycle<TActor>)
    requires
        s.phase is PostStop,
    ensures
        lifecycle::transition(s, Event::PostStopDone(Ok(Ok(())))) matches Some((next, effects))
            && next == (Lifecycle::<TActor> {
            cell: s.cell,
            status: ActorStatus::Stopped,
            phase: Phase::Finished,
            supervisor: s.supervisor,
            state: None,
            exit_reason: None,
        }) && effects.len() == (if s.supervisor is Some {
            4nat
        } else {
            3
        }) && effects[0] == EffectView::<TActor>::TerminateChildren && effects[1] == EffectView::<
            TActor,
        >::NotifySupervisor(SupervisionEventView::ActorTerminated(s.cell, s.state, s.exit_reason))
            && effects[2] == EffectView::<TActor>::SetStatus(ActorStatus::Stopped) && (
        s.supervisor matches Some(sup) ==> effects[3] == EffectView::<TActor>::Unlink(sup)),
{
}

/// A signal, between two messages or in the middle of one, ends the actor without `post_stop`: its
/// children end, it is stopping, its supervisor hears that it was killed and gets the state, then it
/// is stopped and unlinked.
pub proof fn law_kill<TActor: Actor>(s: Lifecycle<TActor>, event: Event<TActor>)
    requires
        s.phase is Listen && event == Event::<TActor>::PortReady(
            Ok(ActorPortMessage::Signal(Signal::Kill)),
        ) || s.phase is Handle && event == Event::<TActor>::HandlerDone(Err(Signal::Kill)),
    ensures
        lifecycle::transition(s, event) matches Some((next, effects)) && next == (Lifecycle::<
            TActor,
        > {
            cell: s.cell,
            status: ActorStatus::Stopped,
            phase: Phase::Finished,
            supervisor: s.supervisor,
            state: None,
            exit_reason: None,
        }) && effects.len() == (if s.supervisor is Some {
            6nat
        } else {
            5
        }) && effects[0] == EffectView::<TActor>::TerminateChildren && effects[1] == EffectView::<
            TActor,
        >::SetStatus(ActorStatus::Stopping) && effects[2] == EffectView::<TActor>::TerminateChildren
            && effects[3] == EffectView::<TActor>::NotifySupervisor(
            SupervisionEventView::ActorTerminated(s.cell, s.state, Some("killed"@)),
        ) && effects[4] == EffectView::<TActor>::SetStatus(ActorStatus::Stopped) && (
        s.supervisor matches Some(sup) ==> effects[5] == EffectView::<TActor>::Unlink(sup)),
{
}

/// A failure of `post_start`, of a handler, or of `post_stop`, and a panic in one of them, ends the
/// actor without running another hook. Its children end, its supervisor hears the very failure, then
/// it is stopped and unlinked; while it was processing messages it is stopping first.
pub proof fn law_failure<TActor: Actor>(
    s: Lifecycle<TActor>,
    event: Event<TActor>,
    error: ActorProcessingErrView<TActor::Failure>,
)
    requires
        match event {
            Event::PostStartDone(Ok(Err(e))) => s.phase is PostStart && error
                == ActorProcessingErrView::Raised(e),
            Event::PostStopDone(Ok(Err(e))) => s.phase is PostStop && error
                == ActorProcessingErrView::Raised(e),
            Event::HandlerDone(Ok(Err(ActorProcessingErr::Raised(e)))) => s.phase is Handle && error
                == ActorProcessingErrView::Raised(e),
            Event::HandlerDone(Ok(Err(ActorProcessingErr::Text(text)))) => s.phase is Handle
                && error == ActorProcessingErrView::<TActor::Failure>::Text(text@),
            Event::PostStartDone(Err(panic)) => s.phase is PostStart && error == (match panic {
                PanicPayload::Owned(text) => ActorProcessingErrView::<TActor::Failure>::Text(text@),
                PanicPayload::Static(text) => ActorProcessingErrView::Text(text@),
                PanicPayload::Other => ActorProcessingErrView::Text(
                    "Unknown panic occurred which couldn't be coerced to a string"@,
                ),
            }),
            Event::PostStopDone(Err(panic)) => s.phase is PostStop && error == (match panic {
                PanicPayload::Owned(text) => ActorProcessingErrView::<TActor::Failure>::Text(text@),
                PanicPayload::Static(text) => ActorProcessingErrView::Text(text@),
                PanicPayload::Other => ActorProcessingErrView::Text(
                    "Unknown panic occurred which couldn't be coerced to a string"@,
                ),
            }),
            Event::LoopPanicked(panic) => (s.phase is Listen || s.phase is Handle) && error == (match panic {
                PanicPayload::Owned(text) => ActorProcessingErrView::<TActor::Failure>::Text(text@),
                PanicPayload::Static(text) => ActorProcessingErrView::Text(text@),
                PanicPayload::Other => ActorProcessingErrView::Text(
                    "Unknown panic occurred which couldn't be coerced to a string"@,
                ),
            }),
            _ => false,
        },
    ensures
        lifecycle::transition(s, event) matches Some((next, effects)) && next == (Lifecycle::<
            TActor,
        > {
            cell: s.cell,
            status: ActorStatus::Stopped,
            phase: Phase::Finished,
            supervisor: s.supervisor,
            state: None,
            exit_reason: None,
        }) && ({
            let first: int = if s.phase is Listen || s.phase is Handle {
                1
            } else {
                0
            };
            &&& effects.len() == first + if s.supervisor is Some {
                4int
            } else {
                3
            }
            &&& first == 1 ==> effects[0] == EffectView::<TActor>::SetStatus(ActorStatus::Stopping)
            &&& effects[first] == EffectView::<TActor>::TerminateChildren
            &&& effects[first + 1] == EffectView::<TActor>::NotifySupervisor(
                SupervisionEventView::ActorPanicked(s.cell, error),
            )
            &&& effects[first + 2] == EffectView::<TActor>::SetStatus(ActorStatus::Stopped)
            &&& s.supervisor matches Some(sup) ==> effects[first + 3] == EffectView::<
                TActor,
            >::Unlink(sup)
        }),
{
}

/// The children of an actor are terminated when it ends, and never before: not by what it handles,
/// not while it starts, not while `post_stop` runs.
pub proof fn law_children_outlive_each_step<TActor: Actor>(
    s: Lifecycle<TActor>,
    event: Event<TActor>,
)
    requires
        lifecycle::transition(s, event) is Some,
    ensures
        lifecycle::transition(s, event) matches Some((next, effects)) && (
        effects.contains(EffectView::<TActor>::TerminateChildren) <==> next.phase is Finished),
{
    let (next, effects) = lifecycle::transition(s, event)->0;
    if next.phase is Finished {
        let at = effects.len() - if s.supervisor is Some {
            4int
        } else {
            3
        };
        assert(effects[at] == EffectView::<TActor>::TerminateChildren);
    }
}

/// The end of an actor: its children, its supervisor, its status, its link, in this order.
pub proof fn law_closing<TActor: Actor>(
    supervisor: Option<ActorCell>,
    last_words: OwnEventView<TActor>,
)
    ensures
        ({
            let end = lifecycle::closing::<TActor>(supervisor, last_words);
            &&& end.len() == if supervisor is Some {
                4nat
            } else {
                3
            }
            &&& end[0] == EffectView::<TActor>::TerminateChildren
            &&& end[1] == EffectView::<TActor>::NotifySupervisor(last_words)
            &&& end[2] == EffectView::<TActor>::SetStatus(ActorStatus::Stopped)
            &&& supervisor matches Some(sup) ==> end[3] == EffectView::<TActor>::Unlink(sup)
        }),
{
}

/// The last event of an actor tells, of an orderly end, its state and the reason as they are; of a
/// cancelled one, that it was killed, without its state; of a failure, the failure as it is.
pub proof fn law_last_event<TActor: Actor>(
    cell: ActorCell,
    state: Option<TActor::State>,
    end: Result<Option<String>, ActorErr<TActor::Failure>>,
)
    ensures
        ({
            let told = lifecycle::exit_event_view::<TActor>(cell, state, lifecycle::end_view(end));
            match end {
                Ok(None) => told == SupervisionEventView::<
                    TActor::State,
                    TActor::Failure,
                >::ActorTerminated(cell, state, None),
                Ok(Some(reason)) => told == SupervisionEventView::<
                    TActor::State,
                    TActor::Failure,
                >::ActorTerminated(cell, state, Some(reason@)),
                Err(ActorErr::Cancelled) => told == SupervisionEventView::<
                    TActor::State,
                    TActor::Failure,
                >::ActorTerminated(cell, None, Some("killed"@)),
                Err(ActorErr::Panic(ActorProcessingErr::Text(text))) => told
                    == SupervisionEventView::<TActor::State, TActor::Failure>::ActorPanicked(
                    cell,
                    ActorProcessingErrView::Text(text@),
                ),
                Err(ActorErr::Panic(ActorProcessingErr::Raised(error))) => told
                    == SupervisionEventView::<TActor::State, TActor::Failure>::ActorPanicked(
                    cell,
                    ActorProcessingErrView::Raised(error),
                ),
            }
        }),
{
}

/// The model of the effects loses nothing: there are as many, in the same order, of the same kind and
/// with the same contents; only texts are taken as their characters.
pub proof fn law_effects_are_seen_as_they_are<TActor: Actor>(effects: Seq<Effect<TActor>>, i: int)
    requires
        0 <= i < effects.len(),
    ensures
        lifecycle::effects_view(effects).len() == effects.len(),
        ({
            let seen = lifecycle::effects_view(effects)[i];
            match effects[i] {
                Effect::SetStatus(status) => seen == EffectView::<TActor>::SetStatus(status),
                Effect::Link(cell) => seen == EffectView::<TActor>::Link(cell),
                Effect::Unlink(cell) => seen == EffectView::<TActor>::Unlink(cell),
                Effect::TerminateChildren => seen is TerminateChildren,
                Effect::NotifySupervisor(event) => seen matches EffectView::NotifySupervisor(e) && (
                match event {
                    SupervisionEvent::ActorStarted(cell) => e == SupervisionEventView::<
                        TActor::State,
                        TActor::Failure,
                    >::ActorStarted(cell),
                    SupervisionEvent::ActorTerminated(cell, state, reason) => e matches
                        SupervisionEventView::ActorTerminated(c, s, r) && c == cell && s == state && (
                    r is Some <==> reason is Some) && (reason matches Some(text) ==> r == Some(
                        text@,
                    )),
                    SupervisionEvent::ActorPanicked(cell, error) => e matches
                        SupervisionEventView::ActorPanicked(c, v) && c == cell && (error matches
                        ActorProcessingErr::Text(text) ==> v == ActorProcessingErrView::<
                        TActor::Failure,
                    >::Text(text@)) && (error matches ActorProcessingErr::Raised(x) ==> v
                        == ActorProcessingErrView::Raised(x)),
                }),
                Effect::StartSucceeded(cell) => seen == EffectView::<TActor>::StartSucceeded(cell),
                Effect::StartFailed(error) => seen matches EffectView::StartFailed(v) && (match error {
                    SpawnErr::StartupPanic(ActorProcessingErr::Text(text)) => v == SpawnErrView::<
                        TActor::Failure,
                    >::StartupPanic(ActorProcessingErrView::Text(text@)),
                    SpawnErr::StartupPanic(ActorProcessingErr::Raised(x)) => v
                        == SpawnErrView::StartupPanic(ActorProcessingErrView::Raised(x)),
                    SpawnErr::ActorAlreadyStarted => v is ActorAlreadyStarted,
                    SpawnErr::ActorAlreadyRegistered(name) => v == SpawnErrView::<
                        TActor::Failure,
                    >::ActorAlreadyRegistered(name@),
                }),
                Effect::RunPreStart(args) => seen == EffectView::<TActor>::RunPreStart(args),
                Effect::RunPostStart => seen is RunPostStart,
                Effect::Listen => seen is Listen,
                Effect::RunHandleMessage(message) => seen == EffectView::<TActor>::RunHandleMessage(
                    message,
                ),
                Effect::RunHandleSupervisorEvt(event) => seen == EffectView::<
                    TActor,
                >::RunHandleSupervisorEvt(event),
                Effect::RunPostStop => seen is RunPostStop,
            }
        }),
{
}

/// A panic is known by its text, and by a fixed one where it has none.
pub proof fn law_panic_text(panic: PanicPayload)
    ensures
        match panic {
            PanicPayload::Owned(text) => errors::panic_text(panic) == text@,
            PanicPayload::Static(text) => errors::panic_text(panic) == text@,
            PanicPayload::Other => errors::panic_text(panic)
                == "Unknown panic occurred which couldn't be coerced to a string"@,
        },
{
}

/// A hook fails exactly where it returned an error or panicked: with that error, or with the text of
/// the panic.
pub proof fn law_hook_failure<T, E>(outcome: HookOutcome<T, E>)
    ensures
        match outcome {
            Ok(Ok(_)) => errors::hook_failure(outcome) is None,
            Ok(Err(error)) => errors::hook_failure(outcome) == Some(
                ActorProcessingErrView::Raised(error),
            ),
            Err(PanicPayload::Owned(text)) => errors::hook_failure(outcome) == Some(
                ActorProcessingErrView::<E>::Text(text@),
            ),
            Err(PanicPayload::Static(text)) => errors::hook_failure(outcome) == Some(
                ActorProcessingErrView::<E>::Text(text@),
            ),
            Err(PanicPayload::Other) => errors::hook_failure(outcome) == Some(
                ActorProcessingErrView::<E>::Text(
                    "Unknown panic occurred which couldn't be coerced to a string"@,
                ),
            ),
        },
{
}

/// Failures and reasons are seen as they are, with their texts as characters.
pub proof fn law_failures_and_reasons_are_seen_as_they_are<E>(
    error: ActorProcessingErr<E>,
    end: ActorErr<E>,
    spawn: SpawnErr<E>,
    reason: Option<String>,
    stop: StopMessage,
    signal: Signal,
)
    ensures
        match error {
            ActorProcessingErr::Text(text) => error@ == ActorProcessingErrView::<E>::Text(text@),
            ActorProcessingErr::Raised(e) => error@ == ActorProcessingErrView::Raised(e),
        },
        match end {
            ActorErr::Cancelled => end@ is Cancelled,
            ActorErr::Panic(ActorProcessingErr::Text(text)) => end@ == ActorErrView::<E>::Panic(
                ActorProcessingErrView::Text(text@),
            ),
            ActorErr::Panic(ActorProcessingErr::Raised(e)) => end@ == ActorErrView::Panic(
                ActorProcessingErrView::Raised(e),
            ),
        },
        match spawn {
            SpawnErr::StartupPanic(ActorProcessingErr::Text(text)) => spawn@ == SpawnErrView::<
                E,
            >::StartupPanic(ActorProcessingErrView::Text(text@)),
            SpawnErr::StartupPanic(ActorProcessingErr::Raised(e)) => spawn@
                == SpawnErrView::StartupPanic(ActorProcessingErrView::Raised(e)),
            SpawnErr::ActorAlreadyStarted => spawn@ is ActorAlreadyStarted,
            SpawnErr::ActorAlreadyRegistered(name) => spawn@ == SpawnErrView::<
                E,
            >::ActorAlreadyRegistered(name@),
        },
        match reason {
            Some(text) => messages::reason_view(reason) == Some(text@),
            None => messages::reason_view(reason) is None,
        },
        match stop {
            StopMessage::Stop => messages::stop_reason(stop) is None,
            StopMessage::Reason(text) => messages::stop_reason(stop) == Some(text@),
        },
        messages::signal_text(signal) == "killed"@,
{
}

/// An actor takes messages exactly while it starts and while it runs.
pub proof fn law_active_statuses(status: ActorStatus)
    ensures
        actor_cell::active(status) <==> (status == ActorStatus::Starting || status
            == ActorStatus::Running),
        actor_cell::ACTIVE_STATES@.contains(status) <==> (status == ActorStatus::Starting || status
            == ActorStatus::Running),
{
    assert(actor_cell::ACTIVE_STATES@[0] == ActorStatus::Starting);
    assert(actor_cell::ACTIVE_STATES@[1] == ActorStatus::Running);
}

} // verus!
