//! Actors, and what runs them.
use super::actor_cell::{ActorCell, ActorRef, ActorStatus};
use super::errors::{
    get_panic_string, ActorErr, ActorName, ActorProcessingErr, ActorProcessingErrView, HookOutcome,
    SpawnErr,
};
use super::lifecycle::{
    Effect, EffectView, Event, HandlerOutcome, Lifecycle, MessageFor, MessageHook, OwnEvent, Phase,
    PortOutcome,
};
use super::messages::{ActorPortMessage, Signal, StopMessage, SupervisionEvent};
use super::{errors, lifecycle, messages};
use vstd::prelude::*;

verus! {

/// The behavior of an actor: the types it deals in, and its hooks.
///
/// A hook that fails ends the actor. The hooks here are those of an actor that never waits; code
/// that drives an actor may let its hooks wait, since [`ActorRuntime`] only takes what came of
/// them.
pub trait Actor: Sized {
    /// What the actor processes.
    type Msg;

    /// What the actor keeps between messages.
    type State;

    /// What the actor is started with.
    type Arguments;

    /// The form in which a message reaches the actor before it is known to be a `Msg`.
    type BoxedMsg;

    /// The form in which a message travels between processes.
    type Serialized;

    /// The last state of some other actor, as its supervisor gets to see it.
    type BoxedState;

    /// What a hook fails with.
    type Failure;

    /// Makes the initial state. If it fails or panics the actor is not started, and no supervisor
    /// hears of it.
    fn pre_start(&self, myself: ActorRef<Self>, args: Self::Arguments) -> Result<
        Self::State,
        Self::Failure,
    >;

    /// Runs once the actor has been started. Does nothing by default.
    fn post_start(&self, myself: ActorRef<Self>, state: &mut Self::State) -> (res: Result<
        (),
        Self::Failure,
    >)
        default_ensures
            res is Ok,
            *final(state) == *old(state),
    {
        Ok(())
    }

    /// Cleans up after the actor has stopped. Does not run when the actor was killed or failed.
    /// Does nothing by default.
    fn post_stop(&self, myself: ActorRef<Self>, state: &mut Self::State) -> (res: Result<
        (),
        Self::Failure,
    >)
        default_ensures
            res is Ok,
            *final(state) == *old(state),
    {
        Ok(())
    }

    /// Handles a message. Does nothing by default.
    fn handle(&self, myself: ActorRef<Self>, message: Self::Msg, state: &mut Self::State) -> (res:
        Result<(), Self::Failure>)
        default_ensures
            res is Ok,
            *final(state) == *old(state),
    {
        Ok(())
    }

    /// Handles a message on behalf of an actor of another process. Does nothing by default.
    fn handle_serialized(
        &self,
        myself: ActorRef<Self>,
        message: Self::Serialized,
        state: &mut Self::State,
    ) -> (res: Result<(), Self::Failure>)
        default_ensures
            res is Ok,
            *final(state) == *old(state),
    {
        Ok(())
    }

    /// Handles what happened to an actor that this one supervises. Ignores it by default.
    fn handle_supervisor_evt(
        &self,
        myself: ActorRef<Self>,
        message: SupervisionEvent<Self::BoxedState, Self::Failure>,
        state: &mut Self::State,
    ) -> (res: Result<(), Self::Failure>)
        default_ensures
            res is Ok,
            *final(state) == *old(state),
    {
        Ok(())
    }
}

/// What runs an actor: it says, event by event, what is to be done for it.
pub struct ActorRuntime<TActor: Actor> {
    actor_ref: ActorRef<TActor>,
    handler: TActor,
    status: ActorStatus,
    phase: Phase,
    supervisor: Option<ActorCell>,
    state: Option<TActor::State>,
    exit_reason: Option<String>,
}

impl<TActor: Actor> View for ActorRuntime<TActor> {
    type V = Lifecycle<TActor>;

    closed spec fn view(&self) -> Lifecycle<TActor> {
        Lifecycle {
            cell: self.actor_ref.cell(),
            status: self.status,
            phase: self.phase,
            supervisor: self.supervisor,
            state: self.state,
            exit_reason: messages::reason_view(self.exit_reason),
        }
    }
}

impl<TActor: Actor> ActorRuntime<TActor> {
    /// The behavior of the actor.
    pub closed spec fn handler(self) -> TActor {
        self.handler
    }

    /// What follows `pre_start`, where a panic is a failure to start.
    fn do_pre_start(outcome: HookOutcome<TActor::State, TActor::Failure>) -> (res: Result<
        Result<TActor::State, ActorProcessingErr<TActor::Failure>>,
        SpawnErr<TActor::Failure>,
    >)
        ensures
            match outcome {
                Ok(Ok(state)) => res matches Ok(Ok(s)) && s == state,
                Ok(Err(error)) => res matches Ok(Err(e)) && e@ == ActorProcessingErrView::Raised(error),
                Err(panic) => res matches Err(SpawnErr::StartupPanic(e)) && e@
                    == ActorProcessingErrView::<TActor::Failure>::Text(errors::panic_text(panic)),
            },
    {
        match outcome {
            Ok(Ok(state)) => Ok(Ok(state)),
            Ok(Err(error)) => Ok(Err(ActorProcessingErr::Raised(error))),
            Err(panic) => Err(SpawnErr::StartupPanic(get_panic_string(panic))),
        }
    }

    /// What the outcome of `post_start` means for the actor.
    fn do_post_start(outcome: HookOutcome<(), TActor::Failure>) -> (res: Result<
        (),
        ActorErr<TActor::Failure>,
    >)
        ensures
            match errors::hook_failure(outcome) {
                None => res is Ok,
                Some(error) => res matches Err(ActorErr::Panic(e)) && e@ == error,
            },
    {
        match outcome {
            Ok(Ok(())) => Ok(()),
            Ok(Err(error)) => Err(ActorErr::Panic(ActorProcessingErr::Raised(error))),
            Err(panic) => Err(ActorErr::Panic(get_panic_string(panic))),
        }
    }

    /// What the outcome of `post_stop` means for the actor.
    fn do_post_stop(outcome: HookOutcome<(), TActor::Failure>) -> (res: Result<
        (),
        ActorErr<TActor::Failure>,
    >)
        ensures
            match errors::hook_failure(outcome) {
                None => res is Ok,
                Some(error) => res matches Err(ActorErr::Panic(e)) && e@ == error,
            },
    {
        match outcome {
            Ok(Ok(())) => Ok(()),
            Ok(Err(error)) => Err(ActorErr::Panic(ActorProcessingErr::Raised(error))),
            Err(panic) => Err(ActorErr::Panic(get_panic_string(panic))),
        }
    }

    /// What the supervisor of the actor `cell` hears at its end.
    pub fn exit_event(
        cell: ActorCell,
        state: Option<TActor::State>,
        end: Result<Option<String>, ActorErr<TActor::Failure>>,
    ) -> (res: OwnEvent<TActor>)
        ensures
            res@ == lifecycle::exit_event_view::<TActor>(cell, state, lifecycle::end_view(end)),
            match end {
                Ok(reason) => res == OwnEvent::<TActor>::ActorTerminated(cell, state, reason),
                Err(ActorErr::Cancelled) => res matches SupervisionEvent::ActorTerminated(
                    c,
                    None,
                    Some(reason),
                ) && c == cell && reason@ == "killed"@,
                Err(ActorErr::Panic(error)) => res == OwnEvent::<TActor>::ActorPanicked(
                    cell,
                    error,
                ),
            },
    {
        match end {
            Ok(reason) => SupervisionEvent::ActorTerminated(cell, state, reason),
            Err(ActorErr::Cancelled) => SupervisionEvent::ActorTerminated(
                cell,
                None,
                Some(String::from_str("killed")),
            ),
            Err(ActorErr::Panic(error)) => SupervisionEvent::ActorPanicked(cell, error),
        }
    }

    /// Ends the actor, once `first` is done.
    fn finish(
        &mut self,
        first: Vec<Effect<TActor>>,
        end: Result<Option<String>, ActorErr<TActor::Failure>>,
    ) -> (res: Vec<Effect<TActor>>)
        ensures
            (final(self)@, lifecycle::effects_view(res@)) == lifecycle::ends(
                old(self)@,
                lifecycle::effects_view(first@),
                lifecycle::end_view(end),
            ),
            final(self).handler() == old(self).handler(),
    {
        let mut effects = first;
        let state = self.state.take();
        let last_words = Self::exit_event(self.actor_ref.get_cell(), state, end);
        effects.push(Effect::TerminateChildren);
        effects.push(Effect::NotifySupervisor(last_words));
        effects.push(Effect::SetStatus(ActorStatus::Stopped));
        if let Some(sup) = self.supervisor {
            effects.push(Effect::Unlink(sup));
        }
        self.status = ActorStatus::Stopped;
        self.phase = Phase::Finished;
        self.exit_reason = None;
        assert(lifecycle::effects_view(effects@) =~= lifecycle::ends(
            old(self)@,
            lifecycle::effects_view(first@),
            lifecycle::end_view(end),
        ).1);
        effects
    }

    /// Finds the hook that a message to the actor goes to: `handle` with the message itself, taken
    /// out by `from_boxed`, where the actor runs in this process, else `handle_serialized` with its
    /// serialized form.
    ///
    /// A message to an actor of another process is not taken out: `from_boxed` is not called.
    pub fn handle_message<F>(cell: ActorCell, message: MessageFor<TActor>, from_boxed: F) -> (res:
        Result<MessageHook<TActor>, ActorProcessingErr<TActor::Failure>>) where
        F: FnOnce(MessageFor<TActor>) -> Result<TActor::Msg, TActor::Failure>,

        requires
            cell.id is Local ==> call_requires(from_boxed, (message,)),
        ensures
            lifecycle::routed::<TActor, F>(cell, message, from_boxed, res),
            cell.id is Local ==> exists|taken: Result<TActor::Msg, TActor::Failure>| #[trigger]
                call_ensures(from_boxed, (message,), taken) && match taken {
                    Ok(msg) => res matches Ok(MessageHook::Handle(m)) && m == msg,
                    Err(error) => res matches Err(ActorProcessingErr::Raised(e)) && e == error,
                },
            cell.id is Remote ==> match message.serialized_msg {
                Some(serialized) => res matches Ok(MessageHook::HandleSerialized(s)) && s
                    == serialized,
                None => res matches Err(ActorProcessingErr::Text(text)) && text@
                    == "`RemoteActor` failed to read `SerializedMessage` from `BoxedMessage`"@,
            },
    {
        if !cell.id.is_local() {
            match message.serialized_msg {
                Some(serialized_msg) => Ok(MessageHook::HandleSerialized(serialized_msg)),
                None => Err(
                    ActorProcessingErr::Text(
                        String::from_str(
                            "`RemoteActor` failed to read `SerializedMessage` from `BoxedMessage`",
                        ),
                    ),
                ),
            }
        } else {
            match from_boxed(message) {
                Ok(msg) => Ok(MessageHook::Handle(msg)),
                Err(error) => Err(ActorProcessingErr::Raised(error)),
            }
        }
    }

    /// What a signal to the actor means: what is done at once, and the reason of its end.
    pub fn handle_signal(signal: Signal) -> (res: (Vec<Effect<TActor>>, Option<String>))
        ensures
            lifecycle::effects_view(res.0@) == seq![EffectView::<TActor>::TerminateChildren],
            messages::reason_view(res.1) == Some(messages::signal_text(signal)),
            res.0@.len() == 1,
            res.0@[0] is TerminateChildren,
            res.1 matches Some(reason) && reason@ == "killed"@,
    {
        let effects = match signal {
            Signal::Kill => vec![Effect::TerminateChildren],
        };
        assert(lifecycle::effects_view(effects@) =~= seq![EffectView::<TActor>::TerminateChildren]);
        (effects, Some(signal.to_string()))
    }

    /// Ends the actor because of a signal.
    fn obey(&mut self, signal: Signal) -> (res: Vec<Effect<TActor>>)
        ensures
            (final(self)@, lifecycle::effects_view(res@)) == lifecycle::obeys(old(self)@, signal),
            final(self).handler() == old(self).handler(),
    {
        let (first, reason) = Self::handle_signal(signal);
        let mut effects = first;
        effects.push(Effect::SetStatus(ActorStatus::Stopping));
        assert(lifecycle::effects_view(effects@) =~= lifecycle::effects_view(first@).push(
            EffectView::SetStatus(ActorStatus::Stopping),
        ));
        assert(lifecycle::effects_view(effects@) =~= seq![
            EffectView::<TActor>::TerminateChildren,
            EffectView::SetStatus(ActorStatus::Stopping),
        ]);
        self.finish(effects, Ok(reason))
    }

    /// Ends the actor because of a failure while it processed messages.
    fn fail(&mut self, error: ActorProcessingErr<TActor::Failure>) -> (res: Vec<Effect<TActor>>)
        ensures
            (final(self)@, lifecycle::effects_view(res@)) == lifecycle::fails(old(self)@, error@),
            final(self).handler() == old(self).handler(),
    {
        let first = vec![Effect::SetStatus(ActorStatus::Stopping)];
        assert(lifecycle::effects_view(first@) =~= seq![
            EffectView::<TActor>::SetStatus(ActorStatus::Stopping),
        ]);
        self.finish(first, Err(ActorErr::Panic(error)))
    }

    /// Takes the actor to `post_stop`.
    fn stop(&mut self, reason: Option<String>) -> (res: Vec<Effect<TActor>>)
        ensures
            (final(self)@, lifecycle::effects_view(res@)) == lifecycle::stops(
                old(self)@,
                messages::reason_view(reason),
            ),
            final(self).handler() == old(self).handler(),
    {
        self.status = ActorStatus::Stopping;
        self.phase = Phase::PostStop;
        self.exit_reason = reason;
        let effects = vec![Effect::SetStatus(ActorStatus::Stopping), Effect::RunPostStop];
        assert(lifecycle::effects_view(effects@) =~= lifecycle::stops(
            old(self)@,
            messages::reason_view(reason),
        ).1);
        effects
    }

    /// Lets a handler run.
    fn run_handler(&mut self, request: Effect<TActor>) -> (res: Vec<Effect<TActor>>)
        ensures
            (final(self)@, lifecycle::effects_view(res@)) == lifecycle::handles(
                old(self)@,
                request@,
            ),
            final(self).handler() == old(self).handler(),
    {
        self.phase = Phase::Handle;
        let effects = vec![request];
        assert(lifecycle::effects_view(effects@) =~= seq![request@]);
        effects
    }

    /// Says what follows when the ports handed something out.
    fn process_message(&mut self, port: PortOutcome<TActor>) -> (res: Vec<Effect<TActor>>)
        ensures
            (final(self)@, lifecycle::effects_view(res@)) == lifecycle::after_listen(
                old(self)@,
                port,
            ),
            final(self).handler() == old(self).handler(),
    {
        match port {
            Ok(ActorPortMessage::Signal(signal)) => self.obey(signal),
            Ok(ActorPortMessage::Stop(stop_message)) => {
                let exit_reason = match stop_message {
                    StopMessage::Stop => None,
                    StopMessage::Reason(reason) => Some(reason),
                };
                self.stop(exit_reason)
            },
            Ok(ActorPortMessage::Supervision(supervision)) => self.run_handler(
                Effect::RunHandleSupervisorEvt(supervision),
            ),
            Ok(ActorPortMessage::Message(message)) => self.run_handler(
                Effect::RunHandleMessage(message),
            ),
            // a closed port means that nobody can reach the actor any more
            Err(_) => self.stop(None),
        }
    }

    /// Says what follows a handler.
    fn after_handler(&mut self, outcome: HandlerOutcome<TActor>) -> (res: Vec<Effect<TActor>>)
        ensures
            (final(self)@, lifecycle::effects_view(res@)) == lifecycle::after_handler(
                old(self)@,
                outcome,
            ),
            final(self).handler() == old(self).handler(),
    {
        match outcome {
            Ok(Ok(())) => {
                self.phase = Phase::Listen;
                let effects = vec![Effect::Listen];
                assert(lifecycle::effects_view(effects@) =~= seq![EffectView::<TActor>::Listen]);
                effects
            },
            Ok(Err(error)) => self.fail(error),
            Err(signal) => self.obey(signal),
        }
    }

    /// Says what follows `pre_start`.
    fn after_pre_start(&mut self, outcome: HookOutcome<TActor::State, TActor::Failure>) -> (res: Vec<
        Effect<TActor>,
    >)
        ensures
            (final(self)@, lifecycle::effects_view(res@)) == lifecycle::after_pre_start(
                old(self)@,
                outcome,
            ),
            final(self).handler() == old(self).handler(),
    {
        let started = match Self::do_pre_start(outcome) {
            Ok(Ok(state)) => Ok(state),
            Ok(Err(error)) => Err(SpawnErr::StartupPanic(error)),
            Err(error) => Err(error),
        };
        let mut effects = Vec::new();
        match started {
            Ok(state) => {
                self.phase = Phase::PostStart;
                self.state = Some(state);
                if let Some(sup) = self.supervisor {
                    effects.push(Effect::Link(sup));
                }
                effects.push(Effect::StartSucceeded(self.actor_ref.get_cell()));
                effects.push(Effect::RunPostStart);
            },
            Err(error) => {
                self.phase = Phase::Failed;
                effects.push(Effect::StartFailed(error));
            },
        }
        assert(lifecycle::effects_view(effects@) =~= lifecycle::after_pre_start(
            old(self)@,
            outcome,
        ).1);
        effects
    }

    /// Says what follows `post_start`.
    fn after_post_start(&mut self, outcome: HookOutcome<(), TActor::Failure>) -> (res: Vec<
        Effect<TActor>,
    >)
        ensures
            (final(self)@, lifecycle::effects_view(res@)) == lifecycle::after_post_start(
                old(self)@,
                outcome,
            ),
            final(self).handler() == old(self).handler(),
    {
        match Self::do_post_start(outcome) {
            Ok(()) => {
                self.status = ActorStatus::Running;
                self.phase = Phase::Listen;
                let effects = vec![
                    Effect::SetStatus(ActorStatus::Running),
                    Effect::NotifySupervisor(
                        SupervisionEvent::ActorStarted(self.actor_ref.get_cell()),
                    ),
                    Effect::Listen,
                ];
                assert(lifecycle::effects_view(effects@) =~= lifecycle::after_post_start(
                    old(self)@,
                    outcome,
                ).1);
                effects
            },
            Err(error) => {
                let first = Vec::new();
                assert(lifecycle::effects_view(first@) =~= Seq::<EffectView<TActor>>::empty());
                self.finish(first, Err(error))
            },
        }
    }

    /// Says what follows `post_stop`.
    fn after_post_stop(&mut self, outcome: HookOutcome<(), TActor::Failure>) -> (res: Vec<
        Effect<TActor>,
    >)
        ensures
            (final(self)@, lifecycle::effects_view(res@)) == lifecycle::after_post_stop(
                old(self)@,
                outcome,
            ),
            final(self).handler() == old(self).handler(),
    {
        let first = Vec::new();
        assert(lifecycle::effects_view(first@) =~= Seq::<EffectView<TActor>>::empty());
        let exit_reason = self.exit_reason.take();
        match Self::do_post_stop(outcome) {
            Ok(()) => self.finish(first, Ok(exit_reason)),
            Err(error) => self.finish(first, Err(error)),
        }
    }

    /// Says what is to be done next, given how the thing that the actor waited for went.
    ///
    /// Returns nothing, and leaves the actor as it is, where the actor does not wait for that.
    pub fn step(&mut self, event: Event<TActor>) -> (res: Option<Vec<Effect<TActor>>>)
        ensures
            match lifecycle::transition(old(self)@, event) {
                Some((next, effects)) => res matches Some(fx) && final(self)@ == next
                    && lifecycle::effects_view(fx@) == effects,
                None => res is None && *final(self) == *old(self),
            },
            final(self).handler() == old(self).handler(),
    {
        match (self.phase, event) {
            (Phase::PreStart, Event::PreStartDone(outcome)) => Some(self.after_pre_start(outcome)),
            (Phase::PostStart, Event::PostStartDone(outcome)) => Some(
                self.after_post_start(outcome),
            ),
            (Phase::Listen, Event::PortReady(port)) => Some(self.process_message(port)),
            (Phase::Handle, Event::HandlerDone(outcome)) => Some(self.after_handler(outcome)),
            (Phase::Listen, Event::LoopPanicked(panic)) => Some(self.fail(get_panic_string(panic))),
            (Phase::Handle, Event::LoopPanicked(panic)) => Some(self.fail(get_panic_string(panic))),
            (Phase::PostStop, Event::PostStopDone(outcome)) => Some(self.after_post_stop(outcome)),
            _ => None,
        }
    }

    /// The handle to the actor.
    pub fn actor_ref(&self) -> (res: ActorRef<TActor>)
        ensures
            res.cell() == self@.cell,
    {
        self.actor_ref.clone()
    }

    /// The status of the actor.
    pub fn get_status(&self) -> (res: ActorStatus)
        ensures
            res == self@.status,
    {
        self.status
    }

    /// What a hook of the actor works on: its behavior and, where it has been made, its state.
    pub fn hook_args(&mut self) -> (res: (&TActor, Option<&mut TActor::State>))
        ensures
            *res.0 == old(self).handler(),
            match res.1 {
                Some(state) => old(self)@.state == Some(*state) && final(self)@ == (Lifecycle {
                    state: Some(*final(state)),
                    ..old(self)@
                }),
                None => old(self)@.state is None && final(self)@ == old(self)@,
            },
            final(self).handler() == old(self).handler(),
    {
        match &mut self.state {
            Some(state) => (&self.handler, Some(state)),
            None => (&self.handler, None),
        }
    }

    /// Begins the start of the actor, as a child of `supervisor` where one is given.
    ///
    /// An actor cannot be started twice.
    pub fn start(&mut self, startup_args: TActor::Arguments, supervisor: Option<ActorCell>) -> (res:
        Result<Vec<Effect<TActor>>, SpawnErr<TActor::Failure>>)
        ensures
            if old(self)@.status is Unstarted {
                res matches Ok(effects) && final(self)@ == lifecycle::starting(
                    old(self)@,
                    supervisor,
                ) && lifecycle::effects_view(effects@) == lifecycle::start_effects::<TActor>(
                    startup_args,
                ) && effects@ == seq![
                    Effect::<TActor>::SetStatus(ActorStatus::Starting),
                    Effect::RunPreStart(startup_args),
                ] && final(self)@.status is Starting && final(self)@.supervisor == supervisor
            } else {
                res matches Err(SpawnErr::ActorAlreadyStarted) && *final(self) == *old(self)
            },
            final(self).handler() == old(self).handler(),
    {
        // cannot start an actor more than once
        if self.status != ActorStatus::Unstarted {
            return Err(SpawnErr::ActorAlreadyStarted);
        }
        self.status = ActorStatus::Starting;
        self.phase = Phase::PreStart;
        self.supervisor = supervisor;
        let effects = vec![
            Effect::SetStatus(ActorStatus::Starting),
            Effect::RunPreStart(startup_args),
        ];
        assert(lifecycle::effects_view(effects@) =~= lifecycle::start_effects::<TActor>(
            startup_args,
        ));
        Ok(effects)
    }

    /// The actor with the given cell and behavior, not started.
    pub(super) fn of_cell(actor_ref: ActorRef<TActor>, handler: TActor) -> (res: Self)
        ensures
            res@ == lifecycle::created::<TActor>(actor_ref.cell()),
            res.handler() == handler,
    {
        ActorRuntime {
            actor_ref,
            handler,
            status: ActorStatus::Unstarted,
            phase: Phase::Created,
            supervisor: None,
            state: None,
            exit_reason: None,
        }
    }

    /// Makes an actor with the given behavior. Its cell, and with it its name, comes from
    /// `make_cell`, whose error is handed on.
    pub fn new<F>(name: Option<ActorName>, make_cell: F, handler: TActor) -> (res: Result<
        Self,
        SpawnErr<TActor::Failure>,
    >) where F: FnOnce(Option<ActorName>) -> Result<ActorRef<TActor>, SpawnErr<TActor::Failure>>
        requires
            call_requires(make_cell, (name,)),
        ensures
            exists|made: Result<ActorRef<TActor>, SpawnErr<TActor::Failure>>|
                #[trigger] call_ensures(make_cell, (name,), made) && match made {
                    Ok(actor_ref) => res matches Ok(runtime) && runtime@
                        == lifecycle::created::<TActor>(actor_ref.cell()) && runtime.handler()
                        == handler,
                    Err(error) => res matches Err(e) && e == error,
                },
    {
        match make_cell(name) {
            Ok(actor_ref) => Ok(Self::of_cell(actor_ref, handler)),
            Err(error) => Err(error),
        }
    }
}

} // verus!
