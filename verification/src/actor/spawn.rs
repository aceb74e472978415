//! The ways to spawn an actor.
use super::actor_cell::{ActorCell, ActorId, ActorRef, ActorStatus};
use super::errors::{
    ActorName, ActorProcessingErr, ActorProcessingErrView, HookOutcome, SpawnErr, SpawnErrView,
};
use super::lifecycle::{Effect, EffectView, Event};
use super::runtime::{Actor, ActorRuntime};
use super::{errors, laws, lifecycle};
use vstd::prelude::*;

verus! {

/// What becomes of the attempt to make a cell for an actor.
pub type MadeCell<TActor> = Result<ActorRef<TActor>, SpawnErr<<TActor as Actor>::Failure>>;

/// An actor whose start has begun, with what is to be done for it.
pub type Spawned<TActor> = Result<
    (ActorRuntime<TActor>, Vec<Effect<TActor>>),
    SpawnErr<<TActor as Actor>::Failure>,
>;

/// An actor that is to be started in the background.
pub struct PendingStart<TActor: Actor> {
    /// The actor.
    pub runtime: ActorRuntime<TActor>,
    /// What it is to be started with.
    pub startup_args: TActor::Arguments,
    /// Its supervisor to be.
    pub supervisor: Option<ActorCell>,
}

/// What an attempt to spawn comes to, given the attempt to make a cell: the start has begun as a
/// child of `supervisor`, or the error of the cell is handed on.
pub open spec fn begun<TActor: Actor>(
    made: MadeCell<TActor>,
    handler: TActor,
    startup_args: TActor::Arguments,
    supervisor: Option<ActorCell>,
    res: Spawned<TActor>,
) -> bool {
    match made {
        Ok(actor_ref) => res matches Ok((runtime, effects)) && runtime@ == lifecycle::starting(
            lifecycle::created::<TActor>(actor_ref.cell()),
            supervisor,
        ) && runtime.handler() == handler && lifecycle::effects_view(effects@)
            == lifecycle::start_effects::<TActor>(startup_args),
        Err(error) => res matches Err(e) && e == error,
    }
}

/// What an attempt to spawn in the background comes to, given the attempt to make a cell: a handle
/// and an actor of which nothing has been started yet, or the error of the cell.
pub open spec fn put_off<TActor: Actor>(
    made: MadeCell<TActor>,
    handler: TActor,
    startup_args: TActor::Arguments,
    supervisor: Option<ActorCell>,
    res: Result<(ActorRef<TActor>, PendingStart<TActor>), SpawnErr<TActor::Failure>>,
) -> bool {
    match made {
        Ok(actor_ref) => res matches Ok((handle, pending)) && handle.cell() == actor_ref.cell()
            && pending.runtime@ == lifecycle::created::<TActor>(actor_ref.cell())
            && pending.runtime.handler() == handler && pending.startup_args == startup_args
            && pending.supervisor == supervisor,
        Err(error) => res matches Err(e) && e == error,
    }
}

/// The failure of an attempt to spawn a remote actor under the identifier of a local one.
pub open spec fn not_remote() -> Seq<char> {
    "Cannot spawn a remote actor when the identifier is not remote!"@
}

/// What a start that was put off comes to: it has begun, unless the actor has been started before.
pub open spec fn resumed<TActor: Actor>(pending: PendingStart<TActor>, res: Spawned<TActor>) -> bool {
    if pending.runtime@.status is Unstarted {
        res matches Ok((runtime, effects)) && runtime@ == lifecycle::starting(
            pending.runtime@,
            pending.supervisor,
        ) && runtime.handler() == pending.runtime.handler() && lifecycle::effects_view(effects@)
            == lifecycle::start_effects::<TActor>(pending.startup_args)
    } else {
        res matches Err(SpawnErr::ActorAlreadyStarted)
    }
}

/// To spawn an actor in the background and then to begin its start comes to the same as to spawn it
/// at once.
pub proof fn law_put_off_and_resumed<TActor: Actor>(
    made: MadeCell<TActor>,
    handler: TActor,
    startup_args: TActor::Arguments,
    supervisor: Option<ActorCell>,
    handle: ActorRef<TActor>,
    pending: PendingStart<TActor>,
    res: Spawned<TActor>,
)
    requires
        put_off(made, handler, startup_args, supervisor, Ok((handle, pending))),
        resumed(pending, res),
    ensures
        begun(made, handler, startup_args, supervisor, res),
        res matches Ok((runtime, _)) && runtime@.cell == handle.cell(),
{
}

/// What is due once `pre_start` of an actor that was spawned is done: where it succeeded, the link
/// to the supervisor, if there is one, and then the answer that the actor is up; where it failed,
/// the answer why, and nothing else.
pub open spec fn answered<TActor: Actor>(
    cell: ActorCell,
    supervisor: Option<ActorCell>,
    outcome: HookOutcome<TActor::State, TActor::Failure>,
) -> Seq<EffectView<TActor>> {
    match errors::hook_failure(outcome) {
        None => laws::link(supervisor).push(EffectView::StartSucceeded(cell)).push(
            EffectView::RunPostStart,
        ),
        Some(error) => seq![EffectView::StartFailed(SpawnErrView::StartupPanic(error))],
    }
}

/// A spawned actor is up exactly where its cell could be made and `pre_start` succeeded. It then has
/// the supervisor that was named, and no other, and is linked to it before the answer is given.
/// Where there is no cell its error is the answer; where `pre_start` failed that failure is, and a
/// supervisor is neither linked nor told.
pub proof fn law_spawned<TActor: Actor>(
    made: MadeCell<TActor>,
    handler: TActor,
    startup_args: TActor::Arguments,
    supervisor: Option<ActorCell>,
    res: Spawned<TActor>,
    outcome: HookOutcome<TActor::State, TActor::Failure>,
)
    requires
        begun(made, handler, startup_args, supervisor, res),
    ensures
        match made {
            Err(error) => res matches Err(e) && e == error,
            Ok(actor_ref) => res matches Ok((runtime, _)) && runtime@.supervisor == supervisor && (
            lifecycle::transition(runtime@, Event::PreStartDone(outcome)) matches Some((next, effects))
                && effects == answered::<TActor>(actor_ref.cell(), supervisor, outcome)
                && next.supervisor == supervisor && (next.phase is PostStart <==> errors::hook_failure(
                outcome,
            ) is None) && (next.phase is Failed <==> errors::hook_failure(outcome) is Some)),
        },
{
}

/// What came of an attempt to spawn. With a cell the actor is that of the cell, behaves as it was
/// given, has the supervisor that was named, no state yet, and is to be given the status `Starting`
/// and then to run `pre_start` with the arguments. Without one the error of the cell is the result.
pub proof fn law_begun<TActor: Actor>(
    made: MadeCell<TActor>,
    handler: TActor,
    startup_args: TActor::Arguments,
    supervisor: Option<ActorCell>,
    res: Spawned<TActor>,
)
    requires
        begun(made, handler, startup_args, supervisor, res),
    ensures
        res is Ok <==> made is Ok,
        made matches Err(error) ==> (res matches Err(e) && e == error),
        made matches Ok(actor_ref) ==> (res matches Ok((runtime, effects)) && runtime@.cell
            == actor_ref.cell() && runtime@.status is Starting && runtime@.phase is PreStart
            && runtime@.supervisor == supervisor && runtime@.state is None
            && runtime@.exit_reason is None && runtime.handler() == handler && effects@.len() == 2
            && effects@[0] == Effect::<TActor>::SetStatus(ActorStatus::Starting) && effects@[1]
            == Effect::<TActor>::RunPreStart(startup_args)),
{
    if made is Ok {
        let effects = (res->Ok_0).1@;
        let seen = lifecycle::effects_view(effects);
        assert(seen.len() == 2);
        assert(seen[0] == effects[0]@);
        assert(seen[1] == effects[1]@);
    }
}

/// What came of an attempt to spawn in the background. With a cell there are a handle to its actor
/// and an actor that has not been started, with the arguments and the supervisor that were named.
/// Without one the error of the cell is the result.
pub proof fn law_put_off<TActor: Actor>(
    made: MadeCell<TActor>,
    handler: TActor,
    startup_args: TActor::Arguments,
    supervisor: Option<ActorCell>,
    res: Result<(ActorRef<TActor>, PendingStart<TActor>), SpawnErr<TActor::Failure>>,
)
    requires
        put_off(made, handler, startup_args, supervisor, res),
    ensures
        res is Ok <==> made is Ok,
        made matches Err(error) ==> (res matches Err(e) && e == error),
        made matches Ok(actor_ref) ==> (res matches Ok((handle, pending)) && handle.cell()
            == actor_ref.cell() && pending.runtime@.cell == actor_ref.cell()
            && pending.runtime@.status is Unstarted && pending.runtime@.phase is Created
            && pending.runtime@.supervisor is None && pending.runtime@.state is None
            && pending.runtime@.exit_reason is None && pending.runtime.handler() == handler
            && pending.startup_args == startup_args && pending.supervisor == supervisor),
{
}

/// What comes of a start that was put off: of an actor that has not been started, the start with the
/// arguments and the supervisor that were kept; of any other, that it has been started before.
pub proof fn law_resumed<TActor: Actor>(pending: PendingStart<TActor>, res: Spawned<TActor>)
    requires
        resumed(pending, res),
    ensures
        res is Ok <==> pending.runtime@.status == ActorStatus::Unstarted,
        res matches Err(e) ==> e is ActorAlreadyStarted,
        res matches Ok((runtime, effects)) ==> runtime@.cell == pending.runtime@.cell
            && runtime@.status is Starting && runtime@.phase is PreStart && runtime@.supervisor
            == pending.supervisor && runtime@.state == pending.runtime@.state
            && runtime.handler() == pending.runtime.handler() && effects@.len() == 2 && effects@[0]
            == Effect::<TActor>::SetStatus(ActorStatus::Starting) && effects@[1] == Effect::<
            TActor,
        >::RunPreStart(pending.startup_args),
{
    if res is Ok {
        let effects = (res->Ok_0).1@;
        let seen = lifecycle::effects_view(effects);
        assert(seen.len() == 2);
        assert(seen[0] == effects[0]@);
        assert(seen[1] == effects[1]@);
    }
}

impl<TActor: Actor> PendingStart<TActor> {
    /// Begins the start that was put off.
    pub fn start(self) -> (res: Spawned<TActor>)
        ensures
            resumed(self, res),
    {
        let mut runtime = self.runtime;
        match runtime.start(self.startup_args, self.supervisor) {
            Ok(effects) => Ok((runtime, effects)),
            Err(error) => Err(error),
        }
    }
}

impl<TActor: Actor> ActorRuntime<TActor> {
    /// Spawns an actor without a supervisor: makes it and begins its start.
    pub fn spawn<F>(
        name: Option<ActorName>,
        make_cell: F,
        handler: TActor,
        startup_args: TActor::Arguments,
    ) -> (res: Spawned<TActor>) where F: FnOnce(Option<ActorName>) -> MadeCell<TActor>
        requires
            call_requires(make_cell, (name,)),
        ensures
            exists|made: MadeCell<TActor>| #[trigger]
                call_ensures(make_cell, (name,), made) && begun(
                    made,
                    handler,
                    startup_args,
                    None,
                    res,
                ),
    {
        let mut runtime = match Self::new(name, make_cell, handler) {
            Ok(runtime) => runtime,
            Err(error) => return Err(error),
        };
        match runtime.start(startup_args, None) {
            Ok(effects) => Ok((runtime, effects)),
            Err(error) => Err(error),
        }
    }

    /// Spawns an actor with a supervisor: makes it and begins its start.
    pub fn spawn_linked<F>(
        name: Option<ActorName>,
        make_cell: F,
        handler: TActor,
        startup_args: TActor::Arguments,
        supervisor: ActorCell,
    ) -> (res: Spawned<TActor>) where F: FnOnce(Option<ActorName>) -> MadeCell<TActor>
        requires
            call_requires(make_cell, (name,)),
        ensures
            exists|made: MadeCell<TActor>| #[trigger]
                call_ensures(make_cell, (name,), made) && begun(
                    made,
                    handler,
                    startup_args,
                    Some(supervisor),
                    res,
                ),
    {
        let mut runtime = match Self::new(name, make_cell, handler) {
            Ok(runtime) => runtime,
            Err(error) => return Err(error),
        };
        match runtime.start(startup_args, Some(supervisor)) {
            Ok(effects) => Ok((runtime, effects)),
            Err(error) => Err(error),
        }
    }

    /// Spawns an actor without a supervisor and without waiting for its start: the handle is good
    /// at once, and what becomes of the start is known when the pending start has been seen
    /// through.
    pub fn spawn_instant<F>(
        name: Option<ActorName>,
        make_cell: F,
        handler: TActor,
        startup_args: TActor::Arguments,
    ) -> (res: Result<(ActorRef<TActor>, PendingStart<TActor>), SpawnErr<TActor::Failure>>) where
        F: FnOnce(Option<ActorName>) -> MadeCell<TActor>,

        requires
            call_requires(make_cell, (name,)),
        ensures
            exists|made: MadeCell<TActor>| #[trigger]
                call_ensures(make_cell, (name,), made) && put_off(
                    made,
                    handler,
                    startup_args,
                    None,
                    res,
                ),
    {
        match Self::new(name, make_cell, handler) {
            Ok(runtime) => {
                let actor_ref = runtime.actor_ref();
                Ok((actor_ref, PendingStart { runtime, startup_args, supervisor: None }))
            },
            Err(error) => Err(error),
        }
    }

    /// Spawns an actor with a supervisor and without waiting for its start. The supervisor is not
    /// linked before `pre_start` has succeeded.
    pub fn spawn_linked_instant<F>(
        name: Option<ActorName>,
        make_cell: F,
        handler: TActor,
        startup_args: TActor::Arguments,
        supervisor: ActorCell,
    ) -> (res: Result<(ActorRef<TActor>, PendingStart<TActor>), SpawnErr<TActor::Failure>>) where
        F: FnOnce(Option<ActorName>) -> MadeCell<TActor>,

        requires
            call_requires(make_cell, (name,)),
        ensures
            exists|made: MadeCell<TActor>| #[trigger]
                call_ensures(make_cell, (name,), made) && put_off(
                    made,
                    handler,
                    startup_args,
                    Some(supervisor),
                    res,
                ),
    {
        match Self::new(name, make_cell, handler) {
            Ok(runtime) => {
                let actor_ref = runtime.actor_ref();
                Ok((actor_ref, PendingStart { runtime, startup_args, supervisor: Some(supervisor) }))
            },
            Err(error) => Err(error),
        }
    }

    /// Spawns an actor that stands for one of another process, with a supervisor. The identifier
    /// has to be a remote one; no cell is made otherwise.
    pub fn spawn_linked_remote<F>(
        name: Option<ActorName>,
        make_cell: F,
        handler: TActor,
        id: ActorId,
        startup_args: TActor::Arguments,
        supervisor: ActorCell,
    ) -> (res: Spawned<TActor>) where F: FnOnce(Option<ActorName>, ActorId) -> MadeCell<TActor>
        requires
            id is Remote ==> call_requires(make_cell, (name, id)),
        ensures
            id is Local ==> (res matches Err(e) && e@ == SpawnErrView::<
                TActor::Failure,
            >::StartupPanic(ActorProcessingErrView::Text(not_remote()))),
            id is Local ==> (res matches Err(SpawnErr::StartupPanic(ActorProcessingErr::Text(text)))
                && text@ == "Cannot spawn a remote actor when the identifier is not remote!"@),
            id is Remote ==> exists|made: MadeCell<TActor>| #[trigger]
                call_ensures(make_cell, (name, id), made) && begun(
                    made,
                    handler,
                    startup_args,
                    Some(supervisor),
                    res,
                ),
    {
        if id.is_local() {
            Err(
                SpawnErr::StartupPanic(
                    ActorProcessingErr::Text(
                        String::from_str(
                            "Cannot spawn a remote actor when the identifier is not remote!",
                        ),
                    ),
                ),
            )
        } else {
            match make_cell(name, id) {
                Ok(actor_ref) => {
                    let mut runtime = Self::of_cell(actor_ref, handler);
                    match runtime.start(startup_args, Some(supervisor)) {
                        Ok(effects) => Ok((runtime, effects)),
                        Err(error) => Err(error),
                    }
                },
                Err(error) => Err(error),
            }
        }
    }
}

/// Short ways to spawn an actor by its type.
pub trait Spawn: Actor {
    /// Alias of [`ActorRuntime::spawn`].
    fn spawn<F>(
        name: Option<ActorName>,
        make_cell: F,
        handler: Self,
        startup_args: Self::Arguments,
    ) -> (res: Spawned<Self>) where F: FnOnce(Option<ActorName>) -> MadeCell<Self>
        requires
            call_requires(make_cell, (name,)),
        ensures
            exists|made: MadeCell<Self>| #[trigger]
                call_ensures(make_cell, (name,), made) && begun(
                    made,
                    handler,
                    startup_args,
                    None,
                    res,
                ),
    ;

    /// Alias of [`ActorRuntime::spawn_linked`].
    fn spawn_linked<F>(
        name: Option<ActorName>,
        make_cell: F,
        handler: Self,
        startup_args: Self::Arguments,
        supervisor: ActorCell,
    ) -> (res: Spawned<Self>) where F: FnOnce(Option<ActorName>) -> MadeCell<Self>
        requires
            call_requires(make_cell, (name,)),
        ensures
            exists|made: MadeCell<Self>| #[trigger]
                call_ensures(make_cell, (name,), made) && begun(
                    made,
                    handler,
                    startup_args,
                    Some(supervisor),
                    res,
                ),
    ;
}

impl<TActor: Actor> Spawn for TActor {
    fn spawn<F>(
        name: Option<ActorName>,
        make_cell: F,
        handler: Self,
        startup_args: Self::Arguments,
    ) -> (res: Spawned<Self>) where F: FnOnce(Option<ActorName>) -> MadeCell<Self> {
        ActorRuntime::<TActor>::spawn(name, make_cell, handler, startup_args)
    }

    fn spawn_linked<F>(
        name: Option<ActorName>,
        make_cell: F,
        handler: Self,
        startup_args: Self::Arguments,
        supervisor: ActorCell,
    ) -> (res: Spawned<Self>) where F: FnOnce(Option<ActorName>) -> MadeCell<Self> {
        ActorRuntime::<TActor>::spawn_linked(name, make_cell, handler, startup_args, supervisor)
    }
}

} // verus!
