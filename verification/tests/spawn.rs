use ractor::actor::actor_cell::{ActorCell, ActorId, ActorRef, ActorStatus};
use ractor::actor::errors::{ActorProcessingErr, SpawnErr};
use ractor::actor::lifecycle::{Effect, Event};
use ractor::actor::{Actor, ActorRuntime, Spawn};

struct Quiet(u8);

impl Actor for Quiet {
    type Msg = ();
    type State = ();
    type Arguments = &'static str;
    type BoxedMsg = ();
    type Serialized = ();
    type BoxedState = ();
    type Failure = ();

    fn pre_start(&self, _myself: ActorRef<Self>, _args: &'static str) -> Result<(), ()> {
        Ok(())
    }
}

fn local(pid: u64) -> ActorCell {
    ActorCell { id: ActorId::Local(pid) }
}

fn begins(effects: &Vec<Effect<Quiet>>, args: &str) {
    assert_eq!(effects.len(), 2);
    assert!(matches!(effects[0], Effect::SetStatus(ActorStatus::Starting)));
    assert!(matches!(effects[1], Effect::RunPreStart(a) if a == args));
}

fn links_to(runtime: &mut ActorRuntime<Quiet>) -> Option<ActorCell> {
    match runtime.step(Event::PreStartDone(Ok(Ok(())))) {
        Some(effects) => match effects[0] {
            Effect::Link(cell) => Some(cell),
            _ => None,
        },
        None => panic!("the start has begun"),
    }
}

#[test]
fn spawning_begins_the_start_at_once() {
    let made = |name: Option<String>| {
        assert_eq!(name, Some("quiet".to_string()));
        Ok(ActorRef::from_cell(local(4)))
    };
    match ActorRuntime::spawn(Some("quiet".to_string()), made, Quiet(1), "go") {
        Ok((mut runtime, effects)) => {
            begins(&effects, "go");
            assert_eq!(runtime.actor_ref().get_cell(), local(4));
            assert_eq!(runtime.actor_ref().get_id(), ActorId::Local(4));
            assert_eq!(runtime.hook_args().0 .0, 1);
            assert_eq!(links_to(&mut runtime), None);
        }
        Err(_) => panic!("the name is free"),
    }
}

#[test]
fn a_linked_actor_gets_its_supervisor_after_pre_start() {
    match ActorRuntime::spawn_linked(None, |_| Ok(ActorRef::from_cell(local(4))), Quiet(1), "go", local(8)) {
        Ok((mut runtime, effects)) => {
            begins(&effects, "go");
            assert_eq!(links_to(&mut runtime), Some(local(8)));
        }
        Err(_) => panic!("the name is free"),
    }
}

#[test]
fn an_actor_is_spawned_by_its_type() {
    let make = |_: Option<String>| Ok(ActorRef::from_cell(local(4)));
    match <Quiet as Spawn>::spawn(None, make, Quiet(1), "go") {
        Ok((mut runtime, effects)) => {
            begins(&effects, "go");
            assert_eq!(runtime.actor_ref().get_cell(), local(4));
            assert_eq!(links_to(&mut runtime), None);
        }
        Err(_) => panic!("the name is free"),
    }
    match <Quiet as Spawn>::spawn_linked(None, make, Quiet(1), "go", local(8)) {
        Ok((mut runtime, effects)) => {
            begins(&effects, "go");
            assert_eq!(links_to(&mut runtime), Some(local(8)));
        }
        Err(_) => panic!("the name is free"),
    }
}

#[test]
fn a_linked_actor_that_does_not_come_up_is_not_linked() {
    let make = |_: Option<String>| Ok(ActorRef::from_cell(local(4)));
    match ActorRuntime::spawn_linked(None, make, Quiet(1), "go", local(8)) {
        Ok((mut runtime, _)) => match runtime.step(Event::PreStartDone(Ok(Err(())))) {
            Some(effects) => {
                assert_eq!(effects.len(), 1);
                assert!(matches!(effects[0], Effect::StartFailed(SpawnErr::StartupPanic(_))));
            }
            None => panic!("the start has begun"),
        },
        Err(_) => panic!("the name is free"),
    }
}

#[test]
fn a_taken_name_is_refused() {
    fn taken(name: Option<String>) -> Result<ActorRef<Quiet>, SpawnErr<()>> {
        Err(SpawnErr::ActorAlreadyRegistered(name.unwrap()))
    }
    fn refused<T>(res: Result<T, SpawnErr<()>>) {
        match res {
            Err(SpawnErr::ActorAlreadyRegistered(name)) => assert_eq!(name, "quiet"),
            _ => panic!("the name is taken"),
        }
    }
    let name = || Some("quiet".to_string());
    refused(ActorRuntime::new(name(), taken, Quiet(1)));
    refused(ActorRuntime::spawn(name(), taken, Quiet(1), "go"));
    refused(ActorRuntime::spawn_linked(name(), taken, Quiet(1), "go", local(8)));
    refused(ActorRuntime::spawn_instant(name(), taken, Quiet(1), "go"));
    refused(ActorRuntime::spawn_linked_instant(name(), taken, Quiet(1), "go", local(8)));
}

#[test]
fn an_instant_spawn_starts_nothing_before_it_is_resumed() {
    match ActorRuntime::spawn_instant(None, |_| Ok(ActorRef::from_cell(local(4))), Quiet(1), "go") {
        Ok((handle, pending)) => {
            assert_eq!(handle.get_cell(), local(4));
            assert_eq!(pending.runtime.get_status(), ActorStatus::Unstarted);
            match pending.start() {
                Ok((mut runtime, effects)) => {
                    begins(&effects, "go");
                    assert_eq!(links_to(&mut runtime), None);
                }
                Err(_) => panic!("it has not been started"),
            }
        }
        Err(_) => panic!("the name is free"),
    }
    match ActorRuntime::spawn_linked_instant(None, |_| Ok(ActorRef::from_cell(local(4))), Quiet(1), "go", local(8)) {
        Ok((handle, mut pending)) => {
            assert_eq!(handle.get_cell(), local(4));
            assert_eq!(pending.supervisor, Some(local(8)));
            assert!(pending.runtime.start("first", None).is_ok());
            assert!(matches!(pending.start(), Err(SpawnErr::ActorAlreadyStarted)));
        }
        Err(_) => panic!("the name is free"),
    }
}

#[test]
fn a_remote_actor_needs_a_remote_identifier() {
    let id = ActorId::Remote { node_id: 1, pid: 2 };
    let make = |_name: Option<String>, id: ActorId| Ok(ActorRef::from_cell(ActorCell { id }));
    match ActorRuntime::spawn_linked_remote(None, make, Quiet(1), id, "go", local(8)) {
        Ok((mut runtime, effects)) => {
            begins(&effects, "go");
            assert!(!runtime.actor_ref().get_id().is_local());
            assert_eq!(links_to(&mut runtime), Some(local(8)));
        }
        Err(_) => panic!("the identifier is remote"),
    }
    let never = |_: Option<String>, _: ActorId| -> Result<ActorRef<Quiet>, SpawnErr<()>> {
        panic!("no cell is made")
    };
    match ActorRuntime::spawn_linked_remote(None, never, Quiet(1), ActorId::Local(2), "go", local(8)) {
        Err(SpawnErr::StartupPanic(ActorProcessingErr::Text(text))) => assert_eq!(
            text,
            "Cannot spawn a remote actor when the identifier is not remote!"
        ),
        _ => panic!("the identifier is local"),
    }
    let taken = |_: Option<String>, _: ActorId| -> Result<ActorRef<Quiet>, SpawnErr<()>> {
        Err(SpawnErr::ActorAlreadyRegistered("quiet".to_string()))
    };
    assert!(matches!(
        ActorRuntime::spawn_linked_remote(None, taken, Quiet(1), id, "go", local(8)),
        Err(SpawnErr::ActorAlreadyRegistered(_))
    ));
}
