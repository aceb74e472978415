use ractor::actor::actor_cell::{ActorCell, ActorId, ActorRef, ActorStatus};
use ractor::actor::errors::{
    get_panic_string, ActorErr, ActorProcessingErr, MessagingErr, PanicPayload, SpawnErr,
};
use ractor::actor::lifecycle::{Effect, Event, MessageHook};
use ractor::actor::messages::{
    ActorPortMessage, BoxedMessage, Signal, StopMessage, SupervisionEvent,
};
use ractor::actor::{Actor, ActorRuntime};

struct Adder;

impl Actor for Adder {
    type Msg = u32;
    type State = u32;
    type Arguments = u32;
    type BoxedMsg = &'static str;
    type Serialized = Vec<u8>;
    type BoxedState = String;
    type Failure = String;

    fn pre_start(&self, _myself: ActorRef<Self>, args: u32) -> Result<u32, String> {
        if args == 0 {
            Err("nothing to start with".to_string())
        } else {
            Ok(args)
        }
    }

    fn handle(
        &self,
        _myself: ActorRef<Self>,
        message: u32,
        state: &mut u32,
    ) -> Result<(), String> {
        *state += message;
        Ok(())
    }
}

fn cell(pid: u64) -> ActorCell {
    ActorCell { id: ActorId::Local(pid) }
}

fn remote() -> ActorCell {
    ActorCell { id: ActorId::Remote { node_id: 3, pid: 9 } }
}

fn error_text(error: &ActorProcessingErr<String>) -> String {
    match error {
        ActorProcessingErr::Text(text) => format!("text:{}", text),
        ActorProcessingErr::Raised(error) => format!("raised:{}", error),
    }
}

fn spawn_text(error: &SpawnErr<String>) -> String {
    match error {
        SpawnErr::StartupPanic(error) => format!("panic({})", error_text(error)),
        SpawnErr::ActorAlreadyStarted => "already started".to_string(),
        SpawnErr::ActorAlreadyRegistered(name) => format!("taken:{}", name),
    }
}

fn id_text(cell: &ActorCell) -> String {
    match cell.get_id() {
        ActorId::Local(pid) => format!("{}", pid),
        ActorId::Remote { node_id, pid } => format!("{}.{}", node_id, pid),
    }
}

fn told(event: &SupervisionEvent<u32, String>) -> String {
    match event {
        SupervisionEvent::ActorStarted(cell) => format!("started({})", id_text(cell)),
        SupervisionEvent::ActorTerminated(cell, state, reason) => {
            format!("terminated({}, {:?}, {:?})", id_text(cell), state, reason)
        }
        SupervisionEvent::ActorPanicked(cell, error) => {
            format!("panicked({}, {})", id_text(cell), error_text(error))
        }
    }
}

fn show(effect: &Effect<Adder>) -> String {
    match effect {
        Effect::SetStatus(status) => format!("{:?}", status),
        Effect::Link(cell) => format!("link({})", id_text(cell)),
        Effect::Unlink(cell) => format!("unlink({})", id_text(cell)),
        Effect::TerminateChildren => "terminate".to_string(),
        Effect::NotifySupervisor(event) => told(event),
        Effect::StartSucceeded(cell) => format!("up({})", id_text(cell)),
        Effect::StartFailed(error) => format!("down({})", spawn_text(error)),
        Effect::RunPreStart(args) => format!("pre_start({})", args),
        Effect::RunPostStart => "post_start".to_string(),
        Effect::Listen => "listen".to_string(),
        Effect::RunHandleMessage(message) => format!("message({:?})", message.msg),
        Effect::RunHandleSupervisorEvt(event) => match event {
            SupervisionEvent::ActorTerminated(_, state, _) => format!("child({:?})", state),
            _ => "child".to_string(),
        },
        Effect::RunPostStop => "post_stop".to_string(),
    }
}

fn shown(effects: &Vec<Effect<Adder>>) -> Vec<String> {
    effects.iter().map(show).collect()
}

fn step(runtime: &mut ActorRuntime<Adder>, event: Event<Adder>) -> Vec<String> {
    shown(&runtime.step(event).expect("the actor waits for this"))
}

fn started(cell: ActorCell, supervisor: Option<ActorCell>) -> ActorRuntime<Adder> {
    let mut runtime = match ActorRuntime::new(None, |_| Ok(ActorRef::from_cell(cell)), Adder) {
        Ok(runtime) => runtime,
        Err(_) => panic!("the cell was made"),
    };
    match runtime.start(7, supervisor) {
        Ok(effects) => assert_eq!(shown(&effects), vec!["Starting", "pre_start(7)"]),
        Err(_) => panic!("a new actor starts"),
    }
    runtime
}

fn running(cell: ActorCell, supervisor: Option<ActorCell>) -> ActorRuntime<Adder> {
    let mut runtime = started(cell, supervisor);
    step(&mut runtime, Event::PreStartDone(Ok(Ok(7))));
    step(&mut runtime, Event::PostStartDone(Ok(Ok(()))));
    assert_eq!(runtime.get_status(), ActorStatus::Running);
    runtime
}

fn message(text: &'static str) -> Event<Adder> {
    Event::PortReady(Ok(ActorPortMessage::Message(BoxedMessage {
        msg: Some(text),
        serialized_msg: None,
    })))
}

fn from_boxed(message: BoxedMessage<&'static str, Vec<u8>>) -> Result<u32, String> {
    let text = message.msg.ok_or("nothing".to_string())?;
    text.parse().map_err(|_| format!("no number: {}", text))
}

fn hook(cell: ActorCell, message: BoxedMessage<&'static str, Vec<u8>>) -> String {
    match ActorRuntime::<Adder>::handle_message(cell, message, from_boxed) {
        Ok(MessageHook::Handle(value)) => format!("handle({})", value),
        Ok(MessageHook::HandleSerialized(bytes)) => format!("handle_serialized({:?})", bytes),
        Err(error) => error_text(&error),
    }
}

#[test]
fn a_supervised_actor_lives_from_start_to_stop() {
    let mut runtime = started(cell(1), Some(cell(2)));
    assert_eq!(
        step(&mut runtime, Event::PreStartDone(Ok(Ok(7)))),
        vec!["link(2)", "up(1)", "post_start"]
    );
    assert_eq!(
        step(&mut runtime, Event::PostStartDone(Ok(Ok(())))),
        vec!["Running", "started(1)", "listen"]
    );
    assert_eq!(step(&mut runtime, message("5")), vec!["message(Some(\"5\"))"]);
    {
        let myself = runtime.actor_ref();
        let (handler, state) = runtime.hook_args();
        handler.handle(myself, 5, state.expect("there is a state")).expect("it adds");
    }
    assert_eq!(step(&mut runtime, Event::HandlerDone(Ok(Ok(())))), vec!["listen"]);
    assert_eq!(
        step(
            &mut runtime,
            Event::PortReady(Ok(ActorPortMessage::Stop(StopMessage::Reason("enough".to_string()))))
        ),
        vec!["Stopping", "post_stop"]
    );
    assert_eq!(
        step(&mut runtime, Event::PostStopDone(Ok(Ok(())))),
        vec!["terminate", "terminated(1, Some(12), Some(\"enough\"))", "Stopped", "unlink(2)"]
    );
    assert_eq!(runtime.get_status(), ActorStatus::Stopped);
    assert!(runtime.hook_args().1.is_none());
    assert!(runtime.step(message("1")).is_none());
}

#[test]
fn an_actor_without_a_supervisor_is_not_linked() {
    let mut runtime = started(cell(1), None);
    assert_eq!(
        step(&mut runtime, Event::PreStartDone(Ok(Ok(7)))),
        vec!["up(1)", "post_start"]
    );
    step(&mut runtime, Event::PostStartDone(Ok(Ok(()))));
    step(&mut runtime, Event::PortReady(Ok(ActorPortMessage::Stop(StopMessage::Stop))));
    assert_eq!(
        step(&mut runtime, Event::PostStopDone(Ok(Ok(())))),
        vec!["terminate", "terminated(1, Some(7), None)", "Stopped"]
    );
}

#[test]
fn an_actor_cannot_be_started_twice() {
    let mut runtime = started(cell(1), None);
    match runtime.start(8, None) {
        Err(SpawnErr::ActorAlreadyStarted) => {}
        _ => panic!("it has been started"),
    }
    assert_eq!(runtime.get_status(), ActorStatus::Starting);
    let mut runtime = running(cell(1), None);
    step(&mut runtime, Event::PortReady(Ok(ActorPortMessage::Signal(Signal::Kill))));
    match runtime.start(8, None) {
        Err(SpawnErr::ActorAlreadyStarted) => {}
        _ => panic!("it has ended"),
    }
}

#[test]
fn a_failing_pre_start_is_told_to_the_caller_only() {
    let mut runtime = started(cell(1), Some(cell(2)));
    assert_eq!(
        step(&mut runtime, Event::PreStartDone(Ok(Err("no".to_string())))),
        vec!["down(panic(raised:no))"]
    );
    assert_eq!(runtime.get_status(), ActorStatus::Starting);
    assert!(runtime.step(Event::PostStartDone(Ok(Ok(())))).is_none());

    let mut runtime = started(cell(1), Some(cell(2)));
    assert_eq!(
        step(&mut runtime, Event::PreStartDone(Err(PanicPayload::Static("boom")))),
        vec!["down(panic(text:boom))"]
    );
}

#[test]
fn a_failing_post_start_is_told_to_the_supervisor() {
    let mut runtime = started(cell(1), Some(cell(2)));
    step(&mut runtime, Event::PreStartDone(Ok(Ok(7))));
    assert_eq!(
        step(&mut runtime, Event::PostStartDone(Err(PanicPayload::Owned("boom".to_string())))),
        vec!["terminate", "panicked(1, text:boom)", "Stopped", "unlink(2)"]
    );

    let mut runtime = started(cell(1), None);
    step(&mut runtime, Event::PreStartDone(Ok(Ok(7))));
    assert_eq!(
        step(&mut runtime, Event::PostStartDone(Ok(Err("no".to_string())))),
        vec!["terminate", "panicked(1, raised:no)", "Stopped"]
    );
}

#[test]
fn a_killed_actor_does_not_run_post_stop() {
    let expected = vec![
        "terminate",
        "Stopping",
        "terminate",
        "terminated(1, Some(7), Some(\"killed\"))",
        "Stopped",
        "unlink(2)",
    ];
    let mut runtime = running(cell(1), Some(cell(2)));
    assert_eq!(
        step(&mut runtime, Event::PortReady(Ok(ActorPortMessage::Signal(Signal::Kill)))),
        expected
    );
    let mut runtime = running(cell(1), Some(cell(2)));
    step(&mut runtime, message("5"));
    assert_eq!(step(&mut runtime, Event::HandlerDone(Err(Signal::Kill))), expected);
    assert!(runtime.step(Event::PostStopDone(Ok(Ok(())))).is_none());
}

#[test]
fn a_failing_handler_ends_the_actor_without_post_stop() {
    let mut runtime = running(cell(1), Some(cell(2)));
    step(&mut runtime, message("5"));
    assert_eq!(
        step(&mut runtime, Event::HandlerDone(Ok(Err(ActorProcessingErr::Raised("no".to_string()))))),
        vec!["Stopping", "terminate", "panicked(1, raised:no)", "Stopped", "unlink(2)"]
    );
    let mut runtime = running(cell(1), None);
    step(&mut runtime, message("5"));
    assert_eq!(
        step(&mut runtime, Event::LoopPanicked(PanicPayload::Other)),
        vec![
            "Stopping",
            "terminate",
            "panicked(1, text:Unknown panic occurred which couldn't be coerced to a string)",
            "Stopped"
        ]
    );
    let mut runtime = running(cell(1), None);
    assert_eq!(
        step(&mut runtime, Event::LoopPanicked(PanicPayload::Static("ports"))),
        vec!["Stopping", "terminate", "panicked(1, text:ports)", "Stopped"]
    );
}

#[test]
fn a_failing_post_stop_is_told_to_the_supervisor() {
    let mut runtime = running(cell(1), None);
    step(&mut runtime, Event::PortReady(Ok(ActorPortMessage::Stop(StopMessage::Stop))));
    assert_eq!(
        step(&mut runtime, Event::PostStopDone(Ok(Err("no".to_string())))),
        vec!["terminate", "panicked(1, raised:no)", "Stopped"]
    );
}

#[test]
fn closed_ports_stop_the_actor() {
    for error in [MessagingErr::ChannelClosed, MessagingErr::InvalidActorType] {
        let mut runtime = running(cell(1), None);
        assert_eq!(
            step(&mut runtime, Event::PortReady(Err(error))),
            vec!["Stopping", "post_stop"]
        );
        assert_eq!(
            step(&mut runtime, Event::PostStopDone(Ok(Ok(())))),
            vec!["terminate", "terminated(1, Some(7), None)", "Stopped"]
        );
    }
}

#[test]
fn supervision_events_are_handled_like_messages() {
    let mut runtime = running(cell(1), None);
    let event = SupervisionEvent::ActorTerminated(cell(5), Some("last".to_string()), None);
    assert_eq!(
        step(&mut runtime, Event::PortReady(Ok(ActorPortMessage::Supervision(event)))),
        vec!["child(Some(\"last\"))"]
    );
    assert_eq!(step(&mut runtime, Event::HandlerDone(Ok(Ok(())))), vec!["listen"]);
}

#[test]
fn messages_are_routed_by_where_the_actor_is() {
    let boxed = |msg, serialized_msg| BoxedMessage { msg, serialized_msg };
    assert_eq!(hook(cell(1), boxed(Some("5"), Some(vec![1, 2]))), "handle(5)");
    assert_eq!(hook(cell(1), boxed(Some("five"), Some(vec![1]))), "raised:no number: five");
    assert_eq!(hook(cell(1), boxed(None, Some(vec![1]))), "raised:nothing");
    assert_eq!(hook(remote(), boxed(Some("5"), Some(vec![1, 2]))), "handle_serialized([1, 2])");
    assert_eq!(
        hook(remote(), boxed(Some("5"), None)),
        "text:`RemoteActor` failed to read `SerializedMessage` from `BoxedMessage`"
    );
}

#[test]
fn a_message_to_a_remote_actor_is_not_taken_out() {
    for serialized_msg in [Some(vec![4]), None] {
        let found = serialized_msg.is_some();
        let message = BoxedMessage { msg: Some("5"), serialized_msg };
        let hook = ActorRuntime::<Adder>::handle_message(remote(), message, |_| {
            panic!("the message is left as it is")
        });
        assert_eq!(hook.is_ok(), found);
    }
}

#[test]
fn a_message_without_a_hook_ends_the_actor_unless_a_signal_comes_first() {
    let unserialized = || {
        let message = BoxedMessage { msg: Some("5"), serialized_msg: None };
        match ActorRuntime::<Adder>::handle_message(remote(), message, from_boxed) {
            Err(error) => error,
            Ok(_) => panic!("the message is not serialized"),
        }
    };
    let mut runtime = running(remote(), None);
    assert_eq!(step(&mut runtime, message("5")), vec!["message(Some(\"5\"))"]);
    assert_eq!(
        step(&mut runtime, Event::HandlerDone(Ok(Err(unserialized())))),
        vec![
            "Stopping",
            "terminate",
            "panicked(3.9, text:`RemoteActor` failed to read `SerializedMessage` from `BoxedMessage`)",
            "Stopped"
        ]
    );
    let mut runtime = running(remote(), None);
    step(&mut runtime, message("5"));
    assert_eq!(
        step(&mut runtime, Event::HandlerDone(Err(Signal::Kill))),
        vec![
            "terminate",
            "Stopping",
            "terminate",
            "terminated(3.9, Some(7), Some(\"killed\"))",
            "Stopped"
        ]
    );
}

#[test]
fn an_unexpected_event_changes_nothing() {
    let mut runtime = started(cell(1), None);
    assert!(runtime.step(message("5")).is_none());
    assert!(runtime.step(Event::HandlerDone(Ok(Ok(())))).is_none());
    assert!(runtime.step(Event::LoopPanicked(PanicPayload::Other)).is_none());
    assert!(runtime.step(Event::PostStopDone(Ok(Ok(())))).is_none());
    assert_eq!(runtime.get_status(), ActorStatus::Starting);
    assert_eq!(
        step(&mut runtime, Event::PreStartDone(Ok(Ok(7)))),
        vec!["up(1)", "post_start"]
    );
}

#[test]
fn messages_are_handled_in_their_order() {
    let mut runtime = running(cell(1), None);
    for value in ["3", "1", "2"] {
        assert_eq!(step(&mut runtime, message(value)), vec![format!("message(Some({:?}))", value)]);
        assert_eq!(step(&mut runtime, Event::HandlerDone(Ok(Ok(())))), vec!["listen"]);
    }
}

#[test]
fn a_signal_terminates_children_and_gives_its_name_as_reason() {
    let (effects, reason) = ActorRuntime::<Adder>::handle_signal(Signal::Kill);
    assert_eq!(shown(&effects), vec!["terminate"]);
    assert_eq!(reason, Some("killed".to_string()));
    assert_eq!(Signal::Kill.to_string(), "killed");
}

#[test]
fn the_last_event_tells_how_the_processing_ended() {
    let orderly = ActorRuntime::<Adder>::exit_event(cell(1), Some(4), Ok(Some("why".to_string())));
    assert_eq!(told(&orderly), "terminated(1, Some(4), Some(\"why\"))");
    let cancelled = ActorRuntime::<Adder>::exit_event(cell(1), Some(4), Err(ActorErr::Cancelled));
    assert_eq!(told(&cancelled), "terminated(1, None, Some(\"killed\"))");
    let failed = ActorRuntime::<Adder>::exit_event(
        cell(1),
        Some(4),
        Err(ActorErr::Panic(ActorProcessingErr::Raised("no".to_string()))),
    );
    assert_eq!(told(&failed), "panicked(1, raised:no)");
}

#[test]
fn a_panic_is_known_by_its_text() {
    let text = |payload| error_text(&get_panic_string::<String>(payload));
    assert_eq!(text(PanicPayload::Owned("made".to_string())), "text:made");
    assert_eq!(text(PanicPayload::Static("fixed")), "text:fixed");
    assert_eq!(
        text(PanicPayload::Other),
        "text:Unknown panic occurred which couldn't be coerced to a string"
    );
}

#[test]
fn hooks_do_nothing_by_default() {
    let mut state = 4;
    let myself = || ActorRef::<Adder>::from_cell(cell(1));
    assert_eq!(Adder.post_start(myself(), &mut state), Ok(()));
    assert_eq!(Adder.post_stop(myself(), &mut state), Ok(()));
    assert_eq!(Adder.handle_serialized(myself(), vec![1], &mut state), Ok(()));
    let event = SupervisionEvent::ActorStarted(cell(2));
    assert_eq!(Adder.handle_supervisor_evt(myself(), event, &mut state), Ok(()));
    assert_eq!(state, 4);
    assert_eq!(Adder.pre_start(myself(), 0), Err("nothing to start with".to_string()));
}
