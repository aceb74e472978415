use ractor::actor::actor_cell::{ActorCell, ActorId, ActorRef, ActorStatus};
use ractor::actor::errors::MessagingErr;
use ractor::actor::Actor;
use ractor::concurrency::Duration;
use ractor::text::decimal_text;
use ractor::time::{exit_after, kill_after, send_after, send_interval, TimerAction, TimerEvent};
use std::cell::Cell;

struct Clock;

impl Actor for Clock {
    type Msg = u32;
    type State = ();
    type Arguments = ();
    type BoxedMsg = ();
    type Serialized = ();
    type BoxedState = ();
    type Failure = ();

    fn pre_start(&self, _myself: ActorRef<Self>, _args: ()) -> Result<(), ()> {
        Ok(())
    }
}

fn target() -> ActorCell {
    ActorCell { id: ActorId::Local(6) }
}

fn show(action: Option<TimerAction<u32>>) -> String {
    match action {
        None => "-".to_string(),
        Some(TimerAction::GetStatus(cell)) => format!("status {}", cell == target()),
        Some(TimerAction::Sleep(time)) => format!("sleep {}", time.as_millis()),
        Some(TimerAction::SendMessage(cell, message)) => {
            format!("send {} {}", cell == target(), message)
        }
        Some(TimerAction::Finish(outcome)) => format!("finish {:?}", outcome),
        Some(TimerAction::Stop(_, _)) | Some(TimerAction::Kill(_)) => "end".to_string(),
    }
}

fn show_end(action: Option<TimerAction<()>>) -> String {
    match action {
        None => "-".to_string(),
        Some(TimerAction::Sleep(time)) => format!("sleep {}", time.as_millis()),
        Some(TimerAction::Stop(cell, reason)) => format!("stop {} {:?}", cell == target(), reason),
        Some(TimerAction::Kill(cell)) => format!("kill {}", cell == target()),
        _ => "other".to_string(),
    }
}

#[test]
fn an_interval_sends_until_the_actor_is_gone() {
    let count = Cell::new(0);
    let next = || {
        count.set(count.get() + 1);
        count.get()
    };
    let mut task = send_interval(Duration::new(0, 50_000_000), target(), next);
    assert_eq!(show(task.step(TimerEvent::Elapsed)), "-");
    assert_eq!(show(task.step(TimerEvent::Spawned)), "status true");
    for round in 1..4 {
        assert_eq!(show(task.step(TimerEvent::Status(ActorStatus::Running))), "sleep 50");
        assert_eq!(show(task.step(TimerEvent::Elapsed)), format!("send true {}", round));
        assert_eq!(show(task.step(TimerEvent::Sent(Ok(())))), "status true");
    }
    assert_eq!(show(task.step(TimerEvent::Status(ActorStatus::Stopped))), "finish Ok(())");
    assert_eq!(show(task.step(TimerEvent::Spawned)), "-");
    assert_eq!(count.get(), 3);
}

#[test]
fn an_interval_ends_when_a_message_is_refused() {
    for error in [MessagingErr::ChannelClosed, MessagingErr::InvalidActorType] {
        let mut task = send_interval(Duration::new(1, 0), target(), || 9);
        task.step(TimerEvent::Spawned);
        assert_eq!(show(task.step(TimerEvent::Status(ActorStatus::Starting))), "sleep 1000");
        assert_eq!(show(task.step(TimerEvent::Elapsed)), "send true 9");
        assert_eq!(show(task.step(TimerEvent::Sent(Err(error)))), "finish Ok(())");
    }
}

#[test]
fn an_interval_for_an_actor_that_is_not_active_sends_nothing() {
    for status in [ActorStatus::Unstarted, ActorStatus::Stopping, ActorStatus::Stopped] {
        let never = || -> u32 { panic!("no message is made") };
        let mut task = send_interval(Duration::new(1, 0), target(), never);
        assert_eq!(show(task.step(TimerEvent::Spawned)), "status true");
        assert_eq!(show(task.step(TimerEvent::Status(status))), "finish Ok(())");
        assert_eq!(show(task.step(TimerEvent::Elapsed)), "-");
    }
}

#[test]
fn a_message_is_made_when_it_is_to_be_sent() {
    let made = Cell::new(0);
    let make = || {
        made.set(made.get() + 1);
        made.get()
    };
    let mut task = send_interval(Duration::new(1, 0), target(), make);
    let mut sent = 0;
    for event in [
        TimerEvent::Spawned,
        TimerEvent::Elapsed,
        TimerEvent::Status(ActorStatus::Running),
        TimerEvent::Status(ActorStatus::Running),
        TimerEvent::Elapsed,
        TimerEvent::Elapsed,
        TimerEvent::Sent(Ok(())),
        TimerEvent::Status(ActorStatus::Running),
        TimerEvent::Elapsed,
        TimerEvent::Sent(Err(MessagingErr::ChannelClosed)),
        TimerEvent::Elapsed,
    ] {
        if let Some(TimerAction::SendMessage(_, message)) = task.step(event) {
            sent += 1;
            assert_eq!(message, sent);
        }
        assert_eq!(made.get(), sent);
    }
    assert_eq!(sent, 2);
}

#[test]
fn a_delayed_message_is_sent_once_and_its_outcome_kept() {
    for outcome in [Ok(()), Err(MessagingErr::ChannelClosed)] {
        let mut task = send_after(Duration::new(0, 1_500_000), target(), || 3);
        assert_eq!(show(task.step(TimerEvent::Spawned)), "sleep 1");
        assert_eq!(show(task.step(TimerEvent::Elapsed)), "send true 3");
        assert_eq!(show(task.step(TimerEvent::Sent(outcome))), format!("finish {:?}", outcome));
        assert_eq!(show(task.step(TimerEvent::Elapsed)), "-");
    }
}

#[test]
fn a_delayed_stop_gives_the_delay_as_reason() {
    let mut task = exit_after(Duration::new(12, 345_678_901), target());
    assert_eq!(show_end(task.step(TimerEvent::Elapsed)), "-");
    assert_eq!(show_end(task.step(TimerEvent::Spawned)), "sleep 12345");
    assert_eq!(
        show_end(task.step(TimerEvent::Elapsed)),
        "stop true Some(\"Exit after 12345ms\")"
    );
    assert_eq!(show_end(task.step(TimerEvent::Elapsed)), "-");
    let mut task = exit_after(Duration::new(0, 999_999), target());
    task.step(TimerEvent::Spawned);
    assert_eq!(show_end(task.step(TimerEvent::Elapsed)), "stop true Some(\"Exit after 0ms\")");
}

#[test]
fn a_delayed_kill_kills() {
    let mut task = kill_after(Duration::new(0, 7_000_000), target());
    assert_eq!(show_end(task.step(TimerEvent::Spawned)), "sleep 7");
    assert_eq!(show_end(task.step(TimerEvent::Elapsed)), "kill true");
}

#[test]
fn the_methods_of_a_handle_are_aliases() {
    let handle = ActorRef::<Clock>::from_cell(target());
    let second = Duration::new(1, 0);
    let mut interval = handle.send_interval(second, || 1);
    assert_eq!(show(interval.step(TimerEvent::Spawned)), "status true");
    let mut once = handle.send_after(second, || 1);
    assert_eq!(show(once.step(TimerEvent::Spawned)), "sleep 1000");
    let mut stop = handle.exit_after(second);
    stop.step(TimerEvent::Spawned);
    assert_eq!(show_end(stop.step(TimerEvent::Elapsed)), "stop true Some(\"Exit after 1000ms\")");
    let mut kill = handle.kill_after(second);
    kill.step(TimerEvent::Spawned);
    assert_eq!(show_end(kill.step(TimerEvent::Elapsed)), "kill true");
}

#[test]
fn a_span_is_split_at_the_second_and_cut_at_the_millisecond() {
    let span = Duration::new(3, 2_999_999);
    assert_eq!(span.as_secs(), 3);
    assert_eq!(span.subsec_nanos(), 2_999_999);
    assert_eq!(span.as_millis(), 3002);
    assert_eq!(Duration::new(u64::MAX, 999_999_999).as_millis(), 18_446_744_073_709_551_615_999);
}

#[test]
fn numbers_are_written_in_decimal() {
    for n in [0, 9, 10, 99, 100, 1_234_567_890, u128::MAX] {
        assert_eq!(decimal_text(n), format!("{}", n));
    }
    assert_eq!(decimal_text(907), "907");
}
