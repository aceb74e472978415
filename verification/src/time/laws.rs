//! What holds of every task that sends messages.
use super::{SendStep, SendTask, StopTask, TimerAction, TimerEvent, TimerPhase};
use crate::actor::actor_cell;
use crate::actor::actor_cell::ActorStatus;
use crate::actor::errors::MessagingErr;
use crate::concurrency::Duration;
use crate::text;
use vstd::prelude::*;

verus! {

/// A task that sends messages takes what it waits for. One that repeats looks up the actor first and
/// after each message that was taken, and sleeps where the actor starts or runs; one that does not
/// sleeps at once. Each sends when it has slept. One that repeats is done, with no error, when the
/// actor is in any other status or did not take a message; one that does not is done with the outcome
/// of its only message.
pub proof fn law_steps_of_a_sending_task(repeats: bool, phase: TimerPhase, event: TimerEvent)
    ensures
        match (phase, event) {
            (TimerPhase::New, TimerEvent::Spawned) => if repeats {
                super::send_step(repeats, phase, event) == Some(
                    (TimerPhase::Asking, SendStep::GetStatus),
                )
            } else {
                super::send_step(repeats, phase, event) == Some(
                    (TimerPhase::Sleeping, SendStep::Sleep),
                )
            },
            (TimerPhase::Asking, TimerEvent::Status(status)) => if status == ActorStatus::Starting
                || status == ActorStatus::Running {
                super::send_step(repeats, phase, event) == Some(
                    (TimerPhase::Sleeping, SendStep::Sleep),
                )
            } else {
                super::send_step(repeats, phase, event) == Some(
                    (TimerPhase::Done, SendStep::Finish(Ok(()))),
                )
            },
            (TimerPhase::Sleeping, TimerEvent::Elapsed) => super::send_step(repeats, phase, event)
                == Some((TimerPhase::Sending, SendStep::Send)),
            (TimerPhase::Sending, TimerEvent::Sent(outcome)) => if !repeats {
                super::send_step(repeats, phase, event) == Some(
                    (TimerPhase::Done, SendStep::Finish(outcome)),
                )
            } else if outcome is Ok {
                super::send_step(repeats, phase, event) == Some(
                    (TimerPhase::Asking, SendStep::GetStatus),
                )
            } else {
                super::send_step(repeats, phase, event) == Some(
                    (TimerPhase::Done, SendStep::Finish(Ok(()))),
                )
            },
            _ => super::send_step(repeats, phase, event) is None,
        },
{
}

/// What a task that sends messages does is done for its own actor, with its own delay and with a
/// message that its own function made.
pub proof fn law_actions_of_a_sending_task<M, F>(
    task: SendTask<F>,
    step: SendStep,
    action: TimerAction<M>,
) where F: Fn() -> M
    requires
        task.is_step(step, action),
    ensures
        step is GetStatus <==> action is GetStatus,
        step is Sleep <==> action is Sleep,
        step is Send <==> action is SendMessage,
        step is Finish <==> action is Finish,
        action matches TimerAction::GetStatus(cell) ==> cell == task.actor(),
        action matches TimerAction::Sleep(time) ==> time == task.period(),
        action matches TimerAction::SendMessage(cell, message) ==> cell == task.actor()
            && call_ensures(task.msg(), (), message),
        action matches TimerAction::Finish(outcome) ==> step == SendStep::Finish(outcome),
{
}

/// A task that ends an actor kills it only if it was made to kill. One that was made to stop asks its
/// actor to stop, whatever the delay, and gives the delay in whole milliseconds as the reason.
pub proof fn law_end_of_an_actor(task: StopTask, action: TimerAction<()>)
    requires
        super::is_ending(task.kills(), task.period(), task.actor(), action),
    ensures
        action is Kill <==> task.kills(),
        action is Stop <==> !task.kills(),
        action matches TimerAction::Kill(cell) ==> cell == task.actor(),
        action matches TimerAction::Stop(cell, reason) ==> cell == task.actor() && (
        reason matches Some(text) && text@ == "Exit after "@ + text::decimal(
            task.period().nanoseconds() / 1_000_000,
        ) + "ms"@),
{
}

/// Where the events take a task that sends messages, and all that it wants done on the way;
/// nothing, where it gets an event that it does not wait for.
pub open spec fn course(repeats: bool, events: Seq<TimerEvent>) -> Option<
    (TimerPhase, Seq<SendStep>),
>
    decreases events.len(),
{
    if events.len() == 0 {
        Some((TimerPhase::New, Seq::empty()))
    } else {
        match course(repeats, events.drop_last()) {
            Some((phase, steps)) => match super::send_step(repeats, phase, events.last()) {
                Some((next, step)) => Some((next, steps.push(step))),
                None => None,
            },
            None => None,
        }
    }
}

/// Whether an event ends a task that repeats: the actor is no longer active, or does not take the
/// message.
pub open spec fn ends_interval(event: TimerEvent) -> bool {
    match event {
        TimerEvent::Status(status) => !actor_cell::active(status),
        TimerEvent::Sent(outcome) => outcome is Err,
        _ => false,
    }
}

/// Whether the last thing that a task wanted done is the one that it waits for.
spec fn last_wanted(phase: TimerPhase, steps: Seq<SendStep>) -> bool {
    match phase {
        TimerPhase::New => steps.len() == 0,
        TimerPhase::Asking => steps.len() > 0 && steps.last() is GetStatus,
        TimerPhase::Sleeping => steps.len() > 0 && steps.last() is Sleep,
        TimerPhase::Sending => steps.len() > 0 && steps.last() is Send,
        TimerPhase::Done => steps.len() > 0 && steps.last() is Finish,
    }
}

proof fn lemma_last_wanted(repeats: bool, events: Seq<TimerEvent>)
    requires
        course(repeats, events) is Some,
    ensures
        last_wanted((course(repeats, events)->0).0, (course(repeats, events)->0).1),
        (course(repeats, events)->0).1.len() == events.len(),
    decreases events.len(),
{
    if events.len() > 0 {
        lemma_last_wanted(repeats, events.drop_last());
    }
}

/// A task sleeps for its period right before each message that it sends, and a sleep that is over
/// is followed by a message.
pub proof fn law_each_send_follows_a_sleep(repeats: bool, events: Seq<TimerEvent>, i: int)
    requires
        course(repeats, events) is Some,
        0 <= i < (course(repeats, events)->0).1.len(),
    ensures
        ({
            let steps = (course(repeats, events)->0).1;
            &&& steps[i] is Send ==> i > 0 && steps[i - 1] is Sleep
            &&& steps[i] is Sleep && i + 1 < steps.len() ==> steps[i + 1] is Send
        }),
    decreases events.len(),
{
    if events.len() > 0 {
        lemma_last_wanted(repeats, events.drop_last());
        let (phase, steps) = course(repeats, events.drop_last())->0;
        if i < steps.len() {
            law_each_send_follows_a_sleep(repeats, events.drop_last(), i);
        }
    }
}

/// How often a task wanted to sleep.
pub open spec fn sleeps(steps: Seq<SendStep>) -> nat {
    steps.filter(|step: SendStep| step is Sleep).len()
}

/// How often a task wanted to send a message.
pub open spec fn sends(steps: Seq<SendStep>) -> nat {
    steps.filter(|step: SendStep| step is Send).len()
}

proof fn lemma_one_sleep_per_send(repeats: bool, events: Seq<TimerEvent>)
    requires
        course(repeats, events) is Some,
    ensures
        ({
            let (phase, steps) = course(repeats, events)->0;
            sleeps(steps) == sends(steps) + if phase is Sleeping {
                1nat
            } else {
                0
            }
        }),
    decreases events.len(),
{
    broadcast use Seq::lemma_filter_push;

    if events.len() > 0 {
        lemma_one_sleep_per_send(repeats, events.drop_last());
    } else {
        reveal(Seq::filter);
    }
}

/// The k-th message of a task is sent after k sleeps.
pub proof fn law_as_many_sleeps_as_sends(repeats: bool, events: Seq<TimerEvent>, i: int)
    requires
        course(repeats, events) is Some,
        0 <= i < (course(repeats, events)->0).1.len(),
        (course(repeats, events)->0).1[i] is Send,
    ensures
        ({
            let steps = (course(repeats, events)->0).1;
            sleeps(steps.take(i)) == sends(steps.take(i + 1))
        }),
    decreases events.len(),
{
    broadcast use Seq::lemma_filter_push;

    let before = events.drop_last();
    let (phase, steps) = course(repeats, events)->0;
    let (was, earlier) = course(repeats, before)->0;
    lemma_last_wanted(repeats, events);
    lemma_last_wanted(repeats, before);
    if i < earlier.len() {
        law_as_many_sleeps_as_sends(repeats, before, i);
        assert(steps.take(i) =~= earlier.take(i));
        assert(steps.take(i + 1) =~= earlier.take(i + 1));
    } else {
        lemma_one_sleep_per_send(repeats, before);
        assert(steps.take(i) =~= earlier);
        assert(steps.take(i + 1) =~= earlier.push(SendStep::Send));
    }
}

/// Whether the actions are what `task` wants done at the events, one action for each.
pub open spec fn acts<M, F>(
    task: SendTask<F>,
    events: Seq<TimerEvent>,
    actions: Seq<TimerAction<M>>,
) -> bool where F: Fn() -> M {
    course(task.repeats(), events) matches Some((_, steps)) && actions.len() == steps.len() && (
    forall|i: int| 0 <= i < steps.len() ==> task.is_step(steps[i], #[trigger] actions[i]))
}

/// How often the actions let the time `period` pass.
pub open spec fn waits<M>(actions: Seq<TimerAction<M>>, period: Duration) -> nat {
    actions.filter(|action: TimerAction<M>| action == TimerAction::<M>::Sleep(period)).len()
}

/// How often the actions send a message.
pub open spec fn messages<M>(actions: Seq<TimerAction<M>>) -> nat {
    actions.filter(|action: TimerAction<M>| action is SendMessage).len()
}

proof fn lemma_actions_count<M, F>(
    task: SendTask<F>,
    steps: Seq<SendStep>,
    actions: Seq<TimerAction<M>>,
    n: int,
) where F: Fn() -> M
    requires
        0 <= n <= steps.len() == actions.len(),
        forall|i: int| 0 <= i < steps.len() ==> task.is_step(steps[i], #[trigger] actions[i]),
    ensures
        waits(actions.take(n), task.period()) == sleeps(steps.take(n)),
        messages(actions.take(n)) == sends(steps.take(n)),
    decreases n,
{
    broadcast use Seq::lemma_filter_push;

    if n > 0 {
        lemma_actions_count(task, steps, actions, n - 1);
        assert(actions.take(n) =~= actions.take(n - 1).push(actions[n - 1]));
        assert(steps.take(n) =~= steps.take(n - 1).push(steps[n - 1]));
        assert(task.is_step(steps[n - 1], actions[n - 1]));
    } else {
        reveal(Seq::filter);
    }
}

/// Each message of a task goes to its actor and is one that its function made. The k-th is sent only
/// after the period has passed k times.
pub proof fn law_messages_of_a_task<M, F>(
    task: SendTask<F>,
    events: Seq<TimerEvent>,
    actions: Seq<TimerAction<M>>,
    i: int,
) where F: Fn() -> M
    requires
        acts(task, events, actions),
        0 <= i < actions.len(),
        actions[i] is SendMessage,
    ensures
        actions[i] matches TimerAction::SendMessage(cell, message) && cell == task.actor()
            && call_ensures(task.msg(), (), message),
        i > 0 && actions[i - 1] == TimerAction::<M>::Sleep(task.period()),
        waits(actions.take(i), task.period()) == messages(actions.take(i + 1)),
{
    let steps = (course(task.repeats(), events)->0).1;
    assert(task.is_step(steps[i], actions[i]));
    law_each_send_follows_a_sleep(task.repeats(), events, i);
    assert(task.is_step(steps[i - 1], actions[i - 1]));
    law_as_many_sleeps_as_sends(task.repeats(), events, i);
    lemma_actions_count(task, steps, actions, i);
    lemma_actions_count(task, steps, actions, i + 1);
}

/// The phase in which an event finds a task.
pub open spec fn phase_at(repeats: bool, events: Seq<TimerEvent>, i: int) -> TimerPhase {
    (course(repeats, events.take(i))->0).0
}

/// A message is due at an event, and its function may be called there, exactly where a message is then
/// sent; for the k-th message that is only after k sleeps.
pub proof fn law_made_only_when_due(repeats: bool, events: Seq<TimerEvent>, i: int)
    requires
        course(repeats, events) is Some,
        0 <= i < events.len(),
    ensures
        ({
            let steps = (course(repeats, events)->0).1;
            let due = super::message_due(phase_at(repeats, events, i), events[i]);
            &&& steps.len() == events.len()
            &&& course(repeats, events.take(i)) is Some
            &&& due <==> steps[i] is Send
            &&& due ==> sleeps(steps.take(i)) == sends(steps.take(i + 1))
        }),
    decreases events.len(),
{
    let before = events.drop_last();
    let steps = (course(repeats, events)->0).1;
    let earlier = (course(repeats, before)->0).1;
    lemma_last_wanted(repeats, events);
    lemma_last_wanted(repeats, before);
    if i < before.len() {
        law_made_only_when_due(repeats, before, i);
        assert(before.take(i) =~= events.take(i));
        assert(steps[i] == earlier[i]);
    } else {
        assert(events.take(i) =~= before);
    }
    if steps[i] is Send {
        law_as_many_sleeps_as_sends(repeats, events, i);
    }
}

/// A task that repeats and finds the actor not active when it first asks ends at once: it neither
/// sleeps nor sends, and at no time is a message due.
pub proof fn law_nothing_for_an_inactive_actor(events: Seq<TimerEvent>, status: ActorStatus)
    requires
        course(true, events) is Some,
        events.len() >= 2,
        events[1] == TimerEvent::Status(status),
        !actor_cell::active(status),
    ensures
        events.len() == 2,
        course(true, events) == Some(
            (
                TimerPhase::Done,
                seq![SendStep::GetStatus].push(SendStep::Finish(Ok(()))),
            ),
        ),
        forall|i: int|
            0 <= i < events.len() ==> !super::message_due(phase_at(true, events, i), #[trigger] events[i]),
{
    law_interval_ends_with_the_actor(events);
    assert(ends_interval(events[1]));
    reveal_with_fuel(course, 3);
    let steps = (course(true, events)->0).1;
    assert(steps =~= seq![SendStep::GetStatus].push(SendStep::Finish(Ok(()))));
    assert forall|i: int| 0 <= i < events.len() implies !super::message_due(
        phase_at(true, events, i),
        #[trigger] events[i],
    ) by {
        law_made_only_when_due(true, events, i);
    }
}

/// A task that repeats ends when it finds the actor no longer active, or when the actor does not
/// take a message; it ends then, and at no other time.
pub proof fn law_interval_ends_with_the_actor(events: Seq<TimerEvent>)
    requires
        course(true, events) is Some,
    ensures
        (course(true, events)->0).0 is Done <==> events.len() > 0 && ends_interval(events.last()),
        forall|k: int| 0 <= k < events.len() - 1 ==> !ends_interval(#[trigger] events[k]),
    decreases events.len(),
{
    if events.len() > 0 {
        let before = events.drop_last();
        law_interval_ends_with_the_actor(before);
        assert forall|k: int| 0 <= k < events.len() - 1 implies !ends_interval(
            #[trigger] events[k],
        ) by {
            assert(before[k] == events[k]);
        }
    }
}

/// What a task that sends one message wants done in all: to sleep, to send, and to be done with
/// the outcome of the send.
pub open spec fn one_message(outcome: Result<(), MessagingErr>) -> Seq<SendStep> {
    seq![SendStep::Sleep].push(SendStep::Send).push(SendStep::Finish(outcome))
}

/// A task that does not repeat sends one message, and its outcome is that of the send.
pub proof fn law_send_after_sends_once(events: Seq<TimerEvent>)
    requires
        course(false, events) is Some,
    ensures
        ({
            let (phase, steps) = course(false, events)->0;
            &&& events.len() <= 3
            &&& phase is Done <==> events.len() == 3
            &&& events.len() < 3 ==> steps == one_message(Ok(())).take(events.len() as int)
            &&& events.len() == 3 ==> (events[2] matches TimerEvent::Sent(outcome) && steps
                == one_message(outcome))
        }),
    decreases events.len(),
{
    if events.len() > 0 {
        law_send_after_sends_once(events.drop_last());
        let (before, earlier) = course(false, events.drop_last())->0;
        let (phase, steps) = course(false, events)->0;
        lemma_last_wanted(false, events.drop_last());
        if events.len() < 3 {
            assert(steps =~= one_message(Ok(())).take(events.len() as int));
        } else {
            assert(steps =~= one_message(events[2]->Sent_0));
        }
    } else {
        assert(one_message(Ok(())).take(0) =~= Seq::empty());
    }
}

} // verus!
