//! Messages, stops and kills after a delay.
//!
//! 1. Send on a period
//! 2. Send after a delay
//! 3. Stop after a delay
//! 4. Kill after a delay
//!
//! Each of these is a task of its own. A task says what it wants done, one [`TimerAction`] at a
//! time, and is told how that went by a [`TimerEvent`].
pub mod laws;

use crate::actor::actor_cell::{ActorCell, ActorRef, ActorStatus, ACTIVE_STATES};
use crate::actor::errors::MessagingErr;
use crate::actor::{actor_cell, Actor};
use crate::concurrency::{Duration, NANOS_PER_MILLI};
use crate::text;
use vstd::prelude::*;

verus! {

/// What a task is told.
#[derive(Clone, Copy, Debug)]
pub enum TimerEvent {
    /// The task runs.
    Spawned,
    /// The status of the actor is known.
    Status(ActorStatus),
    /// The time is over.
    Elapsed,
    /// The message has been sent, or could not be.
    Sent(Result<(), MessagingErr>),
}

/// What a task wants done. `M` is the type of the messages.
pub enum TimerAction<M> {
    /// Look up the status of the actor.
    GetStatus(ActorCell),
    /// Let the time pass.
    Sleep(Duration),
    /// Send the message to the actor.
    SendMessage(ActorCell, M),
    /// Stop the actor, for the reason.
    Stop(ActorCell, Option<String>),
    /// Kill the actor.
    Kill(ActorCell),
    /// Nothing more: the task is done, with the outcome of the send where it is asked for.
    Finish(Result<(), MessagingErr>),
}

/// What a task waits for.
#[derive(Clone, Copy, PartialEq, Eq, Structural, Debug)]
pub enum TimerPhase {
    /// To run.
    New,
    /// For the status of the actor.
    Asking,
    /// For the time to pass.
    Sleeping,
    /// For a message to be sent.
    Sending,
    /// For nothing: it is done.
    Done,
}

/// A [`TimerAction`] of a task that sends messages, without what is the same each time.
#[verifier::ext_equal]
pub enum SendStep {
    GetStatus,
    Sleep,
    Send,
    Finish(Result<(), MessagingErr>),
}

/// What follows an event in a task that sends messages: the phase it goes to and what it wants
/// done; nothing, where the task does not wait for such an event.
///
/// A task that repeats goes on while the actor is active and takes its messages.
pub open spec fn send_step(repeats: bool, phase: TimerPhase, event: TimerEvent) -> Option<
    (TimerPhase, SendStep),
> {
    match (phase, event) {
        (TimerPhase::New, TimerEvent::Spawned) => if repeats {
            Some((TimerPhase::Asking, SendStep::GetStatus))
        } else {
            Some((TimerPhase::Sleeping, SendStep::Sleep))
        },
        (TimerPhase::Asking, TimerEvent::Status(status)) => if actor_cell::active(status) {
            Some((TimerPhase::Sleeping, SendStep::Sleep))
        } else {
            Some((TimerPhase::Done, SendStep::Finish(Ok(()))))
        },
        (TimerPhase::Sleeping, TimerEvent::Elapsed) => Some((TimerPhase::Sending, SendStep::Send)),
        (TimerPhase::Sending, TimerEvent::Sent(outcome)) => if !repeats {
            Some((TimerPhase::Done, SendStep::Finish(outcome)))
        } else if outcome is Ok {
            Some((TimerPhase::Asking, SendStep::GetStatus))
        } else {
            Some((TimerPhase::Done, SendStep::Finish(Ok(()))))
        },
        _ => None,
    }
}

/// Whether a message is due at an event: the time that the task let pass is over.
///
/// The function that makes the messages is called at no other event.
pub open spec fn message_due(phase: TimerPhase, event: TimerEvent) -> bool {
    phase is Sleeping && event is Elapsed
}

/// A task that sends messages to an actor: one after a delay, or one each period. `F` makes the
/// messages.
pub struct SendTask<F> {
    period: Duration,
    actor: ActorCell,
    msg: F,
    repeats: bool,
    phase: TimerPhase,
}

impl<F> SendTask<F> {
    /// The delay before each message.
    pub closed spec fn period(self) -> Duration {
        self.period
    }

    /// The actor that gets the messages.
    pub closed spec fn actor(self) -> ActorCell {
        self.actor
    }

    /// What makes the messages.
    pub closed spec fn msg(self) -> F {
        self.msg
    }

    /// Whether there is more than one message.
    pub closed spec fn repeats(self) -> bool {
        self.repeats
    }

    /// What the task waits for.
    pub closed spec fn phase(self) -> TimerPhase {
        self.phase
    }

    /// Whether the action is the given step, done for the actor of `self`.
    pub open spec fn is_step<M>(self, step: SendStep, action: TimerAction<M>) -> bool where
        F: Fn() -> M,
     {
        match step {
            SendStep::GetStatus => action == TimerAction::<M>::GetStatus(self.actor()),
            SendStep::Sleep => action == TimerAction::<M>::Sleep(self.period()),
            SendStep::Send => action matches TimerAction::SendMessage(cell, message) && cell
                == self.actor() && call_ensures(self.msg(), (), message),
            SendStep::Finish(outcome) => action == TimerAction::<M>::Finish(outcome),
        }
    }

    /// Says what the task wants done next, given how the last thing went. A message is made when
    /// it is to be sent, and at no other time: elsewhere its function need not be callable.
    ///
    /// Returns nothing, and leaves the task as it is, where the task does not wait for that.
    pub fn step<M>(&mut self, event: TimerEvent) -> (res: Option<TimerAction<M>>) where
        F: Fn() -> M,

        requires
            message_due(old(self).phase(), event) ==> call_requires(old(self).msg(), ()),
        ensures
            match send_step(old(self).repeats(), old(self).phase(), event) {
                Some((phase, step)) => res matches Some(action) && final(self).phase() == phase
                    && old(self).is_step(step, action),
                None => res is None && *final(self) == *old(self),
            },
            match (old(self).phase(), event) {
                (TimerPhase::New, TimerEvent::Spawned) => if old(self).repeats() {
                    final(self).phase() is Asking && res == Some(
                        TimerAction::<M>::GetStatus(old(self).actor()),
                    )
                } else {
                    final(self).phase() is Sleeping && res == Some(
                        TimerAction::<M>::Sleep(old(self).period()),
                    )
                },
                (TimerPhase::Asking, TimerEvent::Status(status)) => if status
                    == ActorStatus::Starting || status == ActorStatus::Running {
                    final(self).phase() is Sleeping && res == Some(
                        TimerAction::<M>::Sleep(old(self).period()),
                    )
                } else {
                    final(self).phase() is Done && res == Some(TimerAction::<M>::Finish(Ok(())))
                },
                (TimerPhase::Sleeping, TimerEvent::Elapsed) => final(self).phase() is Sending && (
                res matches Some(TimerAction::SendMessage(cell, message)) && cell == old(
                    self,
                ).actor() && call_ensures(old(self).msg(), (), message)),
                (TimerPhase::Sending, TimerEvent::Sent(outcome)) => if old(self).repeats()
                    && outcome is Ok {
                    final(self).phase() is Asking && res == Some(
                        TimerAction::<M>::GetStatus(old(self).actor()),
                    )
                } else {
                    final(self).phase() is Done && (res matches Some(TimerAction::Finish(result))
                        && (old(self).repeats() ==> result is Ok) && (!old(self).repeats() ==> result
                        == outcome))
                },
                _ => res is None && *final(self) == *old(self),
            },
            final(self).period() == old(self).period(),
            final(self).actor() == old(self).actor(),
            final(self).msg() == old(self).msg(),
            final(self).repeats() == old(self).repeats(),
    {
        match (self.phase, event) {
            (TimerPhase::New, TimerEvent::Spawned) => if self.repeats {
                self.phase = TimerPhase::Asking;
                Some(TimerAction::GetStatus(self.actor))
            } else {
                self.phase = TimerPhase::Sleeping;
                Some(TimerAction::Sleep(self.period))
            },
            (TimerPhase::Asking, TimerEvent::Status(status)) => if is_active(status) {
                self.phase = TimerPhase::Sleeping;
                Some(TimerAction::Sleep(self.period))
            } else {
                self.phase = TimerPhase::Done;
                Some(TimerAction::Finish(Ok(())))
            },
            (TimerPhase::Sleeping, TimerEvent::Elapsed) => {
                self.phase = TimerPhase::Sending;
                let message = (self.msg)();
                Some(TimerAction::SendMessage(self.actor, message))
            },
            (TimerPhase::Sending, TimerEvent::Sent(outcome)) => if !self.repeats {
                self.phase = TimerPhase::Done;
                Some(TimerAction::Finish(outcome))
            } else if outcome.is_ok() {
                self.phase = TimerPhase::Asking;
                Some(TimerAction::GetStatus(self.actor))
            } else {
                // the actor takes no messages any more
                self.phase = TimerPhase::Done;
                Some(TimerAction::Finish(Ok(())))
            },
            _ => None,
        }
    }
}

/// Whether the status is one of the [`ACTIVE_STATES`].
fn is_active(status: ActorStatus) -> (res: bool)
    ensures
        res == actor_cell::active(status),
{
    let mut i: usize = 0;
    while i < ACTIVE_STATES.len()
        invariant
            i <= 2,
            forall|j: int| 0 <= j < i ==> ACTIVE_STATES@[j] != status,
        decreases 2 - i,
    {
        if ACTIVE_STATES[i] == status {
            return true;
        }
        i += 1;
    }
    false
}

/// The reason for which an actor is stopped after a delay.
pub open spec fn exit_reason(period: Duration) -> Seq<char> {
    "Exit after "@ + text::decimal(period.nanoseconds() / (NANOS_PER_MILLI as nat)) + "ms"@
}

/// What a task that ends an actor wants done once the delay is over.
pub open spec fn is_ending(
    kills: bool,
    period: Duration,
    actor: ActorCell,
    action: TimerAction<()>,
) -> bool {
    if kills {
        action == TimerAction::<()>::Kill(actor)
    } else {
        action matches TimerAction::Stop(cell, Some(reason)) && cell == actor && reason@
            == exit_reason(period)
    }
}

/// A task that ends an actor after a delay.
pub struct StopTask {
    period: Duration,
    actor: ActorCell,
    kills: bool,
    phase: TimerPhase,
}

impl StopTask {
    /// The delay.
    pub closed spec fn period(self) -> Duration {
        self.period
    }

    /// The actor that is to end.
    pub closed spec fn actor(self) -> ActorCell {
        self.actor
    }

    /// Whether the actor is killed instead of stopped.
    pub closed spec fn kills(self) -> bool {
        self.kills
    }

    /// What the task waits for.
    pub closed spec fn phase(self) -> TimerPhase {
        self.phase
    }

    /// Says what the task wants done next: first to let the time pass, then to end the actor.
    ///
    /// Returns nothing, and leaves the task as it is, where the task does not wait for the event.
    pub fn step(&mut self, event: TimerEvent) -> (res: Option<TimerAction<()>>)
        ensures
            match (old(self).phase(), event) {
                (TimerPhase::New, TimerEvent::Spawned) => final(self).phase() is Sleeping && res
                    == Some(TimerAction::<()>::Sleep(old(self).period())),
                (TimerPhase::Sleeping, TimerEvent::Elapsed) => res matches Some(action)
                    && final(self).phase() is Done && is_ending(
                    old(self).kills(),
                    old(self).period(),
                    old(self).actor(),
                    action,
                ),
                _ => res is None && *final(self) == *old(self),
            },
            res matches Some(TimerAction::Kill(cell)) ==> old(self).kills() && cell == old(
                self,
            ).actor(),
            old(self).phase() is Sleeping && event is Elapsed && old(self).kills() ==> res == Some(
                TimerAction::<()>::Kill(old(self).actor()),
            ),
            old(self).phase() is Sleeping && event is Elapsed && !old(self).kills() ==> (
            res matches Some(TimerAction::Stop(cell, Some(reason))) && cell == old(self).actor()
                && reason@ == "Exit after "@ + text::decimal(
                old(self).period().nanoseconds() / 1_000_000,
            ) + "ms"@),
            final(self).period() == old(self).period(),
            final(self).actor() == old(self).actor(),
            final(self).kills() == old(self).kills(),
    {
        match (self.phase, event) {
            (TimerPhase::New, TimerEvent::Spawned) => {
                self.phase = TimerPhase::Sleeping;
                Some(TimerAction::Sleep(self.period))
            },
            (TimerPhase::Sleeping, TimerEvent::Elapsed) => {
                self.phase = TimerPhase::Done;
                if self.kills {
                    Some(TimerAction::Kill(self.actor))
                } else {
                    let mut reason = String::from_str("Exit after ");
                    reason.append(text::decimal_text(self.period.as_millis()).as_str());
                    reason.append("ms");
                    Some(TimerAction::Stop(self.actor, Some(reason)))
                }
            },
            _ => None,
        }
    }
}

/// Sends a message to an actor again and again, each time after `period`, until the actor has
/// terminated.
pub fn send_interval<M, F>(period: Duration, actor: ActorCell, msg: F) -> (res: SendTask<F>) where
    F: Fn() -> M,

    ensures
        res.period() == period,
        res.actor() == actor,
        res.msg() == msg,
        res.repeats(),
        res.phase() is New,
{
    SendTask { period, actor, msg, repeats: true, phase: TimerPhase::New }
}

/// Sends a message to an actor after `period`. The outcome of the task is that of the send.
pub fn send_after<M, F>(period: Duration, actor: ActorCell, msg: F) -> (res: SendTask<F>) where
    F: Fn() -> M,

    ensures
        res.period() == period,
        res.actor() == actor,
        res.msg() == msg,
        !res.repeats(),
        res.phase() is New,
{
    SendTask { period, actor, msg, repeats: false, phase: TimerPhase::New }
}

/// Stops an actor after `period`, with the delay in whole milliseconds as the reason.
pub fn exit_after(period: Duration, actor: ActorCell) -> (res: StopTask)
    ensures
        res.period() == period,
        res.actor() == actor,
        !res.kills(),
        res.phase() is New,
{
    StopTask { period, actor, kills: false, phase: TimerPhase::New }
}

/// Kills an actor after `period`.
pub fn kill_after(period: Duration, actor: ActorCell) -> (res: StopTask)
    ensures
        res.period() == period,
        res.actor() == actor,
        res.kills(),
        res.phase() is New,
{
    StopTask { period, actor, kills: true, phase: TimerPhase::New }
}

impl<TActor: Actor> ActorRef<TActor> {
    /// Alias of [`send_interval`].
    pub fn send_interval<F>(&self, period: Duration, msg: F) -> (res: SendTask<F>) where
        F: Fn() -> TActor::Msg,

        ensures
            res.period() == period,
            res.actor() == self.cell(),
            res.msg() == msg,
            res.repeats(),
            res.phase() is New,
    {
        send_interval(period, self.get_cell(), msg)
    }

    /// Alias of [`send_after`].
    pub fn send_after<F>(&self, period: Duration, msg: F) -> (res: SendTask<F>) where
        F: Fn() -> TActor::Msg,

        ensures
            res.period() == period,
            res.actor() == self.cell(),
            res.msg() == msg,
            !res.repeats(),
            res.phase() is New,
    {
        send_after(period, self.get_cell(), msg)
    }

    /// Alias of [`exit_after`].
    pub fn exit_after(&self, period: Duration) -> (res: StopTask)
        ensures
            res.period() == period,
            res.actor() == self.cell(),
            !res.kills(),
            res.phase() is New,
    {
        exit_after(period, self.get_cell())
    }

    /// Alias of [`kill_after`].
    pub fn kill_after(&self, period: Duration) -> (res: StopTask)
        ensures
            res.period() == period,
            res.actor() == self.cell(),
            res.kills(),
            res.phase() is New,
    {
        kill_after(period, self.get_cell())
    }
}

} // verus!
