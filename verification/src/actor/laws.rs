//! What holds of every life of an actor.
use super::actor_cell::{ActorCell, ActorStatus};
use super::errors;
use super::errors::{ActorProcessingErr, ActorProcessingErrView, SpawnErrView};
use super::lifecycle;
use super::lifecycle::{
    EffectView, Event, HandlerOutcome, Lifecycle, MessageFor, MessageHook, OwnEventView, Phase,
};
use super::messages;
use super::messages::{ActorPortMessage, Signal, SupervisionEventView};
use super::runtime::Actor;
use vstd::prelude::*;

verus! {

/// A moment of a life: an event, and the state in which the hooks left the actor until then,
/// where they changed it.
pub struct Moment<TActor: Actor> {
    pub left: Option<TActor::State>,
    pub event: Event<TActor>,
}

/// An actor whose hooks have changed its state, where it has one.
pub open spec fn touched<TActor: Actor>(s: Lifecycle<TActor>, left: Option<TActor::State>) -> Lifecycle<
    TActor,
> {
    if s.state is Some && left is Some {
        Lifecycle { state: left, ..s }
    } else {
        s
    }
}

/// What follows a moment.
pub open spec fn happens<TActor: Actor>(s: Lifecycle<TActor>, moment: Moment<TActor>) -> Option<
    (Lifecycle<TActor>, Seq<EffectView<TActor>>),
> {
    lifecycle::transition(touched(s, moment.left), moment.event)
}

/// Where the moments take an actor from the point `s` of its life, and all that is due on the way;
/// nothing, where there is an event that it does not wait for.
pub open spec fn life<TActor: Actor>(s: Lifecycle<TActor>, moments: Seq<Moment<TActor>>) -> Option<
    (Lifecycle<TActor>, Seq<EffectView<TActor>>),
>
    decreases moments.len(),
{
    if moments.len() == 0 {
        Some((s, Seq::empty()))
    } else {
        match life(s, moments.drop_last()) {
            Some((now, effects)) => match happens(now, moments.last()) {
                Some((next, more)) => Some((next, effects + more)),
                None => None,
            },
            None => None,
        }
    }
}

/// A life from its start on: that of the actor `cell`, started with `args` as a child of
/// `supervisor`.
#[verifier::opaque]
pub open spec fn whole_life<TActor: Actor>(
    cell: ActorCell,
    args: TActor::Arguments,
    supervisor: Option<ActorCell>,
    moments: Seq<Moment<TActor>>,
) -> Option<(Lifecycle<TActor>, Seq<EffectView<TActor>>)> {
    match life(lifecycle::starting(lifecycle::created::<TActor>(cell), supervisor), moments) {
        Some((s, effects)) => Some((s, lifecycle::start_effects::<TActor>(args) + effects)),
        None => None,
    }
}

/// Whether a life is over: nothing can happen in it any more.
pub open spec fn over(phase: Phase) -> bool {
    phase is Failed || phase is Finished
}

/// Whether an actor in the phase has a state of its own.
pub open spec fn has_state(phase: Phase) -> bool {
    phase is PostStart || phase is Listen || phase is Handle || phase is PostStop
}

/// Whether an actor can go from one phase to the other at one event.
pub open spec fn moves(from: Phase, to: Phase) -> bool {
    match from {
        Phase::Created => false,
        Phase::PreStart => to is PostStart || to is Failed,
        Phase::PostStart => to is Listen || to is Finished,
        Phase::Listen => to is Handle || to is PostStop || to is Finished,
        Phase::Handle => to is Listen || to is Finished,
        Phase::PostStop => to is Finished,
        Phase::Failed | Phase::Finished => false,
    }
}

/// Whether an event says that `post_start` succeeded.
pub open spec fn comes_up<TActor: Actor>(event: Event<TActor>) -> bool {
    event matches Event::PostStartDone(outcome) && errors::hook_failure(outcome) is None
}

/// Whether an event asks an actor to stop, or tells that its ports are closed.
pub open spec fn asks_to_stop<TActor: Actor>(event: Event<TActor>) -> bool {
    event matches Event::PortReady(port) && (port matches Ok(ActorPortMessage::Stop(_)) || port is Err)
}

/// Whether `post_start` succeeded in one of the moments.
pub open spec fn came_up<TActor: Actor>(moments: Seq<Moment<TActor>>) -> bool {
    exists|k: int| 0 <= k < moments.len() && comes_up(#[trigger] moments[k].event)
}

/// Whether the actor was asked to stop in one of the moments.
pub open spec fn asked_to_stop<TActor: Actor>(moments: Seq<Moment<TActor>>) -> bool {
    exists|k: int| 0 <= k < moments.len() && asks_to_stop(#[trigger] moments[k].event)
}

proof fn lemma_last_moment<TActor: Actor>(moments: Seq<Moment<TActor>>)
    requires
        moments.len() > 0,
    ensures
        came_up(moments) <==> came_up(moments.drop_last()) || comes_up(moments.last().event),
        asked_to_stop(moments) <==> asked_to_stop(moments.drop_last()) || asks_to_stop(
            moments.last().event,
        ),
{
    let before = moments.drop_last();
    assert forall|k: int| 0 <= k < before.len() implies before[k] == #[trigger] moments[k] by {}
    assert(moments.last() == moments[moments.len() - 1]);
    if came_up(before) {
        let k = choose|k: int| 0 <= k < before.len() && comes_up(#[trigger] before[k].event);
        assert(comes_up(moments[k].event));
    }
    if came_up(moments) && !comes_up(moments.last().event) {
        let k = choose|k: int| 0 <= k < moments.len() && comes_up(#[trigger] moments[k].event);
        assert(comes_up(before[k].event));
    }
    if asked_to_stop(before) {
        let k = choose|k: int| 0 <= k < before.len() && asks_to_stop(#[trigger] before[k].event);
        assert(asks_to_stop(moments[k].event));
    }
    if asked_to_stop(moments) && !asks_to_stop(moments.last().event) {
        let k = choose|k: int| 0 <= k < moments.len() && asks_to_stop(#[trigger] moments[k].event);
        assert(asks_to_stop(before[k].event));
    }
}

/// A life before its first moment.
proof fn lemma_whole_life_start<TActor: Actor>(
    cell: ActorCell,
    args: TActor::Arguments,
    supervisor: Option<ActorCell>,
    moments: Seq<Moment<TActor>>,
)
    requires
        moments.len() == 0,
    ensures
        whole_life(cell, args, supervisor, moments) == Some(
            (
                lifecycle::starting(lifecycle::created::<TActor>(cell), supervisor),
                lifecycle::start_effects::<TActor>(args),
            ),
        ),
{
    reveal(whole_life);
    assert(lifecycle::start_effects::<TActor>(args) + Seq::empty()
        =~= lifecycle::start_effects::<TActor>(args));
}

/// A life, split at its last moment.
proof fn lemma_whole_life_step<TActor: Actor>(
    cell: ActorCell,
    args: TActor::Arguments,
    supervisor: Option<ActorCell>,
    moments: Seq<Moment<TActor>>,
)
    requires
        whole_life(cell, args, supervisor, moments) is Some,
        moments.len() > 0,
    ensures
        whole_life(cell, args, supervisor, moments.drop_last()) is Some,
        ({
            let (now, effects) = whole_life(cell, args, supervisor, moments.drop_last())->0;
            let (next, all) = whole_life(cell, args, supervisor, moments)->0;
            &&& happens(now, moments.last()) is Some
            &&& next == (happens(now, moments.last())->0).0
            &&& all == effects + (happens(now, moments.last())->0).1
        }),
{
    reveal(whole_life);
    let first = lifecycle::starting(lifecycle::created::<TActor>(cell), supervisor);
    let (now, effects) = life(first, moments.drop_last())->0;
    let (next, more) = happens(now, moments.last())->0;
    assert(lifecycle::start_effects::<TActor>(args) + (effects + more) =~= (
    lifecycle::start_effects::<TActor>(args) + effects) + more);
}

/// A life goes on as [`happens`] says: with what follows its next moment.
pub proof fn law_life_goes_on<TActor: Actor>(
    cell: ActorCell,
    args: TActor::Arguments,
    supervisor: Option<ActorCell>,
    moments: Seq<Moment<TActor>>,
    moment: Moment<TActor>,
)
    requires
        whole_life(cell, args, supervisor, moments) is Some,
    ensures
        ({
            let (now, effects) = whole_life(cell, args, supervisor, moments)->0;
            whole_life(cell, args, supervisor, moments.push(moment)) == match happens(now, moment) {
                Some((next, more)) => Some((next, effects + more)),
                None => None,
            }
        }),
{
    reveal(whole_life);
    let all = moments.push(moment);
    assert(all.drop_last() =~= moments);
    let first = lifecycle::starting(lifecycle::created::<TActor>(cell), supervisor);
    let (now, effects) = life(first, moments)->0;
    if happens(now, moment) is Some {
        let more = (happens(now, moment)->0).1;
        assert(lifecycle::start_effects::<TActor>(args) + (effects + more) =~= (
        lifecycle::start_effects::<TActor>(args) + effects) + more);
    }
}

/// At every point of its life an actor is the same, has the supervisor that it was started with,
/// and has a state of its own exactly between `pre_start` and its end. It has come up exactly when
/// it processes messages or did so before it stopped, and runs `post_stop` only when it was asked
/// to stop. It can never again be started.
pub proof fn law_phases<TActor: Actor>(
    cell: ActorCell,
    args: TActor::Arguments,
    supervisor: Option<ActorCell>,
    moments: Seq<Moment<TActor>>,
)
    requires
        whole_life(cell, args, supervisor, moments) is Some,
    ensures
        ({
            let s = (whole_life(cell, args, supervisor, moments)->0).0;
            &&& s.cell == cell
            &&& s.supervisor == supervisor
            &&& s.state is Some <==> has_state(s.phase)
            &&& match s.phase {
                Phase::Created => false,
                Phase::PreStart | Phase::PostStart | Phase::Failed => s.status is Starting
                    && !came_up(moments) && !asked_to_stop(moments),
                Phase::Listen | Phase::Handle => s.status is Running && came_up(moments)
                    && !asked_to_stop(moments),
                Phase::PostStop => s.status is Stopping && came_up(moments) && asked_to_stop(
                    moments,
                ),
                Phase::Finished => s.status is Stopped,
            }
        }),
    decreases moments.len(),
{
    if moments.len() > 0 {
        lemma_whole_life_step(cell, args, supervisor, moments);
        law_phases(cell, args, supervisor, moments.drop_last());
        lemma_last_moment(moments);
    } else {
        lemma_whole_life_start(cell, args, supervisor, moments);
    }
}

/// A life that is over takes no event.
pub proof fn law_over_is_over<TActor: Actor>(s: Lifecycle<TActor>, moment: Moment<TActor>)
    requires
        over(s.phase),
    ensures
        happens(s, moment) is None,
{
}

broadcast proof fn lemma_filter_empty<A>(keep: spec_fn(A) -> bool)
    ensures
        #[trigger] Seq::<A>::empty().filter(keep) == Seq::<A>::empty(),
{
    reveal(Seq::filter);
}

/// What is selected from sequences that are put together.
broadcast group group_filter {
    lemma_filter_empty,
    Seq::lemma_filter_push,
    Seq::filter_distributes_over_add,
}

/// What the last moment adds to a selection from the effects of a life.
///
/// `added` is what is selected from the effects of that moment alone.
proof fn lemma_selection_step<TActor: Actor>(
    cell: ActorCell,
    args: TActor::Arguments,
    supervisor: Option<ActorCell>,
    moments: Seq<Moment<TActor>>,
    keep: spec_fn(EffectView<TActor>) -> bool,
) -> (added: Seq<EffectView<TActor>>)
    requires
        whole_life(cell, args, supervisor, moments) is Some,
        moments.len() > 0,
    ensures
        whole_life(cell, args, supervisor, moments.drop_last()) is Some,
        ({
            let (now, effects) = whole_life(cell, args, supervisor, moments.drop_last())->0;
            let (next, all) = whole_life(cell, args, supervisor, moments)->0;
            &&& moves(now.phase, next.phase)
            &&& all.filter(keep) == effects.filter(keep) + added
            &&& happens(now, moments.last()) is Some
            &&& added == (happens(now, moments.last())->0).1.filter(keep)
            &&& next.phase is Finished ==> came_up(moments) == came_up(moments.drop_last())
                && asked_to_stop(moments) == asked_to_stop(moments.drop_last())
        }),
{
    lemma_whole_life_step(cell, args, supervisor, moments);
    lemma_last_moment(moments);
    let (now, effects) = whole_life(cell, args, supervisor, moments.drop_last())->0;
    let (next, more) = happens(now, moments.last())->0;
    Seq::filter_distributes_over_add(effects, more, keep);
    more.filter(keep)
}

/// Whether an effect gives the actor a status.
pub open spec fn sets_status<TActor: Actor>() -> spec_fn(EffectView<TActor>) -> bool {
    |e: EffectView<TActor>| e is SetStatus
}

/// The statuses that an actor has been given by the time it is in a phase. One that has ended may
/// never have been running.
pub open spec fn statuses<TActor: Actor>(phase: Phase, ran: bool) -> Seq<EffectView<TActor>> {
    let starting = seq![EffectView::SetStatus(ActorStatus::Starting)];
    let running = starting.push(EffectView::SetStatus(ActorStatus::Running));
    let stopping = running.push(EffectView::SetStatus(ActorStatus::Stopping));
    match phase {
        Phase::Created => Seq::empty(),
        Phase::PreStart | Phase::PostStart | Phase::Failed => starting,
        Phase::Listen | Phase::Handle => running,
        Phase::PostStop => stopping,
        Phase::Finished => if ran {
            stopping.push(EffectView::SetStatus(ActorStatus::Stopped))
        } else {
            starting.push(EffectView::SetStatus(ActorStatus::Stopped))
        },
    }
}

/// The statuses that are given between two phases.
spec fn statuses_between<TActor: Actor>(from: Phase, to: Phase) -> Seq<EffectView<TActor>> {
    match (from, to) {
        (Phase::PostStart, Phase::Listen) => seq![EffectView::SetStatus(ActorStatus::Running)],
        (Phase::Listen, Phase::PostStop) => seq![EffectView::SetStatus(ActorStatus::Stopping)],
        (Phase::PostStart, Phase::Finished) => seq![EffectView::SetStatus(ActorStatus::Stopped)],
        (Phase::PostStop, Phase::Finished) => seq![EffectView::SetStatus(ActorStatus::Stopped)],
        (_, Phase::Finished) => seq![EffectView::SetStatus(ActorStatus::Stopping)].push(
            EffectView::SetStatus(ActorStatus::Stopped),
        ),
        _ => Seq::empty(),
    }
}

proof fn lemma_statuses_between<TActor: Actor>(s: Lifecycle<TActor>, moment: Moment<TActor>)
    requires
        happens(s, moment) is Some,
    ensures
        (happens(s, moment)->0).1.filter(sets_status()) == statuses_between::<TActor>(
            s.phase,
            (happens(s, moment)->0).0.phase,
        ),
{
    broadcast use group_filter;

    let (next, more) = happens(s, moment)->0;
    assert(more.filter(sets_status()) =~= statuses_between::<TActor>(s.phase, next.phase));
}

proof fn lemma_statuses_step<TActor: Actor>(
    cell: ActorCell,
    args: TActor::Arguments,
    supervisor: Option<ActorCell>,
    moments: Seq<Moment<TActor>>,
)
    requires
        whole_life(cell, args, supervisor, moments) is Some,
        moments.len() > 0,
    ensures
        whole_life(cell, args, supervisor, moments.drop_last()) is Some,
        ({
            let (now, effects) = whole_life(cell, args, supervisor, moments.drop_last())->0;
            let (next, all) = whole_life(cell, args, supervisor, moments)->0;
            &&& moves(now.phase, next.phase)
            &&& all.filter(sets_status()) == effects.filter(sets_status()) + statuses_between(
                now.phase,
                next.phase,
            )
            &&& next.phase is Finished ==> came_up(moments) == came_up(moments.drop_last())
        }),
{
    lemma_whole_life_step(cell, args, supervisor, moments);
    let added = lemma_selection_step(cell, args, supervisor, moments, sets_status());
    lemma_statuses_between(
        (whole_life(cell, args, supervisor, moments.drop_last())->0).0,
        moments.last(),
    );
}

/// The statuses of an actor are given in one order: starting, running, stopping, stopped. None is
/// given twice; only an actor whose `post_start` failed goes from starting to stopped. The status
/// of the actor is the one given last.
pub proof fn law_statuses_in_order<TActor: Actor>(
    cell: ActorCell,
    args: TActor::Arguments,
    supervisor: Option<ActorCell>,
    moments: Seq<Moment<TActor>>,
)
    requires
        whole_life(cell, args, supervisor, moments) is Some,
    ensures
        ({
            let (s, effects) = whole_life(cell, args, supervisor, moments)->0;
            let given = effects.filter(sets_status());
            &&& given == statuses::<TActor>(s.phase, came_up(moments))
            &&& given.len() > 0
            &&& given.last() == EffectView::<TActor>::SetStatus(s.status)
        }),
    decreases moments.len(),
{
    law_phases(cell, args, supervisor, moments);
    let (s, all) = whole_life(cell, args, supervisor, moments)->0;
    if moments.len() > 0 {
        lemma_statuses_step(cell, args, supervisor, moments);
        law_statuses_in_order(cell, args, supervisor, moments.drop_last());
        law_phases(cell, args, supervisor, moments.drop_last());
        assert(all.filter(sets_status()) =~= statuses::<TActor>(s.phase, came_up(moments)));
    } else {
        broadcast use group_filter;

        lemma_whole_life_start(cell, args, supervisor, moments);
        assert(all.filter(sets_status()) =~= statuses::<TActor>(Phase::PreStart, false));
    }
}

/// The status of an actor never goes back.
pub proof fn law_status_never_goes_back<TActor: Actor>(
    cell: ActorCell,
    args: TActor::Arguments,
    supervisor: Option<ActorCell>,
    moments: Seq<Moment<TActor>>,
    n: int,
)
    requires
        whole_life(cell, args, supervisor, moments) is Some,
        0 <= n <= moments.len(),
    ensures
        whole_life(cell, args, supervisor, moments.take(n)) is Some,
        (whole_life(cell, args, supervisor, moments.take(n))->0).0.status.rank() <= (whole_life(
            cell,
            args,
            supervisor,
            moments,
        )->0).0.status.rank(),
    decreases moments.len(),
{
    if n < moments.len() {
        let before = moments.drop_last();
        lemma_whole_life_step(cell, args, supervisor, moments);
        law_phases(cell, args, supervisor, before);
        law_status_never_goes_back(cell, args, supervisor, before, n);
        assert(before.take(n) =~= moments.take(n));
    } else {
        assert(moments.take(n) =~= moments);
    }
}

/// While an actor lives, none of its children is terminated.
pub proof fn law_children_live_as_long_as_the_actor<TActor: Actor>(
    cell: ActorCell,
    args: TActor::Arguments,
    supervisor: Option<ActorCell>,
    moments: Seq<Moment<TActor>>,
    i: int,
)
    requires
        whole_life(cell, args, supervisor, moments) is Some,
        !((whole_life(cell, args, supervisor, moments)->0).0.phase is Finished),
        0 <= i < (whole_life(cell, args, supervisor, moments)->0).1.len(),
    ensures
        !((whole_life(cell, args, supervisor, moments)->0).1[i] is TerminateChildren),
    decreases moments.len(),
{
    let (s, all) = whole_life(cell, args, supervisor, moments)->0;
    if moments.len() > 0 {
        lemma_whole_life_step(cell, args, supervisor, moments);
        let (now, effects) = whole_life(cell, args, supervisor, moments.drop_last())->0;
        let (next, more) = happens(now, moments.last())->0;
        if i < effects.len() {
            law_children_live_as_long_as_the_actor(cell, args, supervisor, moments.drop_last(), i);
        } else {
            assert(all[i] == more[i - effects.len()]);
        }
    } else {
        lemma_whole_life_start(cell, args, supervisor, moments);
    }
}

/// Every end of an actor terminates its children before the last thing that the supervisor hears,
/// which is that the actor has ended; it is stopped only after that.
pub proof fn law_children_end_before_the_supervisor_hears<TActor: Actor>(
    cell: ActorCell,
    args: TActor::Arguments,
    supervisor: Option<ActorCell>,
    moments: Seq<Moment<TActor>>,
)
    requires
        whole_life(cell, args, supervisor, moments) is Some,
        (whole_life(cell, args, supervisor, moments)->0).0.phase is Finished,
    ensures
        ({
            let effects = (whole_life(cell, args, supervisor, moments)->0).1;
            exists|children: int, told: int, stopped: int|
                #![trigger effects[children], effects[told], effects[stopped]]
                {
                    &&& 0 <= children < told < stopped < effects.len()
                    &&& effects[children] is TerminateChildren
                    &&& effects[told] matches EffectView::NotifySupervisor(event) && !(
                    event is ActorStarted)
                    &&& effects[stopped] == EffectView::<TActor>::SetStatus(ActorStatus::Stopped)
                    &&& forall|k: int|
                        told < k < effects.len() ==> !(
                        #[trigger] effects[k] is NotifySupervisor)
                }
        }),
{
    if moments.len() > 0 {
        lemma_whole_life_step(cell, args, supervisor, moments);
        let (now, effects) = whole_life(cell, args, supervisor, moments.drop_last())->0;
        let all = (whole_life(cell, args, supervisor, moments)->0).1;
        let more = (happens(now, moments.last())->0).1;
        let told = all.len() - if now.supervisor is Some {
            3int
        } else {
            2
        };
        assert forall|k: int| effects.len() <= k < all.len() implies all[k] == #[trigger] more[k
            - effects.len()] by {}
        assert(all[told - 1] == more[told - 1 - effects.len()]);
        assert(all[told] == more[told - effects.len()]);
        assert(all[told + 1] == more[told + 1 - effects.len()]);
        assert(all[all.len() - 1] == more[more.len() - 1]);
        assert(all[told - 1] is TerminateChildren);
        assert(all[told] is NotifySupervisor);
        assert(all[told + 1] == EffectView::<TActor>::SetStatus(ActorStatus::Stopped));
    } else {
        lemma_whole_life_start(cell, args, supervisor, moments);
    }
}

/// Whether an effect has to do with the supervisor of the actor.
pub open spec fn supervises<TActor: Actor>() -> spec_fn(EffectView<TActor>) -> bool {
    |e: EffectView<TActor>| e is Link || e is Unlink || e is NotifySupervisor
}

/// Whether an event tells the end of the actor `cell`: that it has terminated, with its last
/// state, or that it has failed.
pub open spec fn is_farewell<TActor: Actor>(cell: ActorCell, event: OwnEventView<TActor>) -> bool {
    match event {
        SupervisionEventView::ActorStarted(_) => false,
        SupervisionEventView::ActorTerminated(c, state, _) => c == cell && state is Some,
        SupervisionEventView::ActorPanicked(c, _) => c == cell,
    }
}

/// The link to a supervisor.
pub open spec fn link<TActor: Actor>(supervisor: Option<ActorCell>) -> Seq<EffectView<TActor>> {
    match supervisor {
        Some(sup) => seq![EffectView::Link(sup)],
        None => Seq::empty(),
    }
}

/// The end of the link to a supervisor.
pub open spec fn unlink<TActor: Actor>(supervisor: Option<ActorCell>) -> Seq<EffectView<TActor>> {
    match supervisor {
        Some(sup) => seq![EffectView::Unlink(sup)],
        None => Seq::empty(),
    }
}

/// What the supervisor is told when an actor comes up.
pub open spec fn greeting<TActor: Actor>(cell: ActorCell) -> EffectView<TActor> {
    EffectView::NotifySupervisor(SupervisionEventView::ActorStarted(cell))
}

/// What has to do with the supervisor in the life of an actor until its end.
pub open spec fn supervision<TActor: Actor>(
    cell: ActorCell,
    supervisor: Option<ActorCell>,
    linked: bool,
    up: bool,
) -> Seq<EffectView<TActor>> {
    if linked {
        if up {
            link(supervisor).push(greeting(cell))
        } else {
            link(supervisor)
        }
    } else {
        Seq::empty()
    }
}

proof fn lemma_supervision_at<TActor: Actor>(s: Lifecycle<TActor>, moment: Moment<TActor>) -> (last:
    OwnEventView<TActor>)
    requires
        happens(s, moment) is Some,
        s.state is Some <==> has_state(s.phase),
    ensures
        ({
            let (next, more) = happens(s, moment)->0;
            let told = more.filter(supervises());
            match (s.phase, next.phase) {
                (Phase::PreStart, Phase::PostStart) => told == link::<TActor>(s.supervisor),
                (Phase::PostStart, Phase::Listen) => told == seq![greeting::<TActor>(s.cell)],
                (_, Phase::Finished) => is_farewell::<TActor>(s.cell, last) && told == seq![
                    EffectView::<TActor>::NotifySupervisor(last),
                ] + unlink(s.supervisor),
                _ => told == Seq::<EffectView<TActor>>::empty(),
            }
        }),
{
    broadcast use group_filter;

    let (next, more) = happens(s, moment)->0;
    let told = more.filter(supervises());
    if next.phase is Finished {
        let at = if s.supervisor is Some {
            more.len() - 3
        } else {
            more.len() - 2
        };
        let last = more[at]->NotifySupervisor_0;
        assert(more[at] == EffectView::<TActor>::NotifySupervisor(last));
        assert(told =~= seq![EffectView::<TActor>::NotifySupervisor(last)] + unlink(s.supervisor));
        last
    } else {
        assert(s.phase is PreStart && next.phase is PostStart ==> told =~= link::<TActor>(
            s.supervisor,
        ));
        assert(s.phase is PostStart && next.phase is Listen ==> told =~= seq![
            greeting::<TActor>(s.cell),
        ]);
        SupervisionEventView::ActorStarted(s.cell)
    }
}

proof fn lemma_supervision_step<TActor: Actor>(
    cell: ActorCell,
    args: TActor::Arguments,
    supervisor: Option<ActorCell>,
    moments: Seq<Moment<TActor>>,
) -> (last: OwnEventView<TActor>)
    requires
        whole_life(cell, args, supervisor, moments) is Some,
        moments.len() > 0,
    ensures
        whole_life(cell, args, supervisor, moments.drop_last()) is Some,
        ({
            let (now, effects) = whole_life(cell, args, supervisor, moments.drop_last())->0;
            let (next, all) = whole_life(cell, args, supervisor, moments)->0;
            let before = effects.filter(supervises());
            let told = all.filter(supervises());
            &&& moves(now.phase, next.phase)
            &&& next.phase is Finished ==> came_up(moments) == came_up(moments.drop_last())
            &&& match (now.phase, next.phase) {
                (Phase::PreStart, Phase::PostStart) => told == before + link(supervisor),
                (Phase::PostStart, Phase::Listen) => told == before.push(greeting(cell)),
                (_, Phase::Finished) => is_farewell::<TActor>(cell, last) && told == before.push(
                    EffectView::<TActor>::NotifySupervisor(last),
                ) + unlink(supervisor),
                _ => told == before,
            }
        }),
{
    lemma_whole_life_step(cell, args, supervisor, moments);
    law_phases(cell, args, supervisor, moments.drop_last());
    let added = lemma_selection_step(cell, args, supervisor, moments, supervises());
    let (now, effects) = whole_life(cell, args, supervisor, moments.drop_last())->0;
    let (next, all) = whole_life(cell, args, supervisor, moments)->0;
    let before = effects.filter(supervises());
    let last = lemma_supervision_at(now, moments.last());
    assert(before + seq![greeting::<TActor>(cell)] =~= before.push(greeting(cell)));
    assert(before + (seq![EffectView::<TActor>::NotifySupervisor(last)] + unlink(supervisor)) =~= before.push(
        EffectView::<TActor>::NotifySupervisor(last),
    ) + unlink(supervisor));
    assert(before + Seq::empty() =~= before);
    last
}

/// The supervisor of an actor is linked once `pre_start` has succeeded, hears that the actor has
/// started once `post_start` has, hears of its end once and last, and is then unlinked. Of an actor
/// that could not be started it hears nothing.
pub proof fn law_supervision<TActor: Actor>(
    cell: ActorCell,
    args: TActor::Arguments,
    supervisor: Option<ActorCell>,
    moments: Seq<Moment<TActor>>,
)
    requires
        whole_life(cell, args, supervisor, moments) is Some,
    ensures
        ({
            let (s, effects) = whole_life(cell, args, supervisor, moments)->0;
            let told = effects.filter(supervises());
            if s.phase is Finished {
                exists|last: OwnEventView<TActor>| #[trigger]
                    is_farewell::<TActor>(cell, last) && told == supervision::<TActor>(
                        cell,
                        supervisor,
                        true,
                        came_up(moments),
                    ).push(EffectView::<TActor>::NotifySupervisor(last)) + unlink(supervisor)
            } else {
                told == supervision::<TActor>(
                    cell,
                    supervisor,
                    has_state(s.phase),
                    came_up(moments),
                )
            }
        }),
    decreases moments.len(),
{
    law_phases(cell, args, supervisor, moments);
    let (s, all) = whole_life(cell, args, supervisor, moments)->0;
    if moments.len() > 0 {
        let last = lemma_supervision_step(cell, args, supervisor, moments);
        law_supervision(cell, args, supervisor, moments.drop_last());
        law_phases(cell, args, supervisor, moments.drop_last());
        assert(Seq::empty() + link::<TActor>(supervisor) =~= link(supervisor));
    } else {
        broadcast use group_filter;

        lemma_whole_life_start(cell, args, supervisor, moments);
    }
}

/// Whether an effect tells whoever started the actor what came of it.
pub open spec fn answers_start<TActor: Actor>() -> spec_fn(EffectView<TActor>) -> bool {
    |e: EffectView<TActor>| e is StartSucceeded || e is StartFailed
}

proof fn lemma_answer_at<TActor: Actor>(s: Lifecycle<TActor>, moment: Moment<TActor>)
    requires
        happens(s, moment) is Some,
    ensures
        ({
            let (next, more) = happens(s, moment)->0;
            let answer = more.filter(answers_start());
            match next.phase {
                Phase::PostStart => answer == seq![EffectView::<TActor>::StartSucceeded(s.cell)],
                Phase::Failed => answer == seq![
                    EffectView::<TActor>::StartFailed(
                        SpawnErrView::StartupPanic(failure_of(moment.event)->0),
                    ),
                ] && failure_of(moment.event) is Some,
                _ => answer == Seq::<EffectView<TActor>>::empty(),
            }
        }),
{
    broadcast use group_filter;

    let (next, more) = happens(s, moment)->0;
    let answer = more.filter(answers_start());
    match next.phase {
        Phase::PostStart => {
            assert(answer =~= seq![EffectView::<TActor>::StartSucceeded(s.cell)]);
        },
        Phase::Failed => {
            assert(answer =~= more);
        },
        _ => {
            assert(answer =~= Seq::<EffectView<TActor>>::empty());
        },
    }
}

/// The failure that an event tells, if it tells one.
pub open spec fn failure_of<TActor: Actor>(event: Event<TActor>) -> Option<
    ActorProcessingErrView<TActor::Failure>,
> {
    match event {
        Event::PreStartDone(outcome) => errors::hook_failure(outcome),
        Event::PostStartDone(outcome) => errors::hook_failure(outcome),
        Event::PortReady(_) => None,
        Event::HandlerDone(Ok(Err(error))) => Some(error@),
        Event::HandlerDone(_) => None,
        Event::LoopPanicked(panic) => Some(
            ActorProcessingErrView::Text(errors::panic_text(panic)),
        ),
        Event::PostStopDone(outcome) => errors::hook_failure(outcome),
    }
}

/// The signal that an event carries, if it carries one.
pub open spec fn signal_of<TActor: Actor>(event: Event<TActor>) -> Option<Signal> {
    match event {
        Event::PortReady(Ok(ActorPortMessage::Signal(signal))) => Some(signal),
        Event::HandlerDone(Err(signal)) => Some(signal),
        _ => None,
    }
}

/// Whoever starts an actor gets one answer, when `pre_start` is done: that the actor is up, or why
/// it is not.
pub proof fn law_start_is_answered_once<TActor: Actor>(
    cell: ActorCell,
    args: TActor::Arguments,
    supervisor: Option<ActorCell>,
    moments: Seq<Moment<TActor>>,
)
    requires
        whole_life(cell, args, supervisor, moments) is Some,
    ensures
        ({
            let (s, effects) = whole_life(cell, args, supervisor, moments)->0;
            let answers = effects.filter(answers_start());
            match s.phase {
                Phase::PreStart => answers == Seq::<EffectView<TActor>>::empty(),
                Phase::Failed => moments.len() > 0 && (failure_of(moments.last().event) matches Some(
                    error,
                ) && answers == seq![
                    EffectView::<TActor>::StartFailed(SpawnErrView::StartupPanic(error)),
                ]),
                _ => answers == seq![EffectView::<TActor>::StartSucceeded(cell)],
            }
        }),
    decreases moments.len(),
{
    law_phases(cell, args, supervisor, moments);
    if moments.len() > 0 {
        lemma_answer_step(cell, args, supervisor, moments);
        law_start_is_answered_once(cell, args, supervisor, moments.drop_last());
    } else {
        broadcast use group_filter;

        lemma_whole_life_start(cell, args, supervisor, moments);
    }
}

proof fn lemma_answer_step<TActor: Actor>(
    cell: ActorCell,
    args: TActor::Arguments,
    supervisor: Option<ActorCell>,
    moments: Seq<Moment<TActor>>,
)
    requires
        whole_life(cell, args, supervisor, moments) is Some,
        moments.len() > 0,
    ensures
        whole_life(cell, args, supervisor, moments.drop_last()) is Some,
        ({
            let (now, effects) = whole_life(cell, args, supervisor, moments.drop_last())->0;
            let (next, all) = whole_life(cell, args, supervisor, moments)->0;
            let before = effects.filter(answers_start());
            let answers = all.filter(answers_start());
            &&& moves(now.phase, next.phase)
            &&& match next.phase {
                Phase::PostStart => answers == before.push(EffectView::StartSucceeded(cell)),
                Phase::Failed => (failure_of(moments.last().event) matches Some(error)
                    && answers == before.push(
                    EffectView::StartFailed(SpawnErrView::StartupPanic(error)),
                )),
                _ => answers == before,
            }
        }),
{
    lemma_whole_life_step(cell, args, supervisor, moments);
    law_phases(cell, args, supervisor, moments.drop_last());
    let added = lemma_selection_step(cell, args, supervisor, moments, answers_start());
    let (now, effects) = whole_life(cell, args, supervisor, moments.drop_last())->0;
    let before = effects.filter(answers_start());
    lemma_answer_at(now, moments.last());
    assert(before + Seq::empty() =~= before);
    if added.len() == 1 {
        assert(before + added =~= before.push(added[0]));
    }
}

/// Whether an effect runs a hook that frames the life of an actor.
pub open spec fn frames<TActor: Actor>() -> spec_fn(EffectView<TActor>) -> bool {
    |e: EffectView<TActor>| e is RunPreStart || e is RunPostStart || e is RunPostStop
}

/// The hooks that frame the life of an actor, until it is in a phase.
pub open spec fn framing_hooks<TActor: Actor>(
    args: TActor::Arguments,
    phase: Phase,
    asked: bool,
) -> Seq<EffectView<TActor>> {
    let first = seq![EffectView::RunPreStart(args)];
    match phase {
        Phase::Created => Seq::empty(),
        Phase::PreStart | Phase::Failed => first,
        _ => if asked {
            first.push(EffectView::RunPostStart).push(EffectView::RunPostStop)
        } else {
            first.push(EffectView::RunPostStart)
        },
    }
}

proof fn lemma_frame_at<TActor: Actor>(s: Lifecycle<TActor>, moment: Moment<TActor>)
    requires
        happens(s, moment) is Some,
    ensures
        ({
            let (next, more) = happens(s, moment)->0;
            let hooks = more.filter(frames());
            match next.phase {
                Phase::PostStart => hooks == seq![EffectView::<TActor>::RunPostStart],
                Phase::PostStop => hooks == seq![EffectView::<TActor>::RunPostStop],
                _ => hooks == Seq::<EffectView<TActor>>::empty(),
            }
        }),
{
    broadcast use group_filter;

    let (next, more) = happens(s, moment)->0;
    let hooks = more.filter(frames());
    match next.phase {
        Phase::PostStart => {
            assert(hooks =~= seq![EffectView::<TActor>::RunPostStart]);
        },
        Phase::PostStop => {
            assert(hooks =~= seq![EffectView::<TActor>::RunPostStop]);
        },
        _ => {
            assert(hooks =~= Seq::<EffectView<TActor>>::empty());
        },
    }
}

proof fn lemma_frame_step<TActor: Actor>(
    cell: ActorCell,
    args: TActor::Arguments,
    supervisor: Option<ActorCell>,
    moments: Seq<Moment<TActor>>,
)
    requires
        whole_life(cell, args, supervisor, moments) is Some,
        moments.len() > 0,
    ensures
        whole_life(cell, args, supervisor, moments.drop_last()) is Some,
        ({
            let (now, effects) = whole_life(cell, args, supervisor, moments.drop_last())->0;
            let (next, all) = whole_life(cell, args, supervisor, moments)->0;
            let before = effects.filter(frames());
            let hooks = all.filter(frames());
            &&& moves(now.phase, next.phase)
            &&& next.phase is Finished ==> asked_to_stop(moments) == asked_to_stop(
                moments.drop_last(),
            )
            &&& match next.phase {
                Phase::PostStart => hooks == before.push(EffectView::RunPostStart),
                Phase::PostStop => hooks == before.push(EffectView::RunPostStop),
                _ => hooks == before,
            }
        }),
{
    lemma_whole_life_step(cell, args, supervisor, moments);
    let added = lemma_selection_step(cell, args, supervisor, moments, frames());
    let (now, effects) = whole_life(cell, args, supervisor, moments.drop_last())->0;
    let before = effects.filter(frames());
    lemma_frame_at(now, moments.last());
    assert(before + Seq::empty() =~= before);
    if added.len() == 1 {
        assert(before + added =~= before.push(added[0]));
    }
}

/// `pre_start`, `post_start` and `post_stop` run at most once each and in this order: `post_start`
/// when `pre_start` has succeeded, `post_stop` when the actor has been asked to stop, and only
/// then.
pub proof fn law_framing_hooks<TActor: Actor>(
    cell: ActorCell,
    args: TActor::Arguments,
    supervisor: Option<ActorCell>,
    moments: Seq<Moment<TActor>>,
)
    requires
        whole_life(cell, args, supervisor, moments) is Some,
    ensures
        ({
            let (s, effects) = whole_life(cell, args, supervisor, moments)->0;
            effects.filter(frames()) == framing_hooks::<TActor>(
                args,
                s.phase,
                asked_to_stop(moments),
            )
        }),
    decreases moments.len(),
{
    law_phases(cell, args, supervisor, moments);
    if moments.len() > 0 {
        lemma_frame_step(cell, args, supervisor, moments);
        law_framing_hooks(cell, args, supervisor, moments.drop_last());
        law_phases(cell, args, supervisor, moments.drop_last());
    } else {
        broadcast use group_filter;

        lemma_whole_life_start(cell, args, supervisor, moments);
    }
}

/// Whether an effect has something handled that came out of the ports.
pub open spec fn is_handler<TActor: Actor>() -> spec_fn(EffectView<TActor>) -> bool {
    |e: EffectView<TActor>| e is RunHandleMessage || e is RunHandleSupervisorEvt
}

/// The handling that is due for what came out of the ports, if one is.
pub open spec fn handler_for<TActor: Actor>(event: Event<TActor>) -> Option<EffectView<TActor>> {
    match event {
        Event::PortReady(Ok(ActorPortMessage::Supervision(event))) => Some(
            EffectView::RunHandleSupervisorEvt(event),
        ),
        Event::PortReady(Ok(ActorPortMessage::Message(message))) => Some(
            EffectView::RunHandleMessage(message),
        ),
        _ => None,
    }
}

/// The handling that is due for all that came out of the ports, in order.
pub open spec fn handlers_for<TActor: Actor>(moments: Seq<Moment<TActor>>) -> Seq<EffectView<TActor>>
    decreases moments.len(),
{
    if moments.len() == 0 {
        Seq::empty()
    } else {
        let before = handlers_for(moments.drop_last());
        match handler_for(moments.last().event) {
            Some(request) => before.push(request),
            None => before,
        }
    }
}

proof fn lemma_handler_at<TActor: Actor>(s: Lifecycle<TActor>, moment: Moment<TActor>)
    requires
        happens(s, moment) is Some,
    ensures
        (happens(s, moment)->0).1.filter(is_handler()) == match handler_for(moment.event) {
            Some(request) => seq![request],
            None => Seq::<EffectView<TActor>>::empty(),
        },
{
    broadcast use group_filter;

    let (next, more) = happens(s, moment)->0;
    match handler_for(moment.event) {
        Some(request) => {
            assert(more =~= seq![request]);
            assert(more.filter(is_handler()) =~= more);
        },
        None => {
            assert(more.filter(is_handler()) =~= Seq::<EffectView<TActor>>::empty());
        },
    }
}

/// Each message and each supervision event that comes out of the ports of an actor is handled
/// once, and in the order in which they came out; nothing else is handled.
pub proof fn law_handled_once_in_order<TActor: Actor>(
    cell: ActorCell,
    args: TActor::Arguments,
    supervisor: Option<ActorCell>,
    moments: Seq<Moment<TActor>>,
)
    requires
        whole_life(cell, args, supervisor, moments) is Some,
    ensures
        (whole_life(cell, args, supervisor, moments)->0).1.filter(is_handler()) == handlers_for(
            moments,
        ),
    decreases moments.len(),
{
    if moments.len() > 0 {
        lemma_whole_life_step(cell, args, supervisor, moments);
        law_handled_once_in_order(cell, args, supervisor, moments.drop_last());
        law_phases(cell, args, supervisor, moments.drop_last());
        let added = lemma_selection_step(cell, args, supervisor, moments, is_handler());
        let (now, effects) = whole_life(cell, args, supervisor, moments.drop_last())->0;
        lemma_handler_at(now, moments.last());
        assert(effects.filter(is_handler()) + added =~= handlers_for(moments));
    } else {
        broadcast use group_filter;

        lemma_whole_life_start(cell, args, supervisor, moments);
    }
}

/// A message to an actor of this process goes to `handle`, as it was taken out, and never in its
/// serialized form. One to an actor of another process goes to `handle_serialized`, as it is, and
/// finds no hook exactly where it has no serialized form.
pub proof fn law_routes<TActor: Actor, F>(
    cell: ActorCell,
    message: MessageFor<TActor>,
    from_boxed: F,
    res: Result<MessageHook<TActor>, ActorProcessingErr<TActor::Failure>>,
) where F: FnOnce(MessageFor<TActor>) -> Result<TActor::Msg, TActor::Failure>
    requires
        lifecycle::routed::<TActor, F>(cell, message, from_boxed, res),
    ensures
        res matches Ok(MessageHook::Handle(msg)) ==> cell.id is Local && call_ensures(
            from_boxed,
            (message,),
            Ok(msg),
        ),
        res matches Ok(MessageHook::HandleSerialized(serialized)) ==> cell.id is Remote
            && message.serialized_msg == Some(serialized),
        cell.id is Remote ==> (res is Ok <==> message.serialized_msg is Some),
        cell.id is Local ==> exists|taken: Result<TActor::Msg, TActor::Failure>| #[trigger]
            call_ensures(from_boxed, (message,), taken) && match taken {
                Ok(msg) => res matches Ok(MessageHook::Handle(m)) && m == msg,
                Err(error) => res matches Err(ActorProcessingErr::Raised(e)) && e == error,
            },
        cell.id is Local && (forall|taken: Result<TActor::Msg, TActor::Failure>|
            call_ensures(from_boxed, (message,), taken) ==> taken is Ok) ==> res is Ok,
        cell.id is Local && (forall|taken: Result<TActor::Msg, TActor::Failure>|
            call_ensures(from_boxed, (message,), taken) ==> taken is Err) ==> res is Err,
        cell.id is Remote && message.serialized_msg is None ==> (res matches Err(
            ActorProcessingErr::Text(text),
        ) && text@ == "`RemoteActor` failed to read `SerializedMessage` from `BoxedMessage`"@),
{
}

/// Of the forms of a message, the one that an actor takes decides alone. Where an actor of this
/// process has one way to take a message out, the serialized form makes no difference; for one of
/// another process only the serialized form makes one.
pub proof fn law_only_one_form_counts<TActor: Actor, F, G>(
    cell: ActorCell,
    a: MessageFor<TActor>,
    b: MessageFor<TActor>,
    from_a: F,
    from_b: G,
    res_a: Result<MessageHook<TActor>, ActorProcessingErr<TActor::Failure>>,
    res_b: Result<MessageHook<TActor>, ActorProcessingErr<TActor::Failure>>,
    taken: Result<TActor::Msg, TActor::Failure>,
) where
    F: FnOnce(MessageFor<TActor>) -> Result<TActor::Msg, TActor::Failure>,
    G: FnOnce(MessageFor<TActor>) -> Result<TActor::Msg, TActor::Failure>,

    requires
        lifecycle::routed::<TActor, F>(cell, a, from_a, res_a),
        lifecycle::routed::<TActor, G>(cell, b, from_b, res_b),
        if cell.id is Local {
            &&& forall|t: Result<TActor::Msg, TActor::Failure>|
                call_ensures(from_a, (a,), t) ==> t == taken
            &&& forall|t: Result<TActor::Msg, TActor::Failure>|
                call_ensures(from_b, (b,), t) ==> t == taken
        } else {
            a.serialized_msg == b.serialized_msg
        },
    ensures
        match res_a {
            Ok(hook) => res_b == Ok::<_, ActorProcessingErr<TActor::Failure>>(hook),
            Err(error) => res_b matches Err(e) && e@ == error@,
        },
{
}

/// A message that finds no hook fails the actor with the failure of finding one, unless a signal
/// comes first: then the actor is killed.
pub proof fn law_message_without_hook<TActor: Actor, F>(
    cell: ActorCell,
    args: TActor::Arguments,
    supervisor: Option<ActorCell>,
    moments: Seq<Moment<TActor>>,
    message: MessageFor<TActor>,
    from_boxed: F,
    error: ActorProcessingErr<TActor::Failure>,
    outcome: HandlerOutcome<TActor>,
) where F: FnOnce(MessageFor<TActor>) -> Result<TActor::Msg, TActor::Failure>
    requires
        whole_life(cell, args, supervisor, moments) is Some,
        moments.len() > 0,
        lifecycle::routed::<TActor, F>(cell, message, from_boxed, Err(error)),
        moments.last().event == Event::<TActor>::HandlerDone(outcome),
        outcome == Ok::<Result<(), ActorProcessingErr<TActor::Failure>>, Signal>(Err(error))
            || outcome is Err,
    ensures
        ({
            let (s, effects) = whole_life(cell, args, supervisor, moments)->0;
            &&& s.phase is Finished
            &&& close_with::<TActor>(
                effects,
                supervisor,
                match outcome {
                    Ok(_) => SupervisionEventView::ActorPanicked(cell, error@),
                    Err(_) => SupervisionEventView::ActorTerminated(
                        cell,
                        last_state(cell, args, supervisor, moments),
                        Some("killed"@),
                    ),
                },
            )
        }),
        cell.id is Remote ==> error@ == ActorProcessingErrView::<TActor::Failure>::Text(
            lifecycle::not_serialized(),
        ),
{
    if outcome is Err {
        law_signal_ends(cell, args, supervisor, moments);
    } else {
        law_failure_ends(cell, args, supervisor, moments);
    }
}

/// Whether an effect is answered by an event.
pub open spec fn is_request<TActor: Actor>() -> spec_fn(EffectView<TActor>) -> bool {
    |e: EffectView<TActor>|
        e is RunPreStart || e is RunPostStart || e is Listen || e is RunHandleMessage
            || e is RunHandleSupervisorEvt || e is RunPostStop
}

/// Whether a request is the one that an actor in the phase waits for.
pub open spec fn awaited<TActor: Actor>(phase: Phase, e: EffectView<TActor>) -> bool {
    match phase {
        Phase::PreStart => e is RunPreStart,
        Phase::PostStart => e is RunPostStart,
        Phase::Listen => e is Listen,
        Phase::Handle => is_handler::<TActor>()(e),
        Phase::PostStop => e is RunPostStop,
        _ => false,
    }
}

proof fn lemma_request_at<TActor: Actor>(s: Lifecycle<TActor>, moment: Moment<TActor>)
    requires
        happens(s, moment) is Some,
    ensures
        ({
            let (next, more) = happens(s, moment)->0;
            &&& more.len() > 0
            &&& over(next.phase) ==> more.filter(is_request()) == Seq::<EffectView<TActor>>::empty()
            &&& !over(next.phase) ==> awaited(next.phase, more.last()) && more.filter(is_request())
                == seq![more.last()]
        }),
{
    broadcast use group_filter;

    let (next, more) = happens(s, moment)->0;
    if over(next.phase) {
        assert(more.filter(is_request()) =~= Seq::<EffectView<TActor>>::empty());
    } else {
        assert(more.filter(is_request()) =~= seq![more.last()]);
    }
}

/// An actor waits for one thing at a time: each event answers one request, and until its life is
/// over the last effect is the one request that has not been answered.
pub proof fn law_one_request_at_a_time<TActor: Actor>(
    cell: ActorCell,
    args: TActor::Arguments,
    supervisor: Option<ActorCell>,
    moments: Seq<Moment<TActor>>,
)
    requires
        whole_life(cell, args, supervisor, moments) is Some,
    ensures
        ({
            let (s, effects) = whole_life(cell, args, supervisor, moments)->0;
            let requests = effects.filter(is_request());
            if over(s.phase) {
                requests.len() == moments.len()
            } else {
                requests.len() == moments.len() + 1 && effects.len() > 0 && awaited(
                    s.phase,
                    effects.last(),
                )
            }
        }),
    decreases moments.len(),
{
    if moments.len() > 0 {
        lemma_whole_life_step(cell, args, supervisor, moments);
        law_one_request_at_a_time(cell, args, supervisor, moments.drop_last());
        let added = lemma_selection_step(cell, args, supervisor, moments, is_request());
        let (now, effects) = whole_life(cell, args, supervisor, moments.drop_last())->0;
        let (next, more) = happens(now, moments.last())->0;
        law_phases(cell, args, supervisor, moments.drop_last());
        lemma_request_at(now, moments.last());
        assert((effects + more).last() == more.last());
    } else {
        broadcast use group_filter;

        lemma_whole_life_start(cell, args, supervisor, moments);
    }
}

/// The reason in an event that asks an actor to stop.
pub open spec fn asked_reason<TActor: Actor>(event: Event<TActor>) -> Option<Seq<char>> {
    match event {
        Event::PortReady(Ok(ActorPortMessage::Stop(message))) => messages::stop_reason(message),
        _ => None,
    }
}

/// While `post_stop` runs, the actor has just been asked to stop, and keeps the reason.
proof fn lemma_reason_kept<TActor: Actor>(
    cell: ActorCell,
    args: TActor::Arguments,
    supervisor: Option<ActorCell>,
    moments: Seq<Moment<TActor>>,
)
    requires
        whole_life(cell, args, supervisor, moments) is Some,
        (whole_life(cell, args, supervisor, moments)->0).0.phase is PostStop,
    ensures
        moments.len() > 0,
        asks_to_stop(moments.last().event),
        (whole_life(cell, args, supervisor, moments)->0).0.exit_reason == asked_reason(
            moments.last().event,
        ),
{
    if moments.len() > 0 {
        lemma_whole_life_step(cell, args, supervisor, moments);
    } else {
        lemma_whole_life_start(cell, args, supervisor, moments);
    }
}

/// The state of an actor as its last moment finds it.
pub open spec fn last_state<TActor: Actor>(
    cell: ActorCell,
    args: TActor::Arguments,
    supervisor: Option<ActorCell>,
    moments: Seq<Moment<TActor>>,
) -> Option<TActor::State> {
    touched(
        (whole_life(cell, args, supervisor, moments.drop_last())->0).0,
        moments.last().left,
    ).state
}

/// Whether the effects end with the [`lifecycle::closing`] of an actor.
pub open spec fn close_with<TActor: Actor>(
    effects: Seq<EffectView<TActor>>,
    supervisor: Option<ActorCell>,
    last_words: OwnEventView<TActor>,
) -> bool {
    let end = lifecycle::closing::<TActor>(supervisor, last_words);
    effects.len() >= end.len() && effects.skip(effects.len() - end.len()) == end
}

proof fn lemma_close_with<TActor: Actor>(
    first: Seq<EffectView<TActor>>,
    supervisor: Option<ActorCell>,
    last_words: OwnEventView<TActor>,
)
    ensures
        close_with::<TActor>(first + lifecycle::closing::<TActor>(supervisor, last_words), supervisor, last_words),
{
    let end = lifecycle::closing::<TActor>(supervisor, last_words);
    assert((first + end).skip(first.len() as int) =~= end);
}

/// An actor that gets a signal, between two messages or in the middle of one, ends at once: its
/// children end, and its supervisor hears that it was killed and gets its last state.
pub proof fn law_signal_ends<TActor: Actor>(
    cell: ActorCell,
    args: TActor::Arguments,
    supervisor: Option<ActorCell>,
    moments: Seq<Moment<TActor>>,
)
    requires
        whole_life(cell, args, supervisor, moments) is Some,
        moments.len() > 0,
        signal_of(moments.last().event) is Some,
    ensures
        ({
            let (s, effects) = whole_life(cell, args, supervisor, moments)->0;
            let state = last_state(cell, args, supervisor, moments);
            &&& s.phase is Finished
            &&& state is Some
            &&& close_with::<TActor>(
                effects,
                supervisor,
                SupervisionEventView::ActorTerminated(cell, state, Some("killed"@)),
            )
        }),
{
    lemma_whole_life_step(cell, args, supervisor, moments);
    law_phases(cell, args, supervisor, moments.drop_last());
    let (now, effects) = whole_life(cell, args, supervisor, moments.drop_last())->0;
    let (next, more) = happens(now, moments.last())->0;
    let first = seq![EffectView::<TActor>::TerminateChildren].push(
        EffectView::SetStatus(ActorStatus::Stopping),
    );
    let words: OwnEventView<TActor> = SupervisionEventView::ActorTerminated(
        cell,
        last_state(cell, args, supervisor, moments),
        Some("killed"@),
    );
    lemma_close_with(effects + first, supervisor, words);
    assert(effects + more =~= (effects + first) + lifecycle::closing::<TActor>(supervisor, words));
}

/// A failure of an actor ends it, and is handed on as it is: one of `pre_start` to whoever starts
/// the actor, and to nobody else; any other to its supervisor.
pub proof fn law_failure_ends<TActor: Actor>(
    cell: ActorCell,
    args: TActor::Arguments,
    supervisor: Option<ActorCell>,
    moments: Seq<Moment<TActor>>,
)
    requires
        whole_life(cell, args, supervisor, moments) is Some,
        moments.len() > 0,
        failure_of(moments.last().event) is Some,
    ensures
        ({
            let (s, effects) = whole_life(cell, args, supervisor, moments)->0;
            let error = failure_of(moments.last().event)->0;
            if moments.last().event is PreStartDone {
                &&& s.phase is Failed
                &&& effects.last() == EffectView::<TActor>::StartFailed(
                    SpawnErrView::StartupPanic(error),
                )
                &&& effects.filter(supervises()) == Seq::<EffectView<TActor>>::empty()
            } else {
                &&& s.phase is Finished
                &&& close_with::<TActor>(
                    effects,
                    supervisor,
                    SupervisionEventView::ActorPanicked(cell, error),
                )
            }
        }),
{
    lemma_whole_life_step(cell, args, supervisor, moments);
    law_phases(cell, args, supervisor, moments.drop_last());
    let (now, effects) = whole_life(cell, args, supervisor, moments.drop_last())->0;
    let (next, more) = happens(now, moments.last())->0;
    let error = failure_of(moments.last().event)->0;
    if moments.last().event is PreStartDone {
        law_supervision(cell, args, supervisor, moments);
    } else {
        let words: OwnEventView<TActor> = SupervisionEventView::ActorPanicked(cell, error);
        let end = lifecycle::closing::<TActor>(supervisor, words);
        let first = if now.phase is Listen || now.phase is Handle {
            seq![EffectView::<TActor>::SetStatus(ActorStatus::Stopping)]
        } else {
            Seq::empty()
        };
        lemma_close_with(effects + first, supervisor, words);
        assert(effects + more =~= (effects + first) + end);
    }
}

/// An actor whose `post_stop` succeeds has been asked to stop just before; its supervisor hears
/// the reason that was given then and gets the last state.
pub proof fn law_stop_ends<TActor: Actor>(
    cell: ActorCell,
    args: TActor::Arguments,
    supervisor: Option<ActorCell>,
    moments: Seq<Moment<TActor>>,
)
    requires
        whole_life(cell, args, supervisor, moments) is Some,
        moments.len() > 0,
        moments.last().event is PostStopDone,
        failure_of(moments.last().event) is None,
    ensures
        moments.len() > 1,
        ({
            let (s, effects) = whole_life(cell, args, supervisor, moments)->0;
            let asked = moments[moments.len() - 2].event;
            let state = last_state(cell, args, supervisor, moments);
            &&& s.phase is Finished
            &&& asks_to_stop(asked)
            &&& state is Some
            &&& close_with::<TActor>(
                effects,
                supervisor,
                SupervisionEventView::ActorTerminated(cell, state, asked_reason(asked)),
            )
        }),
{
    lemma_whole_life_step(cell, args, supervisor, moments);
    law_phases(cell, args, supervisor, moments.drop_last());
    lemma_reason_kept(cell, args, supervisor, moments.drop_last());
    let (now, effects) = whole_life(cell, args, supervisor, moments.drop_last())->0;
    let (next, more) = happens(now, moments.last())->0;
    let asked = moments[moments.len() - 2].event;
    assert(moments.drop_last().last() == moments[moments.len() - 2]);
    let words: OwnEventView<TActor> = SupervisionEventView::ActorTerminated(
        cell,
        last_state(cell, args, supervisor, moments),
        asked_reason(asked),
    );
    lemma_close_with(effects, supervisor, words);
    assert(effects + more =~= effects + lifecycle::closing::<TActor>(supervisor, words));
}

/// Whether an event ends the life of an actor before `post_stop`: a signal, or a failure of
/// anything but `post_stop` itself.
pub open spec fn cuts_short<TActor: Actor>(event: Event<TActor>) -> bool {
    signal_of(event) is Some || (failure_of(event) is Some && !(event is PostStopDone))
}

/// Every beginning of a life is a life.
proof fn lemma_beginning<TActor: Actor>(
    cell: ActorCell,
    args: TActor::Arguments,
    supervisor: Option<ActorCell>,
    moments: Seq<Moment<TActor>>,
    n: int,
)
    requires
        whole_life(cell, args, supervisor, moments) is Some,
        0 <= n <= moments.len(),
    ensures
        whole_life(cell, args, supervisor, moments.take(n)) is Some,
    decreases moments.len(),
{
    if n < moments.len() {
        lemma_whole_life_step(cell, args, supervisor, moments);
        lemma_beginning(cell, args, supervisor, moments.drop_last(), n);
        assert(moments.drop_last().take(n) =~= moments.take(n));
    } else {
        assert(moments.take(n) =~= moments);
    }
}

/// An actor that gets a signal or fails ends there and then, and `post_stop` never runs.
pub proof fn law_no_post_stop_when_cut_short<TActor: Actor>(
    cell: ActorCell,
    args: TActor::Arguments,
    supervisor: Option<ActorCell>,
    moments: Seq<Moment<TActor>>,
    k: int,
)
    requires
        whole_life(cell, args, supervisor, moments) is Some,
        0 <= k < moments.len(),
        cuts_short(moments[k].event),
    ensures
        k == moments.len() - 1,
        over((whole_life(cell, args, supervisor, moments)->0).0.phase),
        !(whole_life(cell, args, supervisor, moments)->0).1.contains(EffectView::RunPostStop),
{
    let here = moments.take(k + 1);
    lemma_beginning(cell, args, supervisor, moments, k + 1);
    lemma_whole_life_step(cell, args, supervisor, here);
    law_phases(cell, args, supervisor, here.drop_last());
    assert(here.last() == moments[k]);
    if k + 1 < moments.len() {
        let after = moments.take(k + 2);
        lemma_beginning(cell, args, supervisor, moments, k + 2);
        lemma_whole_life_step(cell, args, supervisor, after);
        assert(after.drop_last() =~= here);
        assert(false);
    }
    assert(here =~= moments);
    lemma_last_moment(moments);
    law_framing_hooks(cell, args, supervisor, moments);
    let (s, effects) = whole_life(cell, args, supervisor, moments)->0;
    if effects.contains(EffectView::RunPostStop) {
        let i = choose|i: int| 0 <= i < effects.len() && effects[i] == EffectView::<
            TActor,
        >::RunPostStop;
        effects.lemma_filter_contains(frames(), i);
        let hooks = effects.filter(frames());
        let j = choose|j: int| 0 <= j < hooks.len() && hooks[j] == EffectView::<
            TActor,
        >::RunPostStop;
        assert(hooks[j] == EffectView::<TActor>::RunPostStop);
        assert(!asked_to_stop(moments));
        assert(false);
    }
}

} // verus!
