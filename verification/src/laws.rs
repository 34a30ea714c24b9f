use vstd::prelude::*;
use crate::model::{Lookup, VoiceState, WatchConfig};
use crate::orchestrator::OrchestratorView;
use crate::watcher::{Action, Event, Stage, StepError, WatchState, Watcher};

verus! {

/// One poll as a watcher takes it: the answer of the voice-state source, and
/// whether the shared session was free at that moment.
pub struct Poll {
    pub lookup: Lookup,
    pub session_free: bool,
}

impl Watcher {
    /// Whether the watcher is polling and would take presence in the target
    /// channel for an entry.
    pub open spec fn armed(self) -> bool {
        self.stage is Polling && !self.prior_in_target
    }

    /// The watcher when it polls next: itself while it is polling, and
    /// otherwise what the end of its cycle leaves.
    pub open spec fn settled(self) -> Watcher {
        if self.stage.polls() {
            self
        } else {
            Watcher { stage: Stage::Polling, prior_in_target: true, ..self }
        }
    }

    /// The watcher after one poll and, where the poll was an entry, after the
    /// cycle that it began.
    pub open spec fn polled(self, config: WatchConfig, poll: Poll) -> Watcher {
        self.transition(config, Event::Snapshot(poll.lookup), poll.session_free).watcher.settled()
    }

    /// The watcher after the polls of `polls`, in their order.
    pub open spec fn polled_all(self, config: WatchConfig, polls: Seq<Poll>) -> Watcher
        decreases polls.len(),
    {
        if polls.len() == 0 {
            self
        } else {
            self.polled_all(config, polls.drop_last()).polled(config, polls.last())
        }
    }
}

/// The latest known snapshot among the first `n` polls, if there is one.
pub open spec fn latest_known(polls: Seq<Poll>, n: int) -> Option<VoiceState>
    recommends
        0 <= n <= polls.len(),
    decreases n,
{
    if n <= 0 {
        None
    } else {
        match polls[n - 1].lookup {
            Lookup::Found(vs) => Some(vs),
            Lookup::Unavailable => latest_known(polls, n - 1),
        }
    }
}

/// Whether the latest known snapshot before poll `n` leaves the watcher
/// armed: it placed the user outside `target`, or there was none and the
/// watcher started out armed.
pub open spec fn outside_before(start: Watcher, target: u64, polls: Seq<Poll>, n: int) -> bool {
    match latest_known(polls, n) {
        Some(vs) => !vs.is_in(target),
        None => start.armed(),
    }
}

/// However a cycle goes on, the watcher polls next in the same way: in
/// stage `Polling` and disarmed.
pub proof fn law_cycle_ends_disarmed(w: Watcher, config: WatchConfig, event: Event, session_free: bool)
    requires
        !w.stage.polls(),
    ensures
        w.transition(config, event, session_free).watcher.settled() == w.settled(),
        w.settled().stage is Polling,
        !w.settled().armed(),
{
}

/// A polling watcher is polling again after every poll, and it is armed
/// exactly if the poll's answer was a known state outside the target
/// channel, or was unavailable and the watcher was armed before.
pub proof fn law_poll_remembers(w: Watcher, config: WatchConfig, poll: Poll)
    requires
        w.stage.polls(),
    ensures
        w.polled(config, poll).stage.polls(),
        w.polled(config, poll).armed() == match poll.lookup {
            Lookup::Found(vs) => !vs.is_in(config.target_channel_id),
            Lookup::Unavailable => w.armed(),
        },
{
}

/// After any polls, a watcher that started out polling is polling, and is
/// armed exactly if the latest known snapshot placed its user outside the
/// target channel.
pub proof fn law_armed_iff_last_seen_outside(start: Watcher, config: WatchConfig, polls: Seq<Poll>, n: int)
    requires
        start.stage.polls(),
        0 <= n <= polls.len(),
    ensures
        start.polled_all(config, polls.take(n)).stage.polls(),
        start.polled_all(config, polls.take(n)).armed() == outside_before(
            start,
            config.target_channel_id,
            polls,
            n,
        ),
    decreases n,
{
    if n > 0 {
        law_armed_iff_last_seen_outside(start, config, polls, n - 1);
        assert(polls.take(n).drop_last() =~= polls.take(n - 1));
        assert(polls.take(n).last() == polls[n - 1]);
        law_poll_remembers(start.polled_all(config, polls.take(n - 1)), config, polls[n - 1]);
    }
}

/// Over every sequence of polls, poll `n` is taken for an entry if and only
/// if its snapshot places the user in the target channel and the latest
/// known snapshot before it did not. Where no snapshot was known before, the
/// watcher's start decides.
pub proof fn law_join_iff_entered(start: Watcher, config: WatchConfig, polls: Seq<Poll>, n: int)
    requires
        start.stage.polls(),
        0 <= n < polls.len(),
    ensures
        start.polled_all(config, polls.take(n)).detects_join(config.target_channel_id, polls[n].lookup)
            <==> polls[n].lookup.shows_in(config.target_channel_id) && outside_before(
            start,
            config.target_channel_id,
            polls,
            n,
        ),
        start.polled_all(config, polls.take(n)).transition(
            config,
            Event::Snapshot(polls[n].lookup),
            polls[n].session_free,
        ).watcher.stage.state() == WatchState::DetectedJoin
            <==> start.polled_all(config, polls.take(n)).detects_join(
            config.target_channel_id,
            polls[n].lookup,
        ),
{
    law_armed_iff_last_seen_outside(start, config, polls, n);
}

/// For two snapshots in a row: the second is taken for an entry if and only
/// if it places the user in the target channel and the first did not.
pub proof fn law_join_iff_channel_changed(
    w: Watcher,
    config: WatchConfig,
    before: VoiceState,
    now: VoiceState,
    session_free: bool,
)
    requires
        w.stage.polls(),
    ensures
        w.polled(config, Poll { lookup: Lookup::Found(before), session_free }).detects_join(
            config.target_channel_id,
            Lookup::Found(now),
        ) <==> now.is_in(config.target_channel_id) && !before.is_in(config.target_channel_id),
{
}

/// An unavailable answer is never taken for an entry: whatever came before,
/// the watcher stays exactly as it was, and a polling watcher polls again
/// after the usual interval.
pub proof fn law_unavailable_changes_nothing(w: Watcher, config: WatchConfig, session_free: bool)
    ensures
        !w.detects_join(config.target_channel_id, Lookup::Unavailable),
        w.transition(config, Event::Snapshot(Lookup::Unavailable), session_free).watcher == w,
        w.stage.polls() ==> w.transition(
            config,
            Event::Snapshot(Lookup::Unavailable),
            session_free,
        ).reply == Ok::<Action, StepError>(
            Action::Poll { delay_ms: config.poll_interval_ms },
        ),
{
}

/// Whether every poll of `polls` shows the user in `target` or shows
/// nothing: no snapshot places the user outside the channel.
pub open spec fn never_seen_outside(polls: Seq<Poll>, target: u64) -> bool {
    forall|k: int| 0 <= k < polls.len() ==> !(#[trigger] polls[k]).lookup.shows_outside(target)
}

/// After a cycle whose clip played, the watcher announces nothing for as
/// long as no snapshot shows its user outside the target channel: no poll is
/// taken for an entry, and the watcher stays as the cycle left it.
pub proof fn law_no_replay_while_present(
    w: Watcher,
    config: WatchConfig,
    leave_ok: bool,
    polls: Seq<Poll>,
    n: int,
)
    requires
        w.stage is Leaving,
        never_seen_outside(polls, config.target_channel_id),
        0 <= n <= polls.len(),
    ensures
        ({
            let done = w.transition(
                config,
                if leave_ok {
                    Event::Left
                } else {
                    Event::LeaveFailed
                },
                true,
            ).watcher;
            &&& done.stage.state() == WatchState::AwaitingJoin
            &&& done.polled_all(config, polls.take(n)) == done
            &&& n < polls.len() ==> !done.detects_join(config.target_channel_id, polls[n].lookup)
        }),
    decreases n,
{
    if n > 0 {
        law_no_replay_while_present(w, config, leave_ok, polls, n - 1);
        assert(polls.take(n).drop_last() =~= polls.take(n - 1));
        assert(polls.take(n).last() == polls[n - 1]);
        assert(!polls[n - 1].lookup.shows_outside(config.target_channel_id));
    }
}

/// At most one watcher's cycle occupies the shared session.
pub proof fn law_one_cycle_at_a_time(o: OrchestratorView, i: int, j: int)
    requires
        o.wf(),
        o.occupied_by(i),
        o.occupied_by(j),
    ensures
        i == j,
        o.holder == Some(i as usize),
{
    assert(o.watchers[i].stage.occupies_session());
    assert(o.watchers[j].stage.occupies_session());
}

/// Every step of every watcher keeps the invariant, and changes no watcher
/// but the one that took the event.
pub proof fn law_step_keeps_exclusion(o: OrchestratorView, index: usize, event: Event)
    requires
        o.wf(),
    ensures
        o.after(index, event).wf(),
        o.after(index, event).watchers.len() == o.watchers.len(),
        forall|k: int|
            0 <= k < o.watchers.len() && k != index ==> #[trigger] o.after(index, event).watchers[k]
                == o.watchers[k],
{
    if !o.stopped && index < o.watchers.len() {
        let next = o.watchers[index as int].transition(o.config, event, o.holder is None).watcher;
        let o2 = o.after(index, event);
        assert(o2.watchers[index as int] == next);
        assert forall|i: int| 0 <= i < o2.watchers.len() implies ((#[trigger] o2.watchers[i]).stage.occupies_session()
            <==> o2.holder == Some(i as usize)) by {
            assert(o.watchers[i].stage.occupies_session() <==> o.holder == Some(i as usize));
            assert(o.watchers[index as int].stage.occupies_session() <==> o.holder == Some(index));
        }
        assert forall|i: int| 0 <= i < o2.watchers.len() implies (#[trigger] o2.watchers[i]).user_id
            == o2.users[i].user_id by {
            assert(o.watchers[i].user_id == o.users[i].user_id);
        }
    }
}

/// After a shut-down every event is refused and nothing changes.
pub proof fn law_shut_down_is_final(o: OrchestratorView, index: usize, event: Event)
    requires
        o.stopped,
    ensures
        o.after(index, event) == o,
        o.reply(index, event) == Err::<Action, StepError>(StepError::ShutDown),
{
}

/// Two watchers that see their users enter in the same tick do not both
/// join: the first to report takes the session, and the second is queued,
/// not dropped.
pub proof fn law_same_tick_entries_serialize(
    o: OrchestratorView,
    first: usize,
    second: usize,
    a: Lookup,
    b: Lookup,
)
    requires
        o.wf(),
        !o.stopped,
        o.holder is None,
        first < o.watchers.len(),
        second < o.watchers.len(),
        first != second,
        o.watchers[first as int].detects_join(o.config.target_channel_id, a),
        o.watchers[second as int].detects_join(o.config.target_channel_id, b),
    ensures
        ({
            let o1 = o.after(first, Event::Snapshot(a));
            let o2 = o1.after(second, Event::Snapshot(b));
            &&& o1.watchers[first as int].stage is Joining
            &&& o2.watchers[first as int].stage is Joining
            &&& o2.watchers[second as int].stage is Queued
            &&& o2.holder == Some(first)
            &&& o1.reply(second, Event::Snapshot(b)) == Ok::<Action, StepError>(
                Action::AwaitSession { delay_ms: o.config.poll_interval_ms },
            )
        }),
{
}

/// A queued watcher joins with its first retry after the session is free,
/// and until then it stays queued and leaves the session to its holder.
pub proof fn law_queued_watcher_gets_its_turn(o: OrchestratorView, index: usize)
    requires
        o.wf(),
        !o.stopped,
        index < o.watchers.len(),
        o.watchers[index as int].stage is Queued,
    ensures
        o.holder is None ==> o.after(index, Event::SessionWaitElapsed).watchers[index as int].stage
            is Joining && o.after(index, Event::SessionWaitElapsed).holder == Some(index),
        o.holder is Some ==> o.after(index, Event::SessionWaitElapsed).watchers[index as int].stage
            is Queued && o.after(index, Event::SessionWaitElapsed).holder == o.holder,
{
}

/// A clip that cannot be sourced ends the cycle without a leave: the watcher
/// is back at awaiting a join, the session is held by nobody, and the answer
/// asks to drop the join at once and poll after the usual interval.
pub proof fn law_source_failure_releases(o: OrchestratorView, index: usize)
    requires
        o.wf(),
        !o.stopped,
        index < o.watchers.len(),
        o.watchers[index as int].stage is Starting,
    ensures
        o.after(index, Event::SourceError).wf(),
        o.after(index, Event::SourceError).holder is None,
        o.after(index, Event::SourceError).watchers[index as int].stage.state()
            == WatchState::AwaitingJoin,
        forall|k: int| !o.after(index, Event::SourceError).occupied_by(k),
        o.reply(index, Event::SourceError) == Ok::<Action, StepError>(
            Action::ReleaseAndPoll { delay_ms: o.config.poll_interval_ms },
        ),
{
    law_step_keeps_exclusion(o, index, Event::SourceError);
    let o2 = o.after(index, Event::SourceError);
    assert forall|k: int| !o2.occupied_by(k) by {
        if 0 <= k < o2.watchers.len() {
            assert(o2.watchers[k].stage.occupies_session() <==> o2.holder == Some(k as usize));
        }
    }
}

} // verus!
