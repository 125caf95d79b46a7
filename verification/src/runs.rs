//! What holds of every run of the engine, whatever its driver reports:
//! checkpoints only move forward, little progress is ever left unsaved, and
//! cancellation ends the run with at most one last write.

use vstd::prelude::*;
use crate::checkpoint::not_newer;
use crate::engine::Action;
use crate::engine::EngineView;
use crate::engine::Event;
use crate::engine::Phase;
use crate::engine::SyncConfig;

verus! {

/// The largest number of applied batches that a stored checkpoint can lag
/// behind: the save interval, and one where the interval is zero.
pub open spec fn replay_bound(interval: nat) -> nat {
    if interval == 0 {
        1
    } else {
        interval
    }
}

/// The number of batches applied since the store last took a checkpoint,
/// after the engine in state `s` has been handed `event`, where `k` batches
/// were unsaved before it.
pub open spec fn unsaved_next(s: EngineView, k: nat, event: Event) -> nat {
    if !s.accepts(event) {
        k
    } else if event == Event::Applied {
        k + 1
    } else if event == Event::CheckpointSaved {
        0
    } else {
        k
    }
}

/// The same number after a sequence of events, taken in order.
pub open spec fn unsaved_after(s: EngineView, k: nat, events: Seq<Event>) -> nat
    decreases events.len(),
{
    if events.len() == 0 {
        k
    } else {
        unsaved_after(s.after(events[0]), unsaved_next(s, k, events[0]), events.drop_first())
    }
}

/// No write of the checkpoint fails among `events`.
pub open spec fn writes_succeed(events: Seq<Event>) -> bool {
    forall|i: int| 0 <= i < events.len() ==> events[i] != Event::CheckpointFailed
}

/// How the count of unsaved batches relates to a state in a run whose writes
/// all succeed.
pub open spec fn window_holds(s: EngineView, k: nat) -> bool {
    &&& s.wf()
    &&& k <= replay_bound(s.interval)
    &&& k == 0 ==> s.persisted == s.last_applied
    &&& match s.phase {
        Phase::Checkpointing { .. } => k == replay_bound(s.interval),
        Phase::Flushing { .. } => true,
        Phase::Stopped => true,
        _ => k == s.since_save,
    }
}

/// One event keeps a consistent state consistent. It never moves the stored
/// checkpoint or the position backwards, and leaves the limits alone.
pub proof fn lemma_step_keeps_order(s: EngineView, event: Event)
    requires
        s.wf(),
    ensures
        s.after(event).wf(),
        not_newer(s.persisted, s.after(event).persisted),
        not_newer(s.last_applied, s.after(event).last_applied),
        s.after(event).interval == s.interval,
        s.after(event).timeout == s.timeout,
        s.after(event).backoff.base == s.backoff.base,
        s.after(event).backoff.max == s.backoff.max,
{
}

/// Taking two sequences of events one after the other is taking their
/// concatenation.
pub proof fn lemma_after_all_splits(s: EngineView, first: Seq<Event>, second: Seq<Event>)
    ensures
        s.after_all(first + second) == s.after_all(first).after_all(second),
    decreases first.len(),
{
    if first.len() == 0 {
        assert(first + second =~= second);
    } else {
        assert((first + second)[0] == first[0]);
        assert((first + second).drop_first() =~= first.drop_first() + second);
        lemma_after_all_splits(s.after(first[0]), first.drop_first(), second);
    }
}

/// In every run, from any consistent state: the stored checkpoint and the
/// position never move backwards, and a checkpoint write that the engine
/// asks for never carries an id older than what the store already holds.
pub proof fn lemma_checkpoint_monotonic(s: EngineView, events: Seq<Event>)
    requires
        s.wf(),
    ensures
        s.after_all(events).wf(),
        not_newer(s.persisted, s.after_all(events).persisted),
        not_newer(s.last_applied, s.after_all(events).last_applied),
        not_newer(s.after_all(events).persisted, s.after_all(events).last_applied),
        s.after_all(events).pending() matches Action::SaveCheckpoint { id } ==> not_newer(
            s.after_all(events).persisted,
            Some(id),
        ),
    decreases events.len(),
{
    if events.len() > 0 {
        lemma_step_keeps_order(s, events[0]);
        lemma_checkpoint_monotonic(s.after(events[0]), events.drop_first());
    }
}

/// One event of a run whose writes succeed keeps the count of unsaved
/// batches within its bound.
proof fn lemma_window_step(s: EngineView, k: nat, event: Event)
    requires
        window_holds(s, k),
        event != Event::CheckpointFailed,
    ensures
        window_holds(s.after(event), unsaved_next(s, k, event)),
{
}

proof fn lemma_window_run(s: EngineView, k: nat, events: Seq<Event>)
    requires
        window_holds(s, k),
        writes_succeed(events),
    ensures
        window_holds(s.after_all(events), unsaved_after(s, k, events)),
        s.after_all(events).interval == s.interval,
        s.after_all(events).timeout == s.timeout,
    decreases events.len(),
{
    if events.len() > 0 {
        let event = events[0];
        lemma_window_step(s, k, event);
        assert(writes_succeed(events.drop_first())) by {
            assert forall|i: int| 0 <= i < events.drop_first().len() implies events.drop_first()[i]
                != Event::CheckpointFailed by {
                assert(events.drop_first()[i] == events[i + 1]);
            }
        }
        lemma_window_run(s.after(event), unsaved_next(s, k, event), events.drop_first());
    }
}

/// In a run that starts from the stored checkpoint and in which no write of
/// the checkpoint fails, the batches applied since the store last took a
/// checkpoint are never more than the save interval, and fewer than it while
/// the engine fetches, applies, reconnects or sleeps. A run that starts
/// afterwards from what the store holds asks first for the updates that
/// follow that checkpoint, so no more than those batches are applied again.
pub proof fn lemma_replay_window(config: SyncConfig, loaded: Option<u64>, events: Seq<Event>)
    requires
        writes_succeed(events),
    ensures
        ({
            let start = EngineView::fresh(config, loaded);
            let end = start.after_all(events);
            let unsaved = unsaved_after(start, 0, events);
            let again = EngineView::fresh(config, end.persisted);
            &&& unsaved <= replay_bound(config.save_interval as nat)
            &&& (end.phase == Phase::Fetching || end.phase is Applying || end.phase
                == Phase::Reconnecting || end.phase == Phase::Sleeping) ==> unsaved
                < replay_bound(config.save_interval as nat) && unsaved == end.since_save
            &&& unsaved == 0 ==> end.persisted == end.last_applied
            &&& again.pending() == Action::Fetch {
                after: end.persisted,
                timeout_secs: config.operation_timeout_secs,
            }
            &&& again.last_applied == end.persisted
        }),
{
    let start = EngineView::fresh(config, loaded);
    assert(window_holds(start, 0));
    lemma_window_run(start, 0, events);
    lemma_checkpoint_monotonic(start, events);
}

/// A stopped engine takes no event and asks for nothing more.
pub proof fn lemma_stopped_is_final(s: EngineView, events: Seq<Event>)
    requires
        s.phase == Phase::Stopped,
    ensures
        s.after_all(events) == s,
        s.actions_of(events) == Seq::<Action>::empty(),
    decreases events.len(),
{
    if events.len() > 0 {
        lemma_stopped_is_final(s, events.drop_first());
    }
}

/// While the last write is under way the engine takes nothing but its
/// outcome, and then stops.
pub proof fn lemma_flush_then_stop(s: EngineView, events: Seq<Event>)
    requires
        s.phase is Flushing,
    ensures
        s.actions_of(events) == Seq::<Action>::empty() || s.actions_of(events) == seq![
            Action::Stop,
        ],
        s.actions_of(events) == seq![Action::Stop] ==> s.after_all(events).phase
            == Phase::Stopped,
        s.actions_of(events) == Seq::<Action>::empty() ==> s.after_all(events) == s,
    decreases events.len(),
{
    assert(seq![Action::Stop].len() == 1);
    if events.len() > 0 {
        let event = events[0];
        if s.accepts(event) {
            lemma_stopped_is_final(s.after(event), events.drop_first());
            assert(seq![Action::Stop] + Seq::<Action>::empty() =~= seq![Action::Stop]);
        } else {
            lemma_flush_then_stop(s, events.drop_first());
        }
    }
}

/// Cancellation, in whatever phase the engine takes it and whatever is
/// reported afterwards: where there is progress that the store does not hold,
/// the engine asks for exactly one checkpoint write, of the position reached,
/// and then only to stop; where there is none, it asks to stop at once.
/// It never asks for another fetch.
pub proof fn lemma_shutdown_flush(s: EngineView, rest: Seq<Event>)
    requires
        s.wf(),
        s.accepts(Event::ShutdownRequested),
    ensures
        ({
            let asked = s.actions_of(seq![Event::ShutdownRequested] + rest);
            if s.unpersisted() {
                let write = Action::SaveCheckpoint { id: s.last_applied->0 };
                asked == seq![write] || asked == seq![write, Action::Stop]
            } else {
                asked == seq![Action::Stop]
            }
        }),
{
    let events = seq![Event::ShutdownRequested] + rest;
    assert(events[0] == Event::ShutdownRequested);
    assert(events.drop_first() =~= rest);
    let next = s.after(Event::ShutdownRequested);
    assert(s.actions_of(events) == seq![next.pending()] + next.actions_of(rest));
    if s.unpersisted() {
        let write = Action::SaveCheckpoint { id: s.last_applied->0 };
        lemma_flush_then_stop(next, rest);
        assert(seq![write] + Seq::<Action>::empty() =~= seq![write]);
        assert(seq![write] + seq![Action::Stop] =~= seq![write, Action::Stop]);
    } else {
        lemma_stopped_is_final(next, rest);
        assert(seq![Action::Stop] + Seq::<Action>::empty() =~= seq![Action::Stop]);
    }
}

/// Finding nothing new is neither a failure nor progress: the engine sleeps
/// for the delay it already had, and nothing else changes.
pub proof fn lemma_idle_keeps_delay(s: EngineView)
    requires
        s.wf(),
        s.phase == Phase::Fetching,
    ensures
        s.after(Event::NothingNew).phase == Phase::Sleeping,
        s.after(Event::NothingNew).backoff == s.backoff,
        s.after(Event::NothingNew).last_applied == s.last_applied,
        s.after(Event::NothingNew).persisted == s.persisted,
        s.after(Event::NothingNew).since_save == s.since_save,
        s.after(Event::NothingNew).pending() == (Action::Sleep { secs: s.backoff.current as u64 }),
{
}

/// What the driver reports in one cycle whose fetch fails.
pub open spec fn failed_cycle() -> Seq<Event> {
    seq![Event::FetchFailed, Event::Reconnected, Event::SleepElapsed]
}

/// What the driver reports in `n` such cycles in a row.
pub open spec fn failed_cycles(n: nat) -> Seq<Event>
    decreases n,
{
    if n == 0 {
        Seq::empty()
    } else {
        failed_cycles((n - 1) as nat) + failed_cycle()
    }
}

/// After `n` failed cycles in a row the engine fetches again from where it
/// was, and its delay is the one that `n` failures lead to; the sleep of the
/// last of these cycles was of that delay. Nothing else has changed.
pub proof fn lemma_delay_after_failed_cycles(s: EngineView, n: nat)
    requires
        s.wf(),
        s.phase == Phase::Fetching,
    ensures
        s.after_all(failed_cycles(n)).phase == Phase::Fetching,
        s.after_all(failed_cycles(n)).backoff == s.backoff.failed_times(n),
        s.after_all(failed_cycles(n)).last_applied == s.last_applied,
        s.after_all(failed_cycles(n)).persisted == s.persisted,
        s.after_all(failed_cycles(n)).since_save == s.since_save,
        s.after_all(failed_cycles(n)).wf(),
        n >= 1 ==> s.after_all(
            failed_cycles((n - 1) as nat) + seq![Event::FetchFailed, Event::Reconnected],
        ).pending() == (Action::Sleep { secs: s.backoff.failed_times(n).current as u64 }),
    decreases n,
{
    if n > 0 {
        let before = failed_cycles((n - 1) as nat);
        lemma_delay_after_failed_cycles(s, (n - 1) as nat);
        let mid = s.after_all(before);
        lemma_after_all_splits(s, before, failed_cycle());
        let one = failed_cycle();
        let failed = mid.after(Event::FetchFailed);
        let reconnected = failed.after(Event::Reconnected);
        let slept = reconnected.after(Event::SleepElapsed);
        assert(one.drop_first() =~= seq![Event::Reconnected, Event::SleepElapsed]);
        assert(one.drop_first().drop_first() =~= seq![Event::SleepElapsed]);
        assert(one.drop_first().drop_first().drop_first() =~= Seq::<Event>::empty());
        assert(mid.after_all(one) == slept) by {
            reveal_with_fuel(EngineView::after_all, 4);
        }
        let two = seq![Event::FetchFailed, Event::Reconnected];
        lemma_after_all_splits(s, before, two);
        assert(two.drop_first() =~= seq![Event::Reconnected]);
        assert(two.drop_first().drop_first() =~= Seq::<Event>::empty());
        assert(mid.after_all(two) == reconnected) by {
            reveal_with_fuel(EngineView::after_all, 3);
        }
    }
}

} // verus!
