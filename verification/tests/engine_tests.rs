use kong_admin::engine::Action;
use kong_admin::engine::Engine;
use kong_admin::engine::Event;
use kong_admin::engine::Phase;
use kong_admin::engine::SyncConfig;
use kong_admin::engine::DEFAULT_BASE_DELAY_SECS;
use kong_admin::engine::DEFAULT_MAX_DELAY_SECS;
use kong_admin::engine::DEFAULT_OPERATION_TIMEOUT_SECS;
use kong_admin::engine::DEFAULT_SAVE_INTERVAL;

fn config(base: u64, interval: u64) -> SyncConfig {
    SyncConfig {
        base_delay_secs: base,
        max_delay_secs: 300,
        operation_timeout_secs: 300,
        save_interval: interval,
    }
}

fn successful_cycle(engine: &mut Engine, high_water: u64) -> Action {
    assert_eq!(
        engine.step(Event::BatchFetched { high_water, elapsed_secs: 0 }),
        Some(Action::Apply { high_water, timeout_secs: 300 })
    );
    engine.step(Event::Applied).unwrap()
}

#[test]
fn default_limits() {
    assert_eq!(DEFAULT_BASE_DELAY_SECS, 10);
    assert_eq!(DEFAULT_MAX_DELAY_SECS, 300);
    assert_eq!(DEFAULT_OPERATION_TIMEOUT_SECS, 300);
    assert_eq!(DEFAULT_SAVE_INTERVAL, 10);
    assert_eq!(SyncConfig::new(None), config(10, 10));
    assert_eq!(SyncConfig::new(Some(42)), config(42, 10));
}

#[test]
fn a_fresh_engine_fetches_from_the_loaded_checkpoint() {
    let engine = Engine::new(config(10, 10), None);
    assert_eq!(engine.phase(), Phase::Fetching);
    assert_eq!(engine.pending(), Action::Fetch { after: None, timeout_secs: 300 });
    assert_eq!(engine.last_applied(), None);
    assert_eq!(engine.persisted(), None);
    assert_eq!(engine.cycles_since_save(), 0);
    assert_eq!(engine.current_delay(), 10);
    assert!(!engine.is_stopped());

    let resumed = Engine::new(config(10, 10), Some(700));
    assert_eq!(resumed.pending(), Action::Fetch { after: Some(700), timeout_secs: 300 });
    assert_eq!(resumed.last_applied(), Some(700));
    assert_eq!(resumed.persisted(), Some(700));
}

#[test]
fn first_successful_cycle_skips_the_checkpoint() {
    let mut engine = Engine::new(config(10, 10), None);
    let next = successful_cycle(&mut engine, 100);
    assert_eq!(next, Action::Sleep { secs: 10 });
    assert_eq!(engine.last_applied(), Some(100));
    assert_eq!(engine.persisted(), None);
    assert_eq!(engine.cycles_since_save(), 1);
    assert_eq!(
        engine.step(Event::SleepElapsed),
        Some(Action::Fetch { after: Some(100), timeout_secs: 300 })
    );
}

#[test]
fn ten_successful_cycles_save_once() {
    let mut engine = Engine::new(config(10, 10), None);
    let mut saves: Vec<u64> = Vec::new();
    for cycle in 1..=10u64 {
        let mut next = successful_cycle(&mut engine, cycle * 100);
        if let Action::SaveCheckpoint { id } = next {
            saves.push(id);
            next = engine.step(Event::CheckpointSaved).unwrap();
        }
        assert_eq!(next, Action::Sleep { secs: 10 });
        assert_eq!(
            engine.step(Event::SleepElapsed),
            Some(Action::Fetch { after: Some(cycle * 100), timeout_secs: 300 })
        );
    }
    assert_eq!(saves, vec![1000]);
    assert_eq!(engine.persisted(), Some(1000));
    assert_eq!(engine.last_applied(), Some(1000));
    assert_eq!(engine.cycles_since_save(), 0);
}

#[test]
fn two_timeouts_then_a_success() {
    let b: u64 = 10;
    let mut engine = Engine::new(config(b, 10), None);
    assert_eq!(engine.current_delay(), b);
    assert_eq!(engine.step(Event::FetchFailed), Some(Action::Reconnect));
    assert_eq!(engine.step(Event::Reconnected), Some(Action::Sleep { secs: 2 * b }));
    assert_eq!(
        engine.step(Event::SleepElapsed),
        Some(Action::Fetch { after: None, timeout_secs: 300 })
    );
    assert_eq!(engine.step(Event::FetchFailed), Some(Action::Reconnect));
    assert_eq!(engine.step(Event::Reconnected), Some(Action::Sleep { secs: 4 * b }));
    engine.step(Event::SleepElapsed);
    assert_eq!(successful_cycle(&mut engine, 5), Action::Sleep { secs: b });
    assert_eq!(engine.current_delay(), b);
}

#[test]
fn apply_failure_backs_off_and_reconnects() {
    let mut engine = Engine::new(config(10, 10), Some(40));
    engine.step(Event::BatchFetched { high_water: 50, elapsed_secs: 0 });
    assert_eq!(engine.step(Event::ApplyFailed), Some(Action::Reconnect));
    assert_eq!(engine.phase(), Phase::Reconnecting);
    assert_eq!(engine.last_applied(), Some(40));
    assert_eq!(engine.cycles_since_save(), 0);
    assert_eq!(engine.step(Event::ReconnectFailed), Some(Action::Sleep { secs: 20 }));
    assert_eq!(
        engine.step(Event::SleepElapsed),
        Some(Action::Fetch { after: Some(40), timeout_secs: 300 })
    );
}

#[test]
fn repeated_failures_are_capped() {
    let mut engine = Engine::new(config(10, 10), None);
    let mut delays: Vec<u64> = Vec::new();
    for _ in 0..7 {
        engine.step(Event::FetchFailed);
        match engine.step(Event::Reconnected) {
            Some(Action::Sleep { secs }) => delays.push(secs),
            other => panic!("unexpected {:?}", other),
        }
        engine.step(Event::SleepElapsed);
    }
    assert_eq!(delays, vec![20, 40, 80, 160, 300, 300, 300]);
}

#[test]
fn nothing_new_sleeps_with_the_current_delay() {
    let mut engine = Engine::new(config(10, 10), Some(7));
    assert_eq!(engine.step(Event::NothingNew), Some(Action::Sleep { secs: 10 }));
    engine.step(Event::SleepElapsed);
    engine.step(Event::FetchFailed);
    engine.step(Event::Reconnected);
    engine.step(Event::SleepElapsed);
    assert_eq!(engine.step(Event::NothingNew), Some(Action::Sleep { secs: 20 }));
    assert_eq!(engine.current_delay(), 20);
    assert_eq!(engine.cycles_since_save(), 0);
    assert_eq!(engine.last_applied(), Some(7));
}

#[test]
fn a_failed_checkpoint_write_does_not_block_progress() {
    let mut engine = Engine::new(config(10, 2), None);
    assert_eq!(successful_cycle(&mut engine, 1), Action::Sleep { secs: 10 });
    engine.step(Event::SleepElapsed);
    assert_eq!(successful_cycle(&mut engine, 2), Action::SaveCheckpoint { id: 2 });
    assert_eq!(engine.phase(), Phase::Checkpointing { id: 2 });
    assert_eq!(engine.step(Event::CheckpointFailed), Some(Action::Sleep { secs: 10 }));
    assert_eq!(engine.persisted(), None);
    assert_eq!(engine.last_applied(), Some(2));
    assert_eq!(engine.cycles_since_save(), 0);
    engine.step(Event::SleepElapsed);
    assert_eq!(successful_cycle(&mut engine, 3), Action::Sleep { secs: 10 });
    engine.step(Event::SleepElapsed);
    assert_eq!(successful_cycle(&mut engine, 4), Action::SaveCheckpoint { id: 4 });
    assert_eq!(engine.step(Event::CheckpointSaved), Some(Action::Sleep { secs: 10 }));
    assert_eq!(engine.persisted(), Some(4));
}

#[test]
fn saved_ids_never_decrease() {
    let mut engine = Engine::new(config(10, 1), Some(500));
    let feed = [600u64, 550, 10, 700, 700, 0, 701];
    let mut saves: Vec<u64> = Vec::new();
    for high_water in feed {
        let before = engine.persisted();
        match successful_cycle(&mut engine, high_water) {
            Action::SaveCheckpoint { id } => {
                assert!(before.map_or(true, |p| p <= id));
                saves.push(id);
            }
            other => panic!("unexpected {:?}", other),
        }
        engine.step(Event::CheckpointSaved);
        assert!(engine.persisted() >= before);
        engine.step(Event::SleepElapsed);
    }
    assert_eq!(saves, vec![600, 600, 600, 700, 700, 700, 701]);
    assert_eq!(engine.last_applied(), Some(701));
}

#[test]
fn unsaved_cycles_stay_below_the_interval() {
    let interval: u64 = 4;
    let mut engine = Engine::new(config(10, interval), None);
    let mut unsaved: u64 = 0;
    for cycle in 1..=25u64 {
        let mut next = successful_cycle(&mut engine, cycle);
        unsaved += 1;
        if let Action::SaveCheckpoint { id } = next {
            assert_eq!(unsaved, interval);
            assert_eq!(id, cycle);
            next = engine.step(Event::CheckpointSaved).unwrap();
            unsaved = 0;
        }
        assert_eq!(next, Action::Sleep { secs: 10 });
        assert!(unsaved < interval);
        assert_eq!(engine.cycles_since_save(), unsaved);
        let resumed = Engine::new(config(10, interval), engine.persisted());
        assert_eq!(
            resumed.pending(),
            Action::Fetch { after: engine.persisted(), timeout_secs: 300 }
        );
        assert_eq!(engine.persisted(), if cycle >= interval { Some(cycle - unsaved) } else { None });
        engine.step(Event::SleepElapsed);
    }
}

#[test]
fn zero_interval_saves_after_every_cycle() {
    let mut engine = Engine::new(config(10, 0), None);
    assert_eq!(successful_cycle(&mut engine, 9), Action::SaveCheckpoint { id: 9 });
    engine.step(Event::CheckpointSaved);
    engine.step(Event::SleepElapsed);
    assert_eq!(successful_cycle(&mut engine, 12), Action::SaveCheckpoint { id: 12 });
}

#[test]
fn shutdown_mid_sleep_flushes_once_and_stops() {
    let mut engine = Engine::new(config(10, 10), None);
    assert_eq!(successful_cycle(&mut engine, 100), Action::Sleep { secs: 10 });
    assert_eq!(engine.phase(), Phase::Sleeping);
    assert_eq!(
        engine.step(Event::ShutdownRequested),
        Some(Action::SaveCheckpoint { id: 100 })
    );
    assert_eq!(engine.phase(), Phase::Flushing { id: 100 });
    assert_eq!(engine.step(Event::SleepElapsed), None);
    assert_eq!(engine.step(Event::ShutdownRequested), None);
    assert_eq!(engine.step(Event::CheckpointSaved), Some(Action::Stop));
    assert!(engine.is_stopped());
    assert_eq!(engine.persisted(), Some(100));
    let all = [
        Event::BatchFetched { high_water: 1, elapsed_secs: 0 },
        Event::NothingNew,
        Event::FetchFailed,
        Event::Applied,
        Event::ApplyFailed,
        Event::CheckpointSaved,
        Event::CheckpointFailed,
        Event::Reconnected,
        Event::ReconnectFailed,
        Event::SleepElapsed,
        Event::ShutdownRequested,
    ];
    for event in all {
        assert_eq!(engine.step(event), None);
        assert_eq!(engine.pending(), Action::Stop);
    }
}

#[test]
fn shutdown_without_progress_stops_at_once() {
    let mut engine = Engine::new(config(10, 10), Some(100));
    engine.step(Event::NothingNew);
    assert_eq!(engine.step(Event::ShutdownRequested), Some(Action::Stop));
    assert!(engine.is_stopped());
    assert_eq!(engine.persisted(), Some(100));

    let mut empty = Engine::new(config(10, 10), None);
    assert_eq!(empty.step(Event::ShutdownRequested), Some(Action::Stop));
}

#[test]
fn a_failed_final_write_still_stops() {
    let mut engine = Engine::new(config(10, 10), Some(1));
    successful_cycle(&mut engine, 2);
    assert_eq!(engine.step(Event::ShutdownRequested), Some(Action::SaveCheckpoint { id: 2 }));
    assert_eq!(engine.step(Event::CheckpointFailed), Some(Action::Stop));
    assert!(engine.is_stopped());
    assert_eq!(engine.persisted(), Some(1));
    assert_eq!(engine.last_applied(), Some(2));
}

#[test]
fn shutdown_is_taken_in_every_running_phase() {
    let mut fetching = Engine::new(config(10, 10), Some(5));
    assert_eq!(fetching.step(Event::ShutdownRequested), Some(Action::Stop));

    let mut applying = Engine::new(config(10, 10), Some(5));
    applying.step(Event::BatchFetched { high_water: 6, elapsed_secs: 0 });
    assert_eq!(applying.step(Event::ShutdownRequested), Some(Action::Stop));
    assert_eq!(applying.last_applied(), Some(5));

    let mut checkpointing = Engine::new(config(10, 1), Some(5));
    assert_eq!(successful_cycle(&mut checkpointing, 6), Action::SaveCheckpoint { id: 6 });
    assert_eq!(
        checkpointing.step(Event::ShutdownRequested),
        Some(Action::SaveCheckpoint { id: 6 })
    );
    assert_eq!(checkpointing.phase(), Phase::Flushing { id: 6 });

    let mut reconnecting = Engine::new(config(10, 10), Some(5));
    reconnecting.step(Event::FetchFailed);
    assert_eq!(reconnecting.step(Event::ShutdownRequested), Some(Action::Stop));
}

#[test]
fn events_out_of_turn_are_refused() {
    let mut engine = Engine::new(config(10, 10), None);
    let before = engine.pending();
    for event in [
        Event::Applied,
        Event::ApplyFailed,
        Event::CheckpointSaved,
        Event::CheckpointFailed,
        Event::Reconnected,
        Event::ReconnectFailed,
        Event::SleepElapsed,
    ] {
        assert!(!engine.accepts(event));
        assert_eq!(engine.step(event), None);
        assert_eq!(engine.pending(), before);
        assert_eq!(engine.phase(), Phase::Fetching);
    }
    assert!(engine.accepts(Event::NothingNew));
    engine.step(Event::NothingNew);
    assert_eq!(engine.step(Event::NothingNew), None);
    assert_eq!(engine.step(Event::BatchFetched { high_water: 3, elapsed_secs: 0 }), None);
    assert_eq!(engine.phase(), Phase::Sleeping);
}

#[test]
fn a_batch_that_goes_backwards_does_not_move_the_position() {
    let mut engine = Engine::new(config(10, 10), Some(100));
    assert_eq!(successful_cycle(&mut engine, 40), Action::Sleep { secs: 10 });
    assert_eq!(engine.last_applied(), Some(100));
    assert_eq!(engine.cycles_since_save(), 1);
    assert_eq!(engine.step(Event::ShutdownRequested), Some(Action::Stop));
}

#[test]
fn apply_gets_what_the_fetch_left_of_the_time() {
    let mut engine = Engine::new(config(10, 10), None);
    assert_eq!(
        engine.step(Event::BatchFetched { high_water: 8, elapsed_secs: 120 }),
        Some(Action::Apply { high_water: 8, timeout_secs: 180 })
    );
    assert_eq!(engine.phase(), Phase::Applying { high_water: 8, budget_secs: 180 });
    assert_eq!(engine.step(Event::Applied), Some(Action::Sleep { secs: 10 }));
    engine.step(Event::SleepElapsed);
    assert_eq!(
        engine.step(Event::BatchFetched { high_water: 9, elapsed_secs: 299 }),
        Some(Action::Apply { high_water: 9, timeout_secs: 1 })
    );
}

#[test]
fn a_fetch_that_used_all_the_time_counts_as_a_timeout() {
    let mut engine = Engine::new(config(10, 10), Some(3));
    assert_eq!(
        engine.step(Event::BatchFetched { high_water: 8, elapsed_secs: 300 }),
        Some(Action::Reconnect)
    );
    assert_eq!(engine.last_applied(), Some(3));
    assert_eq!(engine.step(Event::Reconnected), Some(Action::Sleep { secs: 20 }));
    engine.step(Event::SleepElapsed);
    assert_eq!(
        engine.step(Event::BatchFetched { high_water: 8, elapsed_secs: u64::MAX }),
        Some(Action::Reconnect)
    );
    assert_eq!(engine.step(Event::ReconnectFailed), Some(Action::Sleep { secs: 40 }));
}
