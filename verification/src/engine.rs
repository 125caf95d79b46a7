//! The polling cycle as a state machine. The engine owns every decision of
//! the cycle: what to do next, how long to sleep, when to persist the
//! checkpoint and when to stop. Its driver only performs the action that the
//! engine asks for and reports what happened.

use vstd::prelude::*;
use crate::backoff::BackoffState;
use crate::backoff::BackoffView;
use crate::checkpoint::advance;
use crate::checkpoint::advanced;
use crate::checkpoint::not_newer;

verus! {

/// Base delay between cycles when none is configured, in seconds.
pub const DEFAULT_BASE_DELAY_SECS: u64 = 10;

/// Largest delay that repeated failures can lead to, in seconds.
pub const DEFAULT_MAX_DELAY_SECS: u64 = 300;

/// Time allowed for the fetch and the apply of one cycle together, in seconds.
pub const DEFAULT_OPERATION_TIMEOUT_SECS: u64 = 300;

/// Number of successful cycles between two checkpoint writes.
pub const DEFAULT_SAVE_INTERVAL: u64 = 10;

/// Tunable limits of the polling cycle.
#[derive(Clone, Copy, Debug, PartialEq, Eq)]
pub struct SyncConfig {
    pub base_delay_secs: u64,
    pub max_delay_secs: u64,
    pub operation_timeout_secs: u64,
    pub save_interval: u64,
}

impl SyncConfig {
    /// The default limits with the given base delay, or the default base
    /// delay where none is given.
    pub fn new(base_delay_secs: Option<u64>) -> (config: SyncConfig)
        ensures
            config.base_delay_secs == match base_delay_secs {
                Some(secs) => secs,
                None => DEFAULT_BASE_DELAY_SECS,
            },
            config.max_delay_secs == DEFAULT_MAX_DELAY_SECS,
            config.operation_timeout_secs == DEFAULT_OPERATION_TIMEOUT_SECS,
            config.save_interval == DEFAULT_SAVE_INTERVAL,
    {
        let base: u64 = match base_delay_secs {
            Some(secs) => secs,
            None => DEFAULT_BASE_DELAY_SECS,
        };
        SyncConfig {
            base_delay_secs: base,
            max_delay_secs: DEFAULT_MAX_DELAY_SECS,
            operation_timeout_secs: DEFAULT_OPERATION_TIMEOUT_SECS,
            save_interval: DEFAULT_SAVE_INTERVAL,
        }
    }
}

/// What the engine is waiting for.
#[derive(Clone, Copy, Debug, PartialEq, Eq)]
pub enum Phase {
    /// The next batch is being fetched.
    Fetching,
    /// A fetched batch with this high-water id is being applied, with this
    /// much of the cycle's time left.
    Applying { high_water: u64, budget_secs: u64 },
    /// The periodic checkpoint write of this id is under way.
    Checkpointing { id: u64 },
    /// The store handle is being replaced after a failure.
    Reconnecting,
    /// The engine waits for the delay to pass or for cancellation.
    Sleeping,
    /// The final checkpoint write of this id is under way.
    Flushing { id: u64 },
    /// The engine has stopped for good.
    Stopped,
}

/// What the driver reports back to the engine.
#[derive(Clone, Copy, Debug, PartialEq, Eq)]
pub enum Event {
    /// The fetch returned a batch whose last update has this id, after this
    /// many whole seconds.
    BatchFetched { high_water: u64, elapsed_secs: u64 },
    /// The fetch found nothing newer than the last applied update.
    NothingNew,
    /// The fetch returned an error or ran out of time.
    FetchFailed,
    /// Every update of the batch was applied.
    Applied,
    /// Applying the batch returned an error or ran out of time.
    ApplyFailed,
    /// The checkpoint was written.
    CheckpointSaved,
    /// The checkpoint could not be written.
    CheckpointFailed,
    /// A new store handle is in place.
    Reconnected,
    /// No new store handle could be had; the old one stays.
    ReconnectFailed,
    /// The delay has passed.
    SleepElapsed,
    /// Cancellation was requested.
    ShutdownRequested,
}

/// What the engine asks its driver to do.
#[derive(Clone, Copy, Debug, PartialEq, Eq)]
pub enum Action {
    /// Fetch the updates that follow `after`, within `timeout_secs`.
    Fetch { after: Option<u64>, timeout_secs: u64 },
    /// Apply the batch that was fetched, within `timeout_secs`: what the
    /// fetch has left of the cycle's time.
    Apply { high_water: u64, timeout_secs: u64 },
    /// Write `id` as the checkpoint.
    SaveCheckpoint { id: u64 },
    /// Discard the store handle and acquire a new one.
    Reconnect,
    /// Wait `secs` seconds, or until cancellation is requested.
    Sleep { secs: u64 },
    /// Return to the caller; nothing more will be asked.
    Stop,
}

/// Mathematical model of an [`Engine`].
pub struct EngineView {
    /// Delay policy.
    pub backoff: BackoffView,
    /// Seconds allowed for the fetch and the apply of one cycle together.
    pub timeout: nat,
    /// Successful cycles between two checkpoint writes.
    pub interval: nat,
    /// High-water id of the last batch that was applied, if any.
    pub last_applied: Option<u64>,
    /// The checkpoint that the store is known to hold, if any.
    pub persisted: Option<u64>,
    /// Successful cycles since the last checkpoint write was issued.
    pub since_save: nat,
    /// What the engine is waiting for.
    pub phase: Phase,
}

impl EngineView {
    /// The state of an engine that starts from the checkpoint `loaded`.
    pub open spec fn fresh(config: SyncConfig, loaded: Option<u64>) -> EngineView {
        EngineView {
            backoff: BackoffView {
                current: config.base_delay_secs as nat,
                base: config.base_delay_secs as nat,
                max: config.max_delay_secs as nat,
            },
            timeout: config.operation_timeout_secs as nat,
            interval: config.save_interval as nat,
            last_applied: loaded,
            persisted: loaded,
            since_save: 0,
            phase: Phase::Fetching,
        }
    }

    /// The consistency that every reachable state has.
    pub open spec fn wf(self) -> bool {
        &&& self.backoff.current <= u64::MAX
        &&& self.backoff.base <= u64::MAX
        &&& self.backoff.max <= u64::MAX
        &&& self.timeout <= u64::MAX
        &&& self.interval <= u64::MAX
        &&& self.since_save == 0 || self.since_save < self.interval
        &&& not_newer(self.persisted, self.last_applied)
        &&& match self.phase {
            Phase::Checkpointing { id } => self.last_applied == Some(id) && self.since_save == 0,
            Phase::Flushing { id } => self.last_applied == Some(id),
            Phase::Applying { budget_secs, .. } => 0 < budget_secs <= self.timeout,
            _ => true,
        }
    }

    /// Progress has been made that the store does not hold yet.
    pub open spec fn unpersisted(self) -> bool {
        self.last_applied is Some && self.last_applied != self.persisted
    }

    /// Whether `event` answers what the engine is waiting for. Cancellation
    /// is taken in every phase but the two last ones.
    pub open spec fn accepts(self, event: Event) -> bool {
        match (self.phase, event) {
            (Phase::Stopped, _) => false,
            (Phase::Flushing { .. }, Event::CheckpointSaved) => true,
            (Phase::Flushing { .. }, Event::CheckpointFailed) => true,
            (Phase::Flushing { .. }, _) => false,
            (_, Event::ShutdownRequested) => true,
            (Phase::Fetching, Event::BatchFetched { .. }) => true,
            (Phase::Fetching, Event::NothingNew) => true,
            (Phase::Fetching, Event::FetchFailed) => true,
            (Phase::Applying { .. }, Event::Applied) => true,
            (Phase::Applying { .. }, Event::ApplyFailed) => true,
            (Phase::Checkpointing { .. }, Event::CheckpointSaved) => true,
            (Phase::Checkpointing { .. }, Event::CheckpointFailed) => true,
            (Phase::Reconnecting, Event::Reconnected) => true,
            (Phase::Reconnecting, Event::ReconnectFailed) => true,
            (Phase::Sleeping, Event::SleepElapsed) => true,
            _ => false,
        }
    }

    /// The state after a batch was fetched in `elapsed_secs` seconds: the
    /// batch is applied in the time that is left, and where none is left the
    /// cycle has run out of time, which is a failure.
    pub open spec fn after_fetched(self, high_water: u64, elapsed_secs: u64) -> EngineView {
        if elapsed_secs < self.timeout {
            EngineView {
                phase: Phase::Applying {
                    high_water,
                    budget_secs: (self.timeout - elapsed_secs) as u64,
                },
                ..self
            }
        } else {
            self.after_failure()
        }
    }

    /// The state after a fetch or an apply failed: the delay grows and the
    /// store handle is replaced before the engine sleeps.
    pub open spec fn after_failure(self) -> EngineView {
        EngineView { backoff: self.backoff.failed(), phase: Phase::Reconnecting, ..self }
    }

    /// The state after a batch with high-water id `high_water` was applied:
    /// the position advances, the delay is the base delay again, and every
    /// `interval` successes a checkpoint write is due.
    pub open spec fn after_applied(self, high_water: u64) -> EngineView {
        let position = advanced(self.last_applied, high_water);
        if self.since_save + 1 >= self.interval {
            EngineView {
                backoff: self.backoff.reset(),
                last_applied: position,
                since_save: 0,
                phase: Phase::Checkpointing { id: position->0 },
                ..self
            }
        } else {
            EngineView {
                backoff: self.backoff.reset(),
                last_applied: position,
                since_save: self.since_save + 1,
                phase: Phase::Sleeping,
                ..self
            }
        }
    }

    /// The state after cancellation: one last checkpoint write if there is
    /// progress that the store does not hold, else the end.
    pub open spec fn after_shutdown(self) -> EngineView {
        if self.unpersisted() {
            EngineView { phase: Phase::Flushing { id: self.last_applied->0 }, ..self }
        } else {
            EngineView { phase: Phase::Stopped, ..self }
        }
    }

    /// The state after `event`. An event that the engine does not accept
    /// leaves the state as it is.
    pub open spec fn after(self, event: Event) -> EngineView {
        if !self.accepts(event) {
            self
        } else {
            match (self.phase, event) {
                (_, Event::ShutdownRequested) => self.after_shutdown(),
                (Phase::Fetching, Event::BatchFetched { high_water, elapsed_secs }) => self.after_fetched(
                    high_water,
                    elapsed_secs,
                ),
                (Phase::Fetching, Event::NothingNew) => EngineView {
                    phase: Phase::Sleeping,
                    ..self
                },
                (Phase::Fetching, Event::FetchFailed) => self.after_failure(),
                (Phase::Applying { high_water, .. }, Event::Applied) => self.after_applied(
                    high_water,
                ),
                (Phase::Applying { .. }, Event::ApplyFailed) => self.after_failure(),
                (Phase::Checkpointing { id }, Event::CheckpointSaved) => EngineView {
                    persisted: Some(id),
                    phase: Phase::Sleeping,
                    ..self
                },
                (Phase::Checkpointing { .. }, Event::CheckpointFailed) => EngineView {
                    phase: Phase::Sleeping,
                    ..self
                },
                (Phase::Reconnecting, _) => EngineView { phase: Phase::Sleeping, ..self },
                (Phase::Sleeping, _) => EngineView { phase: Phase::Fetching, ..self },
                (Phase::Flushing { id }, Event::CheckpointSaved) => EngineView {
                    persisted: Some(id),
                    phase: Phase::Stopped,
                    ..self
                },
                (Phase::Flushing { .. }, _) => EngineView { phase: Phase::Stopped, ..self },
                _ => self,
            }
        }
    }

    /// What the driver has to do while the engine is in this state.
    pub open spec fn pending(self) -> Action {
        match self.phase {
            Phase::Fetching => Action::Fetch {
                after: self.last_applied,
                timeout_secs: self.timeout as u64,
            },
            Phase::Applying { high_water, budget_secs } => Action::Apply {
                high_water,
                timeout_secs: budget_secs,
            },
            Phase::Checkpointing { id } => Action::SaveCheckpoint { id },
            Phase::Reconnecting => Action::Reconnect,
            Phase::Sleeping => Action::Sleep { secs: self.backoff.current as u64 },
            Phase::Flushing { id } => Action::SaveCheckpoint { id },
            Phase::Stopped => Action::Stop,
        }
    }

    /// The state after a sequence of events, taken in order.
    pub open spec fn after_all(self, events: Seq<Event>) -> EngineView
        decreases events.len(),
    {
        if events.len() == 0 {
            self
        } else {
            self.after(events[0]).after_all(events.drop_first())
        }
    }

    /// The actions that the engine asks for while it takes a sequence of
    /// events: one for each event that it accepts, in order.
    pub open spec fn actions_of(self, events: Seq<Event>) -> Seq<Action>
        decreases events.len(),
    {
        if events.len() == 0 {
            Seq::empty()
        } else if self.accepts(events[0]) {
            seq![self.after(events[0]).pending()] + self.after(events[0]).actions_of(
                events.drop_first(),
            )
        } else {
            self.actions_of(events.drop_first())
        }
    }
}

/// The polling cycle: delay policy, position in the feed, and checkpoint
/// bookkeeping.
#[derive(Clone, Copy, Debug)]
pub struct Engine {
    backoff: BackoffState,
    timeout_secs: u64,
    save_interval: u64,
    last_applied: Option<u64>,
    persisted: Option<u64>,
    since_save: u64,
    phase: Phase,
}

impl View for Engine {
    type V = EngineView;

    closed spec fn view(&self) -> EngineView {
        EngineView {
            backoff: self.backoff@,
            timeout: self.timeout_secs as nat,
            interval: self.save_interval as nat,
            last_applied: self.last_applied,
            persisted: self.persisted,
            since_save: self.since_save as nat,
            phase: self.phase,
        }
    }
}

impl Engine {
    #[verifier::type_invariant]
    spec fn consistent(self) -> bool {
        self@.wf()
    }

    /// An engine that resumes from the checkpoint `loaded`, or from the
    /// beginning of the feed where there is none. It starts by fetching.
    pub fn new(config: SyncConfig, loaded: Option<u64>) -> (engine: Engine)
        ensures
            engine@ == EngineView::fresh(config, loaded),
            engine@.wf(),
    {
        Engine {
            backoff: BackoffState::new(config.base_delay_secs, config.max_delay_secs),
            timeout_secs: config.operation_timeout_secs,
            save_interval: config.save_interval,
            last_applied: loaded,
            persisted: loaded,
            since_save: 0,
            phase: Phase::Fetching,
        }
    }

    /// What the engine is waiting for.
    pub fn phase(&self) -> (phase: Phase)
        ensures
            phase == self@.phase,
    {
        self.phase
    }

    /// High-water id of the last batch that was applied, if any.
    pub fn last_applied(&self) -> (id: Option<u64>)
        ensures
            id == self@.last_applied,
    {
        self.last_applied
    }

    /// The checkpoint that the store is known to hold, if any.
    pub fn persisted(&self) -> (id: Option<u64>)
        ensures
            id == self@.persisted,
            not_newer(id, self@.last_applied),
    {
        proof {
            use_type_invariant(self);
        }
        self.persisted
    }

    /// Successful cycles since the last checkpoint write was issued.
    pub fn cycles_since_save(&self) -> (n: u64)
        ensures
            n as nat == self@.since_save,
            n == 0 || n < self@.interval,
    {
        proof {
            use_type_invariant(self);
        }
        self.since_save
    }

    /// The delay of the next sleep, in seconds.
    pub fn current_delay(&self) -> (secs: u64)
        ensures
            secs as nat == self@.backoff.current,
    {
        self.backoff.current_delay()
    }

    /// Whether the engine has stopped for good.
    pub fn is_stopped(&self) -> (stopped: bool)
        ensures
            stopped == (self@.phase == Phase::Stopped),
    {
        match self.phase {
            Phase::Stopped => true,
            _ => false,
        }
    }

    /// What the driver has to do now.
    pub fn pending(&self) -> (action: Action)
        ensures
            action == self@.pending(),
            self@.wf(),
    {
        proof {
            use_type_invariant(self);
        }
        match self.phase {
            Phase::Fetching => Action::Fetch {
                after: self.last_applied,
                timeout_secs: self.timeout_secs,
            },
            Phase::Applying { high_water, budget_secs } => Action::Apply {
                high_water,
                timeout_secs: budget_secs,
            },
            Phase::Checkpointing { id } => Action::SaveCheckpoint { id },
            Phase::Reconnecting => Action::Reconnect,
            Phase::Sleeping => Action::Sleep { secs: self.backoff.current_delay() },
            Phase::Flushing { id } => Action::SaveCheckpoint { id },
            Phase::Stopped => Action::Stop,
        }
    }

    /// Whether `event` answers what the engine is waiting for.
    pub fn accepts(&self, event: Event) -> (accepted: bool)
        ensures
            accepted == self@.accepts(event),
    {
        match self.phase {
            Phase::Stopped => false,
            Phase::Flushing { .. } => match event {
                Event::CheckpointSaved => true,
                Event::CheckpointFailed => true,
                _ => false,
            },
            Phase::Fetching => match event {
                Event::ShutdownRequested => true,
                Event::BatchFetched { .. } => true,
                Event::NothingNew => true,
                Event::FetchFailed => true,
                _ => false,
            },
            Phase::Applying { .. } => match event {
                Event::ShutdownRequested => true,
                Event::Applied => true,
                Event::ApplyFailed => true,
                _ => false,
            },
            Phase::Checkpointing { .. } => match event {
                Event::ShutdownRequested => true,
                Event::CheckpointSaved => true,
                Event::CheckpointFailed => true,
                _ => false,
            },
            Phase::Reconnecting => match event {
                Event::ShutdownRequested => true,
                Event::Reconnected => true,
                Event::ReconnectFailed => true,
                _ => false,
            },
            Phase::Sleeping => match event {
                Event::ShutdownRequested => true,
                Event::SleepElapsed => true,
                _ => false,
            },
        }
    }

    /// Takes what the driver reports and says what to do next. An event that
    /// does not answer what the engine is waiting for is refused: the result
    /// is `None` and the engine stays as it was.
    pub fn step(&mut self, event: Event) -> (next: Option<Action>)
        ensures
            old(self)@.wf(),
            final(self)@.wf(),
            final(self)@ == old(self)@.after(event),
            next == if old(self)@.accepts(event) {
                Some(final(self)@.pending())
            } else {
                None
            },
    {
        proof {
            use_type_invariant(&*self);
        }
        if !self.accepts(event) {
            return None;
        }
        let mut backoff: BackoffState = self.backoff;
        let mut last_applied: Option<u64> = self.last_applied;
        let mut persisted: Option<u64> = self.persisted;
        let mut since_save: u64 = self.since_save;
        let phase: Phase = match event {
            Event::ShutdownRequested => match self.last_applied {
                Some(id) => if self.is_persisted(id) {
                    Phase::Stopped
                } else {
                    Phase::Flushing { id }
                },
                None => Phase::Stopped,
            },
            Event::BatchFetched { high_water, elapsed_secs } => {
                if elapsed_secs < self.timeout_secs {
                    Phase::Applying { high_water, budget_secs: self.timeout_secs - elapsed_secs }
                } else {
                    let _: u64 = backoff.on_failure();
                    Phase::Reconnecting
                }
            },
            Event::NothingNew => Phase::Sleeping,
            Event::FetchFailed => {
                let _: u64 = backoff.on_failure();
                Phase::Reconnecting
            },
            Event::ApplyFailed => {
                let _: u64 = backoff.on_failure();
                Phase::Reconnecting
            },
            Event::Applied => {
                let high_water: u64 = match self.phase {
                    Phase::Applying { high_water, .. } => high_water,
                    _ => 0,
                };
                let position: u64 = match advance(self.last_applied, high_water) {
                    Some(id) => id,
                    None => high_water,
                };
                last_applied = Some(position);
                backoff.on_success();
                if since_save + 1 >= self.save_interval {
                    since_save = 0;
                    Phase::Checkpointing { id: position }
                } else {
                    since_save = since_save + 1;
                    Phase::Sleeping
                }
            },
            Event::CheckpointSaved => match self.phase {
                Phase::Flushing { id } => {
                    persisted = Some(id);
                    Phase::Stopped
                },
                Phase::Checkpointing { id } => {
                    persisted = Some(id);
                    Phase::Sleeping
                },
                _ => Phase::Sleeping,
            },
            Event::CheckpointFailed => match self.phase {
                Phase::Flushing { .. } => Phase::Stopped,
                _ => Phase::Sleeping,
            },
            Event::Reconnected => Phase::Sleeping,
            Event::ReconnectFailed => Phase::Sleeping,
            Event::SleepElapsed => Phase::Fetching,
        };
        *self = Engine {
            backoff,
            timeout_secs: self.timeout_secs,
            save_interval: self.save_interval,
            last_applied,
            persisted,
            since_save,
            phase,
        };
        Some(self.pending())
    }

    fn is_persisted(&self, id: u64) -> (r: bool)
        ensures
            r == (self@.persisted == Some(id)),
    {
        match self.persisted {
            Some(saved) => saved == id,
            None => false,
        }
    }
}

} // verus!
