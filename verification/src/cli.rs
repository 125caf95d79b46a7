//! What the process is asked to do: the flags on its command line and the
//! steps that follow from them.

use vstd::prelude::*;
use crate::settings::Settings;

verus! {

/// Address of the feed when the process runs against a local replica.
pub const LOCAL_REPLICA: &'static str = "http://localhost:8000";

/// Address of the feed in production.
pub const MAINNET_REPLICA: &'static str = "https://ic0.app";

/// The flags of the command line. Each is either present or not, and they
/// combine freely.
#[derive(Clone, Copy, Debug, PartialEq, Eq)]
pub struct RunFlags {
    pub mainnet: bool,
    pub kong_data: bool,
    pub kong_backend: bool,
    pub database: bool,
    pub db_updates: bool,
}

/// One thing that the process does, in the order in which it does them.
#[derive(Clone, Copy, Debug, PartialEq, Eq)]
pub enum RunStep {
    /// Write the whole snapshot to the data backend of the feed.
    UpdateKongData,
    /// Write the whole snapshot to the development backend of the feed.
    UpdateKongBackend,
    /// Open the connection pool of the relational store.
    OpenPool,
    /// Write the whole snapshot to the relational store, kind by kind in
    /// dependency order.
    UpdateDatabase,
    /// Fill the caches from what the relational store holds.
    LoadCaches,
    /// Run the polling cycle until cancellation.
    SyncLoop,
}

/// Why the process cannot start.
#[derive(Clone, Copy, Debug, PartialEq, Eq)]
pub enum StartupError {
    /// The step writes to a feed backend and the settings name no identity.
    MissingIdentity { step: RunStep },
}

/// `flag` is one of the arguments.
pub open spec fn has_flag(args: Seq<String>, flag: Seq<char>) -> bool {
    exists|i: int| 0 <= i < args.len() && (#[trigger] args[i])@ == flag
}

/// The flags that a command line holds.
pub open spec fn flags_of(args: Seq<String>) -> RunFlags {
    RunFlags {
        mainnet: has_flag(args, "--mainnet"@),
        kong_data: has_flag(args, "--kong_data"@),
        kong_backend: has_flag(args, "--kong_backend"@),
        database: has_flag(args, "--database"@),
        db_updates: has_flag(args, "--db_updates"@),
    }
}

/// The steps that the flags ask for, in order: the two feed backends first,
/// then the relational store, which is either written in full or only read
/// into the caches, then the polling cycle.
pub open spec fn steps_of(flags: RunFlags) -> Seq<RunStep> {
    let feed = if flags.kong_data {
        seq![RunStep::UpdateKongData]
    } else {
        Seq::<RunStep>::empty()
    };
    let backend = if flags.kong_backend {
        seq![RunStep::UpdateKongBackend]
    } else {
        Seq::<RunStep>::empty()
    };
    let store = if flags.database {
        seq![RunStep::OpenPool, RunStep::UpdateDatabase]
    } else if flags.db_updates {
        seq![RunStep::OpenPool, RunStep::LoadCaches]
    } else {
        Seq::<RunStep>::empty()
    };
    let cycle = if flags.db_updates {
        seq![RunStep::SyncLoop]
    } else {
        Seq::<RunStep>::empty()
    };
    feed + backend + store + cycle
}

/// The first step that needs an identity, if any does.
pub open spec fn first_identity_step(flags: RunFlags) -> Option<RunStep> {
    if flags.kong_data {
        Some(RunStep::UpdateKongData)
    } else if flags.kong_backend {
        Some(RunStep::UpdateKongBackend)
    } else {
        None
    }
}

/// Whether `flag` is one of the arguments.
pub fn contains_flag(args: &Vec<String>, flag: &str) -> (found: bool)
    ensures
        found == has_flag(args@, flag@),
{
    let wanted: String = flag.to_owned();
    let mut i: usize = 0;
    while i < args.len()
        invariant
            i <= args@.len(),
            wanted@ == flag@,
            forall|h: int| 0 <= h < i ==> (#[trigger] args@[h])@ != flag@,
        decreases args@.len() - i,
    {
        if args[i] == wanted {
            return true;
        }
        i = i + 1;
    }
    false
}

/// Reads the flags off the command line. Arguments that are no flag are
/// passed over.
pub fn parse_flags(args: &Vec<String>) -> (flags: RunFlags)
    ensures
        flags == flags_of(args@),
{
    RunFlags {
        mainnet: contains_flag(args, "--mainnet"),
        kong_data: contains_flag(args, "--kong_data"),
        kong_backend: contains_flag(args, "--kong_backend"),
        database: contains_flag(args, "--database"),
        db_updates: contains_flag(args, "--db_updates"),
    }
}

/// The address of the feed: the production one with `mainnet`, else the
/// local one.
pub fn replica_url(mainnet: bool) -> (url: &'static str)
    ensures
        url@ == if mainnet {
            MAINNET_REPLICA@
        } else {
            LOCAL_REPLICA@
        },
{
    if mainnet {
        MAINNET_REPLICA
    } else {
        LOCAL_REPLICA
    }
}

/// The steps to take under these flags and settings. A step that writes to a
/// feed backend needs an identity; where the settings name none, nothing is
/// started and the error names the first such step.
pub fn plan_run(flags: &RunFlags, settings: &Settings) -> (plan: Result<Vec<RunStep>, StartupError>)
    ensures
        plan is Err <==> settings.dfx_pem_file is None && first_identity_step(*flags) is Some,
        plan matches Err(error) ==> Some(error->step) == first_identity_step(*flags),
        plan matches Ok(steps) ==> steps@ == steps_of(*flags),
{
    if settings.dfx_pem_file.is_none() {
        if flags.kong_data {
            return Err(StartupError::MissingIdentity { step: RunStep::UpdateKongData });
        }
        if flags.kong_backend {
            return Err(StartupError::MissingIdentity { step: RunStep::UpdateKongBackend });
        }
    }
    let mut steps: Vec<RunStep> = Vec::new();
    if flags.kong_data {
        steps.push(RunStep::UpdateKongData);
    }
    if flags.kong_backend {
        steps.push(RunStep::UpdateKongBackend);
    }
    if flags.database {
        steps.push(RunStep::OpenPool);
        steps.push(RunStep::UpdateDatabase);
    } else if flags.db_updates {
        steps.push(RunStep::OpenPool);
        steps.push(RunStep::LoadCaches);
    }
    if flags.db_updates {
        steps.push(RunStep::SyncLoop);
    }
    assert(steps@ =~= steps_of(*flags));
    Ok(steps)
}

impl StartupError {
    /// The text that the process ends with.
    pub fn message(&self) -> (text: &'static str)
        ensures
            text@ == match *self {
                StartupError::MissingIdentity { step: RunStep::UpdateKongBackend } => "dfx identity required for Kong Backend"@,
                StartupError::MissingIdentity { .. } => "dfx identity required for Kong Data"@,
            },
    {
        match self {
            StartupError::MissingIdentity { step: RunStep::UpdateKongBackend } => "dfx identity required for Kong Backend",
            StartupError::MissingIdentity { .. } => "dfx identity required for Kong Data",
        }
    }
}

} // verus!
