//! The settings that the process is started with, and what they mean for the
//! connection pool and for the polling cycle.

use vstd::prelude::*;
use crate::engine::SyncConfig;
use crate::engine::DEFAULT_BASE_DELAY_SECS;
use crate::engine::DEFAULT_MAX_DELAY_SECS;
use crate::engine::DEFAULT_OPERATION_TIMEOUT_SECS;
use crate::engine::DEFAULT_SAVE_INTERVAL;

verus! {

/// How to reach the relational store.
#[derive(Debug, Clone)]
pub struct Database {
    pub host: String,
    pub port: u16,
    pub user: String,
    pub password: String,
    /// Path of a certificate to trust besides the system's, if any.
    pub ca_cert: Option<String>,
    pub db_name: String,
    /// Largest number of store handles in use at one time.
    pub max_connections: usize,
    /// Seconds to wait for a handle, for a new connection, and for the check
    /// of a handle that is used again.
    pub connection_timeout_secs: u64,
}

/// Everything that is read from the settings file.
#[derive(Debug, Clone)]
pub struct Settings {
    /// Path of the identity file; needed only to write to a feed backend.
    pub dfx_pem_file: Option<String>,
    /// Base delay between two polling cycles, in seconds.
    pub db_updates_delay_secs: Option<u64>,
    pub database: Database,
}

/// The limits of the connection pool.
#[derive(Clone, Copy, Debug, PartialEq, Eq)]
pub struct PoolLimits {
    pub max_size: usize,
    pub wait_timeout_secs: u64,
    pub create_timeout_secs: u64,
    pub recycle_timeout_secs: u64,
}

/// Number of store handles where the settings name none.
pub fn default_max_connections() -> (n: usize)
    ensures
        n == 16,
{
    16
}

/// Connection timeout in seconds where the settings name none.
pub fn default_connection_timeout_secs() -> (secs: u64)
    ensures
        secs == 5,
{
    5
}

impl Database {
    /// The limits of the pool for this store: as many handles as configured,
    /// and the configured timeout for waiting, creating and recycling alike.
    pub fn pool_limits(&self) -> (limits: PoolLimits)
        ensures
            limits.max_size == self.max_connections,
            limits.wait_timeout_secs == self.connection_timeout_secs,
            limits.create_timeout_secs == self.connection_timeout_secs,
            limits.recycle_timeout_secs == self.connection_timeout_secs,
    {
        PoolLimits {
            max_size: self.max_connections,
            wait_timeout_secs: self.connection_timeout_secs,
            create_timeout_secs: self.connection_timeout_secs,
            recycle_timeout_secs: self.connection_timeout_secs,
        }
    }
}

impl Settings {
    /// The base delay between two polling cycles: the configured one, or the
    /// default.
    pub fn base_delay_secs(&self) -> (secs: u64)
        ensures
            secs == match self.db_updates_delay_secs {
                Some(configured) => configured,
                None => DEFAULT_BASE_DELAY_SECS,
            },
    {
        match self.db_updates_delay_secs {
            Some(configured) => configured,
            None => DEFAULT_BASE_DELAY_SECS,
        }
    }

    /// The limits of the polling cycle under these settings.
    pub fn sync_config(&self) -> (config: SyncConfig)
        ensures
            config.base_delay_secs == match self.db_updates_delay_secs {
                Some(configured) => configured,
                None => DEFAULT_BASE_DELAY_SECS,
            },
            config.max_delay_secs == DEFAULT_MAX_DELAY_SECS,
            config.operation_timeout_secs == DEFAULT_OPERATION_TIMEOUT_SECS,
            config.save_interval == DEFAULT_SAVE_INTERVAL,
    {
        SyncConfig::new(self.db_updates_delay_secs)
    }
}

} // verus!
