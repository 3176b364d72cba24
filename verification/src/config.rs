//! Settings that the services are built from.

use vstd::prelude::*;

verus! {

/// Detection settings: the threshold in parts per million and the period of a
/// detection pass in seconds.
#[derive(Debug, Clone, Copy)]
pub struct ArbitrageConfig {
    pub threshold: u64,
    pub update_interval: u64,
}

/// Filter thresholds, in millionths of a dollar. `min_tx_count` is carried but
/// takes no part in the validity rule.
#[derive(Debug, Clone, Copy)]
pub struct FilterConfig {
    pub min_lp: u64,
    pub min_volume: u64,
    pub min_tx_count: u32,
}

/// Where the serving layer listens.
#[derive(Debug)]
pub struct ServerConfig {
    pub host: String,
    pub port: u16,
}

/// Whether snapshots are persisted, and under which directory.
#[derive(Debug)]
pub struct StorageConfig {
    pub enabled: bool,
    pub data_dir: String,
}

/// The whole configuration.
#[derive(Debug)]
pub struct Config {
    pub arbitrage: ArbitrageConfig,
    pub filter: FilterConfig,
    pub server: ServerConfig,
    pub storage: StorageConfig,
}

/// Persistence is on unless the configuration says otherwise.
pub fn default_enabled() -> (enabled: bool)
    ensures
        enabled,
{
    true
}

/// The directory that snapshots go to when none is configured.
pub fn default_data_dir() -> (dir: String)
    ensures
        dir@ == "./data"@,
{
    String::from_str("./data")
}

impl Default for StorageConfig {
    fn default() -> (config: Self)
        ensures
            config.enabled,
            config.data_dir@ == "./data"@,
    {
        StorageConfig { enabled: default_enabled(), data_dir: default_data_dir() }
    }
}

impl Clone for ServerConfig {
    fn clone(&self) -> (copy: Self)
        ensures
            copy == *self,
    {
        ServerConfig { host: self.host.clone(), port: self.port }
    }
}

impl Clone for StorageConfig {
    fn clone(&self) -> (copy: Self)
        ensures
            copy == *self,
    {
        StorageConfig { enabled: self.enabled, data_dir: self.data_dir.clone() }
    }
}

impl Clone for Config {
    fn clone(&self) -> (copy: Self)
        ensures
            copy == *self,
    {
        Config {
            arbitrage: self.arbitrage,
            filter: self.filter,
            server: self.server.clone(),
            storage: self.storage.clone(),
        }
    }
}

} // verus!
