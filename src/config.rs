//! Configuration for providers and failover behavior.

use vstd::prelude::*;

verus! {

/// Provider configuration
#[derive(Debug, Clone)]
pub struct ProviderConfig {
    /// Provider name
    pub name: String,
    /// API base URL (if custom)
    pub api_base: Option<String>,
    /// Request timeout in seconds
    pub timeout_secs: Option<u64>,
    /// Enable detailed logging
    pub verbose: Option<bool>,
}

/// Failover configuration
#[derive(Debug, Clone)]
pub struct FailoverConfig {
    /// Enable automatic failover
    pub enabled: bool,
    /// Max retry attempts per provider
    pub max_retries: usize,
    /// Factor by which each backoff exceeds the one before
    pub backoff_multiplier: u64,
    /// Initial backoff duration in milliseconds
    pub initial_backoff_ms: u64,
}

impl Default for FailoverConfig {
    fn default() -> (r: Self)
        ensures
            r.enabled,
            r.max_retries == 3,
            r.backoff_multiplier == 2,
            r.initial_backoff_ms == 100,
    {
        FailoverConfig { enabled: true, max_retries: 3, backoff_multiplier: 2, initial_backoff_ms: 100 }
    }
}

/// ALLM configuration
#[derive(Debug, Clone)]
pub struct AllmConfig {
    /// Provider configurations
    pub providers: Vec<ProviderConfig>,
    /// Failover configuration
    pub failover: FailoverConfig,
}

impl Default for AllmConfig {
    fn default() -> (r: Self)
        ensures
            r.providers@.len() == 0,
            r.failover.enabled,
            r.failover.max_retries == 3,
            r.failover.backoff_multiplier == 2,
            r.failover.initial_backoff_ms == 100,
    {
        AllmConfig { providers: Vec::new(), failover: FailoverConfig::default() }
    }
}

} // verus!
