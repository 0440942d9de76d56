//! Global memory configuration (`memory.json`).
//!
//! The file has the schema of the per-agent `memory` section; absent or
//! empty, every subsystem is disabled.

use vstd::prelude::*;

use crate::errors::ConfigError;
use crate::memory_config::{memory_unset, MemoryConfig};

verus! {

/// The `memory.json` provider: a flat [`MemoryConfig`].
#[derive(Debug, Clone)]
pub struct MemoryConfigData {
    pub config: MemoryConfig,
}

/// Whether an optional switch is explicitly on.
pub open spec fn switched_on(flag: Option<bool>) -> bool {
    flag == Some(true)
}

impl Default for MemoryConfigData {
    fn default() -> (r: Self)
        ensures
            r.config == memory_unset(),
    {
        MemoryConfigData { config: MemoryConfig::default() }
    }
}

impl MemoryConfigData {
    /// The configuration format version.
    pub fn version(&self) -> (r: &'static str)
        ensures
            r@ == "1.0.0"@,
    {
        "1.0.0"
    }

    /// Every well-typed memory configuration is valid.
    pub fn validate(&self) -> (r: Result<(), ConfigError>)
        ensures
            r is Ok,
    {
        Ok(())
    }

    /// The configuration file name.
    pub fn config_path() -> (r: &'static str)
        ensures
            r@ == "memory.json"@,
    {
        "memory.json"
    }

    /// Whether mining, dreaming and search are all off (unset counts as off).
    pub fn is_default(&self) -> (r: bool)
        ensures
            r == (!switched_on(self.config.mining.enabled) && !switched_on(
                self.config.dreaming.enabled,
            ) && !switched_on(self.config.search.enabled)),
    {
        let mining = match self.config.mining.enabled {
            Some(b) => b,
            None => false,
        };
        let dreaming = match self.config.dreaming.enabled {
            Some(b) => b,
            None => false,
        };
        let search = match self.config.search.enabled {
            Some(b) => b,
            None => false,
        };
        !mining && !dreaming && !search
    }
}

} // verus!
