//! Global skills configuration (`skills.json`).

use vstd::prelude::*;

use crate::errors::ConfigError;

verus! {

/// Skill-related settings.
#[derive(Debug, Clone, PartialEq, Eq)]
pub struct SkillsConfig {
    /// Extra directories scanned for skills, after the global layer.
    pub extra_dirs: Vec<String>,
}

impl Default for SkillsConfig {
    fn default() -> (r: Self)
        ensures
            r.extra_dirs@.len() == 0,
    {
        SkillsConfig { extra_dirs: Vec::new() }
    }
}

/// The `skills.json` provider: a flat [`SkillsConfig`].
#[derive(Debug, Clone, PartialEq, Eq)]
pub struct SkillsConfigData {
    pub config: SkillsConfig,
}

impl Default for SkillsConfigData {
    fn default() -> (r: Self)
        ensures
            r.config.extra_dirs@.len() == 0,
    {
        SkillsConfigData { config: SkillsConfig::default() }
    }
}

impl SkillsConfigData {
    /// The configuration format version.
    pub fn version(&self) -> (r: &'static str)
        ensures
            r@ == "1.0.0"@,
    {
        "1.0.0"
    }

    /// Every well-typed skills configuration is valid.
    pub fn validate(&self) -> (r: Result<(), ConfigError>)
        ensures
            r is Ok,
    {
        Ok(())
    }

    /// The configuration file name.
    pub fn config_path() -> (r: &'static str)
        ensures
            r@ == "skills.json"@,
    {
        "skills.json"
    }

    /// Whether no extra directory is configured.
    pub fn is_default(&self) -> (r: bool)
        ensures
            r == (self.config.extra_dirs@.len() == 0),
    {
        self.config.extra_dirs.len() == 0
    }
}

} // verus!
