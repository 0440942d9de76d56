//! Configuration model, validation and merge rules for CloseClaw agents.
//!
//! The library holds the verified core of the configuration subsystem:
//! agent configuration types and their merge rules, permission
//! intersection, identity resolution, account and credential lookup,
//! JSON section validators, the in-memory section store with its
//! restart staging area, and the path classification used by hot reload.

pub mod accounts;
pub mod agent_config;
pub mod agent_registry;
pub mod agents;
pub mod assoc;
pub mod checks;
pub mod common;
pub mod credentials;
pub mod debounce;
pub mod errors;
pub mod identity;
pub mod json;
pub mod loading;
pub mod media;
pub mod memory_config;
pub mod memory_provider;
pub mod model_spec_json;
pub mod permission_cache;
pub mod permissions;
pub mod reload;
pub mod section;
pub mod skills;
pub mod store;
pub mod text;
pub mod trace_id;
pub mod validate_memory;
pub mod validators;
