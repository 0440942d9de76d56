//! Error types of the configuration subsystem and their messages.
//!
//! Paths are carried as their text. Each error renders its message with
//! `to_string()`; the message is stated exactly by a spec function.

use vstd::prelude::*;

use crate::text::push_str;

verus! {

/// Error raised by configuration providers.
#[derive(Debug, Clone)]
pub enum ConfigError {
    /// The configuration file could not be read.
    Io(String),
    /// The configuration text is not valid JSON for the expected shape.
    Json(String),
    /// A field holds a value the provider rejects.
    ValueError { field: String, message: String },
    /// An agent configuration resolved to an empty `id`.
    MissingId { path: String },
    /// A file could not be parsed.
    ParseError { path: String, error: String },
    /// A file failed validation.
    ValidationError { path: String, message: String },
    /// A structural or runtime setup failure.
    SchemaError(String),
}

/// The message of a [`ConfigError`].
pub open spec fn config_error_message(e: ConfigError) -> Seq<char> {
    match e {
        ConfigError::Io(m) => "I/O error: "@ + m@,
        ConfigError::Json(m) => "JSON error: "@ + m@,
        ConfigError::ValueError { field, message } => "invalid value for "@ + field@ + ": "@
            + message@,
        ConfigError::MissingId { path } => "agent config "@ + path@ + " has no id"@,
        ConfigError::ParseError { path, error } => "failed to parse "@ + path@ + ": "@ + error@,
        ConfigError::ValidationError { path, message } => "validation failed for "@ + path@
            + ": "@ + message@,
        ConfigError::SchemaError(m) => "schema error: "@ + m@,
    }
}

impl ConfigError {
    /// The error's message.
    pub fn to_string(&self) -> (r: String)
        ensures
            r@ == config_error_message(*self),
    {
        let mut r = String::new();
        match self {
            ConfigError::Io(m) => {
                push_str(&mut r, "I/O error: ");
                push_str(&mut r, m.as_str());
            },
            ConfigError::Json(m) => {
                push_str(&mut r, "JSON error: ");
                push_str(&mut r, m.as_str());
            },
            ConfigError::ValueError { field, message } => {
                push_str(&mut r, "invalid value for ");
                push_str(&mut r, field.as_str());
                push_str(&mut r, ": ");
                push_str(&mut r, message.as_str());
            },
            ConfigError::MissingId { path } => {
                push_str(&mut r, "agent config ");
                push_str(&mut r, path.as_str());
                push_str(&mut r, " has no id");
            },
            ConfigError::ParseError { path, error } => {
                push_str(&mut r, "failed to parse ");
                push_str(&mut r, path.as_str());
                push_str(&mut r, ": ");
                push_str(&mut r, error.as_str());
            },
            ConfigError::ValidationError { path, message } => {
                push_str(&mut r, "validation failed for ");
                push_str(&mut r, path.as_str());
                push_str(&mut r, ": ");
                push_str(&mut r, message.as_str());
            },
            ConfigError::SchemaError(m) => {
                push_str(&mut r, "schema error: ");
                push_str(&mut r, m.as_str());
            },
        }
        r
    }
}

/// Error loading a configuration file.
#[derive(Debug, Clone)]
pub enum ConfigLoadError {
    ConfigDirNotFound(String),
    ConfigFileNotFound(String),
    ParseError { path: String, error: String },
    ValidationError { path: String, message: String },
    BackupNotFound(String),
    IoError { path: String, error: String },
}

/// The message of a [`ConfigLoadError`].
pub open spec fn load_error_message(e: ConfigLoadError) -> Seq<char> {
    match e {
        ConfigLoadError::ConfigDirNotFound(p) => "config directory not found: "@ + p@,
        ConfigLoadError::ConfigFileNotFound(p) => "config file not found: "@ + p@,
        ConfigLoadError::ParseError { path, error } => "failed to parse config file "@ + path@
            + ": "@ + error@,
        ConfigLoadError::ValidationError { path, message } => "config validation failed for "@
            + path@ + ": "@ + message@,
        ConfigLoadError::BackupNotFound(p) => "backup not found for "@ + p@,
        ConfigLoadError::IoError { path, error } => "I/O error loading "@ + path@ + ": "@ + error@,
    }
}

impl ConfigLoadError {
    /// The error's message.
    pub fn to_string(&self) -> (r: String)
        ensures
            r@ == load_error_message(*self),
    {
        let mut r = String::new();
        match self {
            ConfigLoadError::ConfigDirNotFound(p) => {
                push_str(&mut r, "config directory not found: ");
                push_str(&mut r, p.as_str());
            },
            ConfigLoadError::ConfigFileNotFound(p) => {
                push_str(&mut r, "config file not found: ");
                push_str(&mut r, p.as_str());
            },
            ConfigLoadError::ParseError { path, error } => {
                push_str(&mut r, "failed to parse config file ");
                push_str(&mut r, path.as_str());
                push_str(&mut r, ": ");
                push_str(&mut r, error.as_str());
            },
            ConfigLoadError::ValidationError { path, message } => {
                push_str(&mut r, "config validation failed for ");
                push_str(&mut r, path.as_str());
                push_str(&mut r, ": ");
                push_str(&mut r, message.as_str());
            },
            ConfigLoadError::BackupNotFound(p) => {
                push_str(&mut r, "backup not found for ");
                push_str(&mut r, p.as_str());
            },
            ConfigLoadError::IoError { path, error } => {
                push_str(&mut r, "I/O error loading ");
                push_str(&mut r, path.as_str());
                push_str(&mut r, ": ");
                push_str(&mut r, error.as_str());
            },
        }
        r
    }
}

/// Error writing a configuration file.
#[derive(Debug, Clone)]
pub enum ConfigWriteError {
    ValidationFailed(String, String),
    BackupFailed { path: String, error: String },
    WriteFailed { path: String, error: String },
    FileNotFound(String),
}

/// The message of a [`ConfigWriteError`].
pub open spec fn write_error_message(e: ConfigWriteError) -> Seq<char> {
    match e {
        ConfigWriteError::ValidationFailed(s, m) => "validation failed for "@ + s@ + ": "@ + m@,
        ConfigWriteError::BackupFailed { path, error } => "backup failed for "@ + path@ + ": "@
            + error@,
        ConfigWriteError::WriteFailed { path, error } => "write failed for "@ + path@ + ": "@
            + error@,
        ConfigWriteError::FileNotFound(p) => "config file not found: "@ + p@,
    }
}

impl ConfigWriteError {
    /// The error's message.
    pub fn to_string(&self) -> (r: String)
        ensures
            r@ == write_error_message(*self),
    {
        let mut r = String::new();
        match self {
            ConfigWriteError::ValidationFailed(s, m) => {
                push_str(&mut r, "validation failed for ");
                push_str(&mut r, s.as_str());
                push_str(&mut r, ": ");
                push_str(&mut r, m.as_str());
            },
            ConfigWriteError::BackupFailed { path, error } => {
                push_str(&mut r, "backup failed for ");
                push_str(&mut r, path.as_str());
                push_str(&mut r, ": ");
                push_str(&mut r, error.as_str());
            },
            ConfigWriteError::WriteFailed { path, error } => {
                push_str(&mut r, "write failed for ");
                push_str(&mut r, path.as_str());
                push_str(&mut r, ": ");
                push_str(&mut r, error.as_str());
            },
            ConfigWriteError::FileNotFound(p) => {
                push_str(&mut r, "config file not found: ");
                push_str(&mut r, p.as_str());
            },
        }
        r
    }
}

/// Validation error for a config file.
#[derive(Debug, Clone)]
pub struct ConfigValidationError {
    pub path: String,
    pub message: String,
}

impl ConfigValidationError {
    /// The error's message: `validation failed for <path>: <message>`.
    pub fn to_string(&self) -> (r: String)
        ensures
            r@ == "validation failed for "@ + self.path@ + ": "@ + self.message@,
    {
        let mut r = String::new();
        push_str(&mut r, "validation failed for ");
        push_str(&mut r, self.path.as_str());
        push_str(&mut r, ": ");
        push_str(&mut r, self.message.as_str());
        r
    }
}

} // verus!
