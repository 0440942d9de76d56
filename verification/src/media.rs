//! Media storage configuration (`media.json`).

use vstd::prelude::*;

use crate::errors::ConfigError;
use crate::text::{is_blank, owned, str_eq, trim_end_seq};

verus! {

/// Current version of the media configuration format.
pub const CURRENT_VERSION: &'static str = "1.0.0";

/// Default storage directory of media files.
pub const DEFAULT_STORAGE_DIR: &'static str = "~/.closeclaw/media";

/// Default retention period in days.
pub const DEFAULT_RETENTION_DAYS: u64 = 7;

/// Default image content threshold in bytes (1 MiB).
pub const DEFAULT_IMAGE_CONTENT_THRESHOLD: u64 = 1048576;

/// Media configuration data.
#[derive(Debug, Clone, PartialEq, Eq)]
pub struct MediaConfigData {
    /// Configuration version.
    pub version: String,
    /// Directory for media files; may start with `~`.
    pub storage_dir: String,
    /// Days to keep media files; 0 disables periodic cleanup.
    pub retention_days: u64,
    /// Images above this size enter the context as references.
    pub image_content_threshold_bytes: u64,
}

/// Whether `c` holds the default values.
pub open spec fn media_is_default(c: MediaConfigData) -> bool {
    &&& c.version@ == CURRENT_VERSION@
    &&& c.storage_dir@ == DEFAULT_STORAGE_DIR@
    &&& c.retention_days == DEFAULT_RETENTION_DAYS
    &&& c.image_content_threshold_bytes == DEFAULT_IMAGE_CONTENT_THRESHOLD
}

impl Default for MediaConfigData {
    fn default() -> (r: Self)
        ensures
            media_is_default(r),
    {
        MediaConfigData {
            version: owned(CURRENT_VERSION),
            storage_dir: owned(DEFAULT_STORAGE_DIR),
            retention_days: DEFAULT_RETENTION_DAYS,
            image_content_threshold_bytes: DEFAULT_IMAGE_CONTENT_THRESHOLD,
        }
    }
}

impl MediaConfigData {
    /// The configuration format version.
    pub fn version(&self) -> (r: &'static str)
        ensures
            r@ == CURRENT_VERSION@,
    {
        CURRENT_VERSION
    }

    /// The configuration file name.
    pub fn config_path() -> (r: &'static str)
        ensures
            r@ == "media.json"@,
    {
        "media.json"
    }

    /// Whether every field holds its default.
    pub fn is_default(&self) -> (r: bool)
        ensures
            r == media_is_default(*self),
    {
        str_eq(self.version.as_str(), CURRENT_VERSION) && str_eq(
            self.storage_dir.as_str(),
            DEFAULT_STORAGE_DIR,
        ) && self.retention_days == DEFAULT_RETENTION_DAYS && self.image_content_threshold_bytes
            == DEFAULT_IMAGE_CONTENT_THRESHOLD
    }

    /// The storage directory must not be blank; the counts are unsigned.
    pub fn validate(&self) -> (r: Result<(), ConfigError>)
        ensures
            match r {
                Ok(_) => trim_end_seq(self.storage_dir@).len() > 0,
                Err(e) => trim_end_seq(self.storage_dir@).len() == 0 && match e {
                    ConfigError::ValueError { field, message } => field@ == "storage_dir"@
                        && message@ == "storage_dir must not be empty"@,
                    _ => false,
                },
            },
    {
        if is_blank(self.storage_dir.as_str()) {
            return Err(
                ConfigError::ValueError {
                    field: owned("storage_dir"),
                    message: owned("storage_dir must not be empty"),
                },
            );
        }
        Ok(())
    }
}

} // verus!
