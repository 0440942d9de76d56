//! Startup loading and writing of section files: the decisions.
//!
//! The caller reads the files, finds and restores backups and writes to
//! disk; the functions here decide, from what was read, whether a section
//! is accepted, must be rolled back to its latest backup, or refuses the
//! start, and with which error.

use vstd::prelude::*;

use crate::errors::{ConfigLoadError, ConfigValidationError, ConfigWriteError};
use crate::json::{json_get, JsonValue};
use crate::section::{section_filename, ConfigSection};
use crate::text::{owned, push_str};
use crate::validators::{section_check, validate_section};

verus! {

/// The sections read at startup, in load order.
pub open spec fn startup_order() -> Seq<ConfigSection> {
    seq![
        ConfigSection::Models,
        ConfigSection::Channels,
        ConfigSection::Gateway,
        ConfigSection::Plugins,
        ConfigSection::System,
        ConfigSection::Accounts,
    ]
}

/// Whether a startup section's file must exist: every one but `models.json`,
/// whose absence leaves the system without configured models.
pub open spec fn file_required(s: ConfigSection) -> bool {
    s != ConfigSection::Models
}

/// Law: of the sections read at startup, only `models.json` may be
/// missing; every other one (channels, gateway, plugins, system, accounts)
/// is a required file.
pub proof fn law_startup_files_required_but_models()
    ensures
        forall|i: int|
            0 <= i < startup_order().len() ==> (file_required(#[trigger] startup_order()[i]) <==> startup_order()[i]
                != ConfigSection::Models),
        file_required(ConfigSection::Channels),
        file_required(ConfigSection::Gateway),
        file_required(ConfigSection::Plugins),
        file_required(ConfigSection::System),
        file_required(ConfigSection::Accounts),
        !file_required(ConfigSection::Models),
{
}

/// The sections read at startup, in load order.
pub fn startup_sections() -> (r: Vec<ConfigSection>)
    ensures
        r@ == startup_order(),
{
    let r = vec![
        ConfigSection::Models,
        ConfigSection::Channels,
        ConfigSection::Gateway,
        ConfigSection::Plugins,
        ConfigSection::System,
        ConfigSection::Accounts,
    ];
    assert(r@ == startup_order());
    r
}

/// Whether a section's file must exist at startup.
pub fn is_file_required(section: ConfigSection) -> (r: bool)
    ensures
        r == file_required(section),
{
    !matches!(section, ConfigSection::Models)
}

/// What reading a section file gave.
#[derive(Debug)]
pub enum FileRead {
    /// The file does not exist.
    Missing,
    /// The file exists but could not be read; the reason.
    Unreadable(String),
    /// The file's text was parsed as JSON: the value, or the parser's message.
    Parsed(Result<JsonValue, String>),
}

/// The next step for a section read at startup.
#[derive(Debug)]
pub enum LoadStep {
    /// The optional file is absent: the section stays unset.
    Absent,
    /// The value is accepted into the cache.
    Accept(JsonValue),
    /// The file is rejected and must be restored from its latest backup;
    /// the reason, for the log.
    Rollback(String),
    /// The start is refused.
    Fail(ConfigLoadError),
}

/// The step that a read of `section`'s file at `path` calls for; `existing`
/// lists the paths that the section's validator may look up that exist.
pub fn load_step(section: ConfigSection, path: &str, read: FileRead, existing: &Vec<String>) -> (r:
    LoadStep)
    ensures
        read is Missing && section != ConfigSection::Models ==> (r matches LoadStep::Fail(
            ConfigLoadError::ConfigFileNotFound(p),
        ) && p@ == path@),
        read is Missing && section == ConfigSection::Models ==> r is Absent,
        match read {
            FileRead::Missing => if file_required(section) {
                r matches LoadStep::Fail(ConfigLoadError::ConfigFileNotFound(p)) && p@ == path@
            } else {
                r is Absent
            },
            FileRead::Unreadable(e) => r matches LoadStep::Fail(
                ConfigLoadError::IoError { path: p, error: m },
            ) && p@ == path@ && m == e,
            FileRead::Parsed(Err(e)) => r matches LoadStep::Rollback(m) && m@ == "file parse failed: "@
                + e@,
            FileRead::Parsed(Ok(v)) => match section_check(section, v, existing@) {
                Ok(_) => r == LoadStep::Accept(v),
                Err(msg) => r matches LoadStep::Rollback(m) && m@ == "business validation failed: "@
                    + msg,
            },
        },
{
    match read {
        FileRead::Missing => {
            if is_file_required(section) {
                LoadStep::Fail(ConfigLoadError::ConfigFileNotFound(owned(path)))
            } else {
                LoadStep::Absent
            }
        },
        FileRead::Unreadable(e) => LoadStep::Fail(
            ConfigLoadError::IoError { path: owned(path), error: e },
        ),
        FileRead::Parsed(Err(e)) => {
            let mut m = owned("file parse failed: ");
            push_str(&mut m, e.as_str());
            LoadStep::Rollback(m)
        },
        FileRead::Parsed(Ok(v)) => {
            match validate_section(section, &v, existing) {
                Ok(()) => LoadStep::Accept(v),
                Err(msg) => {
                    let mut m = owned("business validation failed: ");
                    push_str(&mut m, msg.as_str());
                    LoadStep::Rollback(m)
                },
            }
        },
    }
}

/// Whether `done` lists the first sections of the startup order, each with
/// a value that `load` can give for it.
pub open spec fn loaded_prefix<F: Fn(ConfigSection) -> Result<Option<JsonValue>, ConfigLoadError>>(
    load: F,
    done: Seq<(ConfigSection, Option<JsonValue>)>,
) -> bool {
    &&& done.len() <= startup_order().len()
    &&& forall|i: int|
        #![trigger done[i]]
        0 <= i < done.len() ==> done[i].0 == startup_order()[i] && call_ensures(
            load,
            (startup_order()[i],),
            Ok(done[i].1),
        )
}

/// Load the startup sections in order with `load`, which reads, checks and
/// installs one section and gives the value it was loaded with (`None` for
/// an absent optional file). The first section that fails refuses the
/// start with its error, and no section after it is loaded. On success,
/// every section with its value, in order.
pub fn load_startup_sections<F: Fn(ConfigSection) -> Result<Option<JsonValue>, ConfigLoadError>>(
    load: F,
) -> (r: Result<Vec<(ConfigSection, Option<JsonValue>)>, ConfigLoadError>)
    requires
        forall|s: ConfigSection| #[trigger] call_requires(load, (s,)),
    ensures
        match r {
            Ok(done) => done@.len() == startup_order().len() && loaded_prefix(load, done@),
            Err(e) => exists|done: Seq<(ConfigSection, Option<JsonValue>)>|
                #[trigger] loaded_prefix(load, done) && done.len() < startup_order().len()
                    && call_ensures(load, (startup_order()[done.len() as int],), Err(e)),
        },
{
    let order = startup_sections();
    let mut done: Vec<(ConfigSection, Option<JsonValue>)> = Vec::new();
    let mut i: usize = 0;
    while i < order.len()
        invariant
            order@ == startup_order(),
            i <= order@.len(),
            done@.len() == i,
            loaded_prefix(load, done@),
            forall|s: ConfigSection| #[trigger] call_requires(load, (s,)),
        decreases order@.len() - i,
    {
        let section = order[i];
        assert(section == startup_order()[i as int]);
        let result = load(section);
        assert(call_ensures(load, (startup_order()[i as int],), result));
        match result {
            Ok(v) => {
                let ghost before = done@;
                done.push((section, v));
                proof {
                    assert forall|j: int| 0 <= j < done@.len() implies #[trigger] done@[j].0 == startup_order()[j]
                        && call_ensures(load, (startup_order()[j],), Ok(done@[j].1)) by {
                        if j < before.len() {
                            assert(done@[j] == before[j]);
                        } else {
                            assert(j == i);
                            assert(done@[j] == (section, v));
                        }
                    }
                }
            },
            Err(e) => {
                proof {
                    assert(loaded_prefix(load, done@));
                }
                return Err(e);
            },
        }
        i = i + 1;
    }
    Ok(done)
}

/// The message of a failed rollback when no backup exists.
pub open spec fn no_backup_text() -> Seq<char> {
    "no backup available"@
}

/// The message of a failed rollback whose restored file is still not JSON.
pub open spec fn still_unparseable_text() -> Seq<char> {
    "rollback succeeded but file still unparseable"@
}

/// The outcome of restoring the file at `path` from its latest backup.
///
/// `backup_found` tells whether a backup existed; `restored` is the value
/// parsed from the file after the restore, `None` when the restore failed
/// or the restored text is not JSON. The restored value is taken as it is.
pub fn rollback_outcome(path: &str, backup_found: bool, restored: Option<JsonValue>) -> (r: Result<
    JsonValue,
    ConfigLoadError,
>)
    ensures
        backup_found && restored is Some ==> r == Ok::<JsonValue, ConfigLoadError>(restored->0),
        !backup_found ==> (r matches Err(ConfigLoadError::ParseError { path: p, error: e }) && p@
            == path@ && e@ == no_backup_text()),
        backup_found && restored is None ==> (r matches Err(
            ConfigLoadError::ParseError { path: p, error: e },
        ) && p@ == path@ && e@ == still_unparseable_text()),
{
    if !backup_found {
        return Err(
            ConfigLoadError::ParseError { path: owned(path), error: owned("no backup available") },
        );
    }
    match restored {
        Some(v) => Ok(v),
        None => Err(
            ConfigLoadError::ParseError {
                path: owned(path),
                error: owned("rollback succeeded but file still unparseable"),
            },
        ),
    }
}

/// The error that refuses a section write whose new value failed the
/// caller's validator.
pub fn write_rejection(section: ConfigSection, e: &ConfigValidationError) -> (r: ConfigWriteError)
    ensures
        r matches ConfigWriteError::ValidationFailed(s, m) && s@ == section_filename(section) && m@
            == e.message@,
{
    ConfigWriteError::ValidationFailed(section.to_string(), owned(e.message.as_str()))
}

/// The permission bits a section file is written with: owner read/write
/// only for credentials, the default mode otherwise.
pub fn file_mode(section: ConfigSection) -> (r: Option<u32>)
    ensures
        r == (if section == ConfigSection::Credentials {
            Some(0o600u32)
        } else {
            None::<u32>
        }),
{
    match section {
        ConfigSection::Credentials => Some(0o600),
        _ => None,
    }
}

/// The sections described by a configuration listing, in order.
pub open spec fn listed_order() -> Seq<ConfigSection> {
    seq![
        ConfigSection::Models,
        ConfigSection::Channels,
        ConfigSection::Gateway,
        ConfigSection::Plugins,
        ConfigSection::System,
        ConfigSection::Session,
        ConfigSection::Memory,
    ]
}

/// The sections described by a configuration listing, in order.
pub fn listed_sections() -> (r: Vec<ConfigSection>)
    ensures
        r@ == listed_order(),
{
    let r = vec![
        ConfigSection::Models,
        ConfigSection::Channels,
        ConfigSection::Gateway,
        ConfigSection::Plugins,
        ConfigSection::System,
        ConfigSection::Session,
        ConfigSection::Memory,
    ];
    assert(r@ == listed_order());
    r
}

/// The version a configuration file declares: its top-level `version`
/// string, or the empty text when the file is not JSON or has none.
pub open spec fn declared_version(v: Option<JsonValue>) -> Seq<char> {
    match v {
        Some(x) => match json_get(x, "version"@) {
            Some(JsonValue::String(s)) => s@,
            _ => Seq::empty(),
        },
        None => Seq::empty(),
    }
}

/// The version a configuration file declares (see [`declared_version`]);
/// `value` is the parsed file, `None` when it is not JSON.
pub fn config_version(value: Option<&JsonValue>) -> (r: String)
    ensures
        r@ == declared_version(
            match value {
                Some(x) => Some(*x),
                None => None,
            },
        ),
{
    match value {
        Some(x) => match x.get("version") {
            Some(JsonValue::String(s)) => owned(s.as_str()),
            _ => String::new(),
        },
        None => String::new(),
    }
}

} // verus!
