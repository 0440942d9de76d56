//! Hot-reload decisions: which reload a changed path calls for, and what
//! a reloaded section value leads to.
//!
//! The watcher and the file reads live outside the library. They hand
//! over the changed path, and then the parse outcome of the section file;
//! the functions here decide what is reloaded, whether the value is
//! rejected (and the section blocked), staged for a gateway restart, or
//! applied at once.

use vstd::prelude::*;

use crate::checks::outcome;
use crate::json::{json_eq, json_get, JsonValue};
use crate::section::{filename_to_section, restart_class, section_of_filename, ConfigSection};
use crate::text::{chars_of, contains_seq, str_contains, str_eq, string_of_range};
use crate::validators::{section_check, validate_section};

verus! {

// ── Paths ────────────────────────────────────────────────────────────────

/// Whether the path lies in an `agents` directory.
pub open spec fn agents_path(p: Seq<char>) -> bool {
    contains_seq(p, "/agents/"@) || contains_seq(p, "\\agents\\"@)
}

/// Whether the path lies in a `credentials` directory.
pub open spec fn credentials_path(p: Seq<char>) -> bool {
    contains_seq(p, "/credentials/"@) || contains_seq(p, "\\credentials\\"@)
}

/// Whether the path lies in an `agents` directory.
pub fn is_agents_path(path: &str) -> (r: bool)
    ensures
        r == agents_path(path@),
{
    str_contains(path, "/agents/") || str_contains(path, "\\agents\\")
}

/// Whether the path lies in a `credentials` directory.
pub fn is_credentials_path(path: &str) -> (r: bool)
    ensures
        r == credentials_path(path@),
{
    str_contains(path, "/credentials/") || str_contains(path, "\\credentials\\")
}

/// The start of the last `/`-separated segment of `p[..end]`.
pub open spec fn segment_start(p: Seq<char>, end: int) -> int
    decreases end,
{
    if end <= 0 {
        0
    } else if p[end - 1] == '/' {
        end
    } else {
        segment_start(p, end - 1)
    }
}

/// The last component of `p[..end]`, skipping empty and `.` components.
pub open spec fn last_component(p: Seq<char>, end: int) -> Option<Seq<char>>
    decreases end,
{
    if end <= 0 || end > p.len() {
        None
    } else {
        let start = segment_start(p, end);
        let seg = p.subrange(start, end);
        if seg.len() == 0 || seg == "."@ {
            if start == 0 {
                None
            } else {
                proof {
                    lemma_segment_start(p, end);
                }
                last_component(p, start - 1)
            }
        } else {
            Some(seg)
        }
    }
}

/// The final component of a path (`Path::file_name`): none when the path
/// ends in `..` or has no component.
pub open spec fn file_name(p: Seq<char>) -> Option<Seq<char>> {
    match last_component(p, p.len() as int) {
        Some(c) => if c == ".."@ {
            None
        } else {
            Some(c)
        },
        None => None,
    }
}

/// Where the last segment of `p[..end]` starts.
pub proof fn lemma_segment_start(p: Seq<char>, end: int)
    requires
        0 <= end <= p.len(),
    ensures
        0 <= segment_start(p, end) <= end,
        segment_start(p, end) > 0 ==> p[segment_start(p, end) - 1] == '/',
        forall|k: int| segment_start(p, end) <= k < end ==> p[k] != '/',
    decreases end,
{
    if end > 0 && p[end - 1] != '/' {
        lemma_segment_start(p, end - 1);
    }
}

fn find_segment_start(v: &Vec<char>, end: usize) -> (r: usize)
    requires
        end <= v@.len(),
    ensures
        r == segment_start(v@, end as int),
{
    let mut k = end;
    while k > 0
        invariant
            k <= end <= v@.len(),
            segment_start(v@, end as int) == segment_start(v@, k as int),
        decreases k,
    {
        if v[k - 1] == '/' {
            return k;
        }
        k = k - 1;
    }
    0
}

/// The final component of `path`, if it has one.
pub fn path_file_name(path: &str) -> (r: Option<String>)
    ensures
        match r {
            Some(s) => file_name(path@) == Some(s@),
            None => file_name(path@) is None,
        },
{
    let v = chars_of(path);
    let mut end = v.len();
    loop
        invariant
            v@ == path@,
            end <= v@.len(),
            last_component(v@, v@.len() as int) == last_component(v@, end as int),
        decreases end,
    {
        if end == 0 {
            return None;
        }
        let start = find_segment_start(&v, end);
        proof {
            lemma_segment_start(v@, end as int);
        }
        let seg = string_of_range(&v, start, end);
        if start == end || str_eq(seg.as_str(), ".") {
            if start == 0 {
                return None;
            }
            end = start - 1;
        } else {
            if str_eq(seg.as_str(), "..") {
                return None;
            }
            return Some(seg);
        }
    }
}

/// Whether the path names a `permissions.json` file.
pub open spec fn permissions_path(p: Seq<char>) -> bool {
    file_name(p) == Some("permissions.json"@)
}

/// Whether the path names a `permissions.json` file.
pub fn is_permissions_path(path: &str) -> (r: bool)
    ensures
        r == permissions_path(path@),
{
    match path_file_name(path) {
        Some(name) => str_eq(name.as_str(), "permissions.json"),
        None => false,
    }
}

/// A change of a configuration section, as reported to subscribers.
#[derive(Debug, Clone)]
pub enum ConfigChangeEvent {
    /// The section was reloaded.
    Reloaded { section: ConfigSection, path: String },
    /// Reloading the section failed (parse or validation error).
    Failed { section: ConfigSection, path: String, error: String },
}

// ── Dispatch ─────────────────────────────────────────────────────────────

/// What a changed path calls for.
#[derive(Debug, Clone, Copy, PartialEq, Eq, Structural)]
pub enum DispatchAction {
    /// Reload the whole credentials directory and stage it for restart.
    ReloadCredentials,
    /// An agent's `permissions.json` changed: reload permissions only.
    PermissionsChanged,
    /// An agent's configuration or the agent registry changed.
    AgentsChanged,
    /// Reload a configuration section, then report the file change.
    ReloadSection(ConfigSection),
    /// Nothing to do.
    Ignore,
}

/// The action a change of the path `p` calls for.
pub open spec fn dispatch_spec(p: Seq<char>) -> DispatchAction {
    if credentials_path(p) {
        DispatchAction::ReloadCredentials
    } else if agents_path(p) && permissions_path(p) {
        DispatchAction::PermissionsChanged
    } else if agents_path(p) {
        DispatchAction::AgentsChanged
    } else {
        match file_name(p) {
            None => DispatchAction::Ignore,
            Some(f) => if f == "agents.json"@ {
                DispatchAction::AgentsChanged
            } else {
                match section_of_filename(f) {
                    Some(s) => DispatchAction::ReloadSection(s),
                    None => DispatchAction::Ignore,
                }
            },
        }
    }
}

/// Decide what a change of `path` calls for.
pub fn dispatch_change(path: &str) -> (r: DispatchAction)
    ensures
        r == dispatch_spec(path@),
{
    if is_credentials_path(path) {
        return DispatchAction::ReloadCredentials;
    }
    if is_agents_path(path) && is_permissions_path(path) {
        return DispatchAction::PermissionsChanged;
    }
    if is_agents_path(path) {
        return DispatchAction::AgentsChanged;
    }
    match path_file_name(path) {
        None => DispatchAction::Ignore,
        Some(f) => {
            if str_eq(f.as_str(), "agents.json") {
                DispatchAction::AgentsChanged
            } else {
                match filename_to_section(f.as_str()) {
                    Some(s) => DispatchAction::ReloadSection(s),
                    None => DispatchAction::Ignore,
                }
            }
        },
    }
}

// ── Reloading a section ──────────────────────────────────────────────────

/// The `bindings` member of an accounts value, if any.
pub open spec fn bindings_member(v: Option<JsonValue>) -> Option<JsonValue> {
    match v {
        Some(x) => json_get(x, "bindings"@),
        None => None,
    }
}

/// Whether `v` is an empty array.
pub open spec fn is_empty_array(v: JsonValue) -> bool {
    match v {
        JsonValue::Array(xs) => xs@.len() == 0,
        _ => false,
    }
}

/// Whether two optional binding lists are equal; a missing list counts
/// as an empty one.
pub open spec fn same_bindings(a: Option<JsonValue>, b: Option<JsonValue>) -> bool {
    match (a, b) {
        (Some(x), Some(y)) => json_eq(x, y),
        (Some(x), None) => is_empty_array(x),
        (None, Some(y)) => is_empty_array(y),
        (None, None) => true,
    }
}

/// Whether the bot-to-agent bindings differ between the old and the new
/// accounts value.
pub open spec fn bindings_changed(old: Option<JsonValue>, new: JsonValue) -> bool {
    !same_bindings(bindings_member(old), bindings_member(Some(new)))
}

/// An empty JSON array.
fn new_empty_array() -> (r: JsonValue)
    ensures
        is_empty_array(r),
{
    JsonValue::Array(Vec::new())
}

/// Comparing with an empty array is asking whether a value is one.
proof fn lemma_compare_with_empty(e: JsonValue, x: JsonValue)
    requires
        is_empty_array(e),
    ensures
        json_eq(x, e) == is_empty_array(x),
        json_eq(e, x) == is_empty_array(x),
{
}

/// Whether the bindings of the old and new accounts values differ.
pub fn bindings_differ(old: Option<&JsonValue>, new: &JsonValue) -> (r: bool)
    ensures
        r == bindings_changed(
            match old {
                Some(o) => Some(*o),
                None => None,
            },
            *new,
        ),
{
    let empty = new_empty_array();
    let old_b: Option<&JsonValue> = match old {
        Some(o) => o.get("bindings"),
        None => None,
    };
    let new_b: Option<&JsonValue> = new.get("bindings");
    let same = match (old_b, new_b) {
        (Some(x), Some(y)) => crate::json::json_equal(x, y),
        (Some(x), None) => {
            proof {
                lemma_compare_with_empty(empty, *x);
            }
            crate::json::json_equal(x, &empty)
        },
        (None, Some(y)) => {
            proof {
                lemma_compare_with_empty(empty, *y);
            }
            crate::json::json_equal(&empty, y)
        },
        (None, None) => true,
    };
    !same
}

/// What a reloaded section value leads to.
#[derive(Debug)]
pub enum ReloadDecision {
    /// The value is rejected; the old value (if any) stays in effect.
    /// `block` is set when there is no old value: the section is then
    /// blocked until a later reload succeeds.
    Reject { block: bool, error: ReloadError },
    /// The value waits in the pending-restart area until a gateway restart.
    Stage(JsonValue),
    /// The value replaces the cached one at once.
    Apply(JsonValue),
}

/// Why a reloaded value was rejected.
#[derive(Debug)]
pub enum ReloadError {
    /// The file is not valid JSON; the parser's message.
    Parse(String),
    /// The value failed the section's validator; its message.
    Validation(String),
}

/// Whether a valid reloaded value must wait for a gateway restart.
pub open spec fn must_stage(section: ConfigSection, old: Option<JsonValue>, new: JsonValue) -> bool {
    if section == ConfigSection::Accounts {
        bindings_changed(old, new)
    } else {
        restart_class(section)
    }
}

/// Decide the fate of a reloaded section value.
///
/// `parsed` is the outcome of parsing the section file; `current` is the
/// value in effect (none when the section is unset or blocked); `existing`
/// lists the paths the validator may look up that exist.
pub fn decide_reload(
    section: ConfigSection,
    parsed: Result<JsonValue, String>,
    current: Option<&JsonValue>,
    existing: &Vec<String>,
) -> (r: ReloadDecision)
    ensures
        match parsed {
            Err(e) => r matches ReloadDecision::Reject { block, error: ReloadError::Parse(m) } && m@
                == e@ && block == current.is_none(),
            Ok(v) => match section_check(section, v, existing@) {
                Err(msg) => r matches ReloadDecision::Reject {
                    block,
                    error: ReloadError::Validation(m),
                } && m@ == msg && block == current.is_none(),
                Ok(_) => {
                    let old = match current {
                        Some(c) => Some(*c),
                        None => None,
                    };
                    if must_stage(section, old, v) {
                        r == ReloadDecision::Stage(v)
                    } else {
                        r == ReloadDecision::Apply(v)
                    }
                },
            },
        },
{
    match parsed {
        Err(e) => ReloadDecision::Reject {
            block: current.is_none(),
            error: ReloadError::Parse(e),
        },
        Ok(v) => {
            match validate_section(section, &v, existing) {
                Err(m) => ReloadDecision::Reject {
                    block: current.is_none(),
                    error: ReloadError::Validation(m),
                },
                Ok(()) => {
                    let stage = match section {
                        ConfigSection::Accounts => bindings_differ(current, &v),
                        _ => section.is_restart_class(),
                    };
                    if stage {
                        ReloadDecision::Stage(v)
                    } else {
                        ReloadDecision::Apply(v)
                    }
                },
            }
        },
    }
}

/// Law: a valid reload of a restart-class section (models, channels,
/// gateway, credentials) waits for the gateway restart; the value in
/// effect stays as it was until then.
pub proof fn law_restart_class_reload_is_staged(
    section: ConfigSection,
    old: Option<JsonValue>,
    new: JsonValue,
)
    requires
        restart_class(section),
    ensures
        must_stage(section, old, new),
{
}

/// Law: a valid reload of any other section but the accounts takes
/// effect at once.
pub proof fn law_other_reload_is_applied(section: ConfigSection, old: Option<JsonValue>, new: JsonValue)
    requires
        !restart_class(section),
        section != ConfigSection::Accounts,
    ensures
        !must_stage(section, old, new),
{
}

/// Law: a valid accounts reload takes effect at once exactly when the
/// bot-to-agent bindings are unchanged (identity mappings apply at once);
/// a change of the bindings waits for the restart.
pub proof fn law_accounts_reload_stages_on_binding_change(old: Option<JsonValue>, new: JsonValue)
    ensures
        must_stage(ConfigSection::Accounts, old, new) == bindings_changed(old, new),
{
}

} // verus!
