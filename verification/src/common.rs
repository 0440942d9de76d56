//! Types shared by the agent runtime: tool flags and errors, tool prompt
//! context, verbosity, prompt splitting, sessions and background tasks.

use vstd::prelude::*;

use crate::checks::{cat2, cat5};
use crate::text::{
    chars_of, contains_seq, decimal, first_occurrence, find_chars, owned, push_decimal, push_str,
    str_eq, string_of_range, trim_end_range, trim_end_seq, trim_start_range, trim_start_seq,
};

verus! {

// ── Tools ────────────────────────────────────────────────────────────────

/// Tool runtime flags.
#[derive(Debug, Clone, Copy)]
pub struct ToolFlags {
    /// Safe to call concurrently from several agents.
    pub is_concurrency_safe: bool,
    /// Only reads data, never modifies files or state.
    pub is_read_only: bool,
    /// May overwrite or delete data; needs explicit confirmation.
    pub is_destructive: bool,
    /// May be slow or consume significant resources.
    pub is_expensive: bool,
    /// The tool's detail is not loaded into the system prompt by default.
    pub is_deferred_by_default: bool,
}

impl Default for ToolFlags {
    fn default() -> (r: Self)
        ensures
            !r.is_concurrency_safe,
            !r.is_read_only,
            !r.is_destructive,
            !r.is_expensive,
            !r.is_deferred_by_default,
    {
        ToolFlags {
            is_concurrency_safe: false,
            is_read_only: false,
            is_destructive: false,
            is_expensive: false,
            is_deferred_by_default: false,
        }
    }
}

impl ToolFlags {
    /// Whether the tool is loaded into the system prompt by default.
    pub fn is_eager(&self) -> (r: bool)
        ensures
            r == !self.is_deferred_by_default,
    {
        !self.is_deferred_by_default
    }
}

/// Error of a tool registry operation.
#[derive(Debug)]
pub enum RegistryError {
    /// A tool name was already registered.
    AlreadyRegistered(String),
    /// A tool name was already registered, with the conflict's details.
    Conflict { tool: String, registrar: String, attempting: String },
    /// The registry is frozen.
    Frozen,
    /// Internal error during registration.
    Internal(String),
}

/// The message of a conflict between registrars.
pub open spec fn conflict_message(tool: Seq<char>, registrar: Seq<char>, attempting: Seq<char>) -> Seq<char> {
    "tool `"@ + tool + "` already registered by `"@ + registrar + "`, attempting: `"@ + attempting
        + "`"@
}

/// The message of a [`RegistryError`].
pub open spec fn registry_error_message(e: RegistryError) -> Seq<char> {
    match e {
        RegistryError::AlreadyRegistered(t) => "tool `"@ + t@ + "` already registered"@,
        RegistryError::Conflict { tool, registrar, attempting } => conflict_message(
            tool@,
            registrar@,
            attempting@,
        ),
        RegistryError::Frozen => "tool registry is frozen — no further registrations accepted"@,
        RegistryError::Internal(m) => m@,
    }
}

/// The message of a registrar conflict.
fn conflict_text(tool: &str, registrar: &str, attempting: &str) -> (r: String)
    ensures
        r@ == conflict_message(tool@, registrar@, attempting@),
{
    let mut r = cat5("tool `", tool, "` already registered by `", registrar, "`, attempting: `");
    push_str(&mut r, attempting);
    push_str(&mut r, "`");
    r
}

impl RegistryError {
    /// The error's message.
    pub fn to_string(&self) -> (r: String)
        ensures
            r@ == registry_error_message(*self),
    {
        match self {
            RegistryError::AlreadyRegistered(t) => {
                let mut r = cat2("tool `", t.as_str());
                push_str(&mut r, "` already registered");
                r
            },
            RegistryError::Conflict { tool, registrar, attempting } => conflict_text(
                tool.as_str(),
                registrar.as_str(),
                attempting.as_str(),
            ),
            RegistryError::Frozen => owned("tool registry is frozen — no further registrations accepted"),
            RegistryError::Internal(m) => m.clone(),
        }
    }
}

/// Error of a tool registrar.
#[derive(Debug)]
pub enum ToolRegistrarError {
    /// A tool name was already registered by another registrar.
    Conflict { tool: String, registrar: String, attempting: String },
    /// Internal error within a registrar.
    Internal(String),
}

/// The message of a [`ToolRegistrarError`].
pub open spec fn registrar_error_message(e: ToolRegistrarError) -> Seq<char> {
    match e {
        ToolRegistrarError::Conflict { tool, registrar, attempting } => conflict_message(
            tool@,
            registrar@,
            attempting@,
        ),
        ToolRegistrarError::Internal(m) => m@,
    }
}

impl ToolRegistrarError {
    /// The error's message.
    pub fn to_string(&self) -> (r: String)
        ensures
            r@ == registrar_error_message(*self),
    {
        match self {
            ToolRegistrarError::Conflict { tool, registrar, attempting } => conflict_text(
                tool.as_str(),
                registrar.as_str(),
                attempting.as_str(),
            ),
            ToolRegistrarError::Internal(m) => m.clone(),
        }
    }
}

/// Working directory context of a tool call.
#[derive(Debug, Clone)]
pub struct WorkdirContext {
    /// Absolute path of the working directory.
    pub path: String,
    /// Whether the directory is in a git repository.
    pub has_git: bool,
    /// Current git branch, when in a repository.
    pub branch: Option<String>,
    /// Number of uncommitted changes, when in a repository.
    pub recent_changes: usize,
}

/// The session's interaction mode.
#[derive(Debug, Clone, Copy, PartialEq, Eq, Structural)]
pub enum SessionMode {
    Normal,
    Plan,
    Auto,
}

/// Runtime context for generating a tool's prompt description.
#[derive(Debug, Clone)]
pub struct PromptGenerationContext {
    /// Agent for which the prompt is built.
    pub agent_id: String,
    /// Working directory context, if set.
    pub workdir: Option<WorkdirContext>,
    /// Names of all tools available to the model.
    pub available_tool_names: Vec<String>,
    /// Agent-level tool whitelist; `None`, `[]` and `["*"]` allow all.
    pub tools: Option<Vec<String>>,
    /// Agent-level tool blacklist, applied after the whitelist.
    pub disallowed_tools: Option<Vec<String>>,
    /// Session mode, for mode-aware tool filtering.
    pub session_mode: Option<SessionMode>,
}

impl Default for PromptGenerationContext {
    fn default() -> (r: Self)
        ensures
            r.agent_id@.len() == 0,
            r.workdir is None,
            r.available_tool_names@.len() == 0,
            r.tools is None,
            r.disallowed_tools is None,
            r.session_mode is None,
    {
        PromptGenerationContext {
            agent_id: String::new(),
            workdir: None,
            available_tool_names: Vec::new(),
            tools: None,
            disallowed_tools: None,
            session_mode: None,
        }
    }
}

/// Error raised while executing a tool.
#[derive(Debug, Clone)]
pub enum ToolCallError {
    NotFound(String),
    PermissionDenied(String),
    InvalidArgs(String),
    ExecutionFailed(String),
    NotImplemented,
}

/// The message of a [`ToolCallError`].
pub open spec fn tool_call_error_message(e: ToolCallError) -> Seq<char> {
    match e {
        ToolCallError::NotFound(s) => "skill not found: "@ + s@,
        ToolCallError::PermissionDenied(s) => "permission denied for skill: "@ + s@,
        ToolCallError::InvalidArgs(s) => "invalid arguments: "@ + s@,
        ToolCallError::ExecutionFailed(s) => "execution failed: "@ + s@,
        ToolCallError::NotImplemented => "call not implemented for this tool"@,
    }
}

impl ToolCallError {
    /// The error's message.
    pub fn to_string(&self) -> (r: String)
        ensures
            r@ == tool_call_error_message(*self),
    {
        match self {
            ToolCallError::NotFound(s) => cat2("skill not found: ", s.as_str()),
            ToolCallError::PermissionDenied(s) => cat2("permission denied for skill: ", s.as_str()),
            ToolCallError::InvalidArgs(s) => cat2("invalid arguments: ", s.as_str()),
            ToolCallError::ExecutionFailed(s) => cat2("execution failed: ", s.as_str()),
            ToolCallError::NotImplemented => owned("call not implemented for this tool"),
        }
    }
}

/// A message injected into the agent context.
#[derive(Debug, Clone)]
pub struct ToolMessage {
    /// The message's content.
    pub content: String,
    /// Whether the message is metadata rather than from a user.
    pub is_meta: bool,
}

/// Modifies the agent session context after a tool ran.
#[derive(Debug, Clone)]
pub struct ContextModifier {
    /// Tools the agent may use.
    pub allowed_tools: Vec<String>,
}

/// A line range of a file read by a tool.
#[derive(Debug, Clone, PartialEq, Eq)]
pub struct ReadRange {
    /// First line read.
    pub offset: usize,
    /// Number of lines read; `None` for the rest of the file.
    pub limit: Option<usize>,
}

/// A point in time: seconds and nanoseconds since the Unix epoch (a file's
/// modification time, for instance).
#[derive(Debug, Clone, Copy, PartialEq, Eq, Structural)]
pub struct FileStamp {
    pub secs: u64,
    pub nanos: u32,
}

/// A length of time: seconds and nanoseconds.
#[derive(Debug, Clone, Copy, PartialEq, Eq, Structural)]
pub struct TimeSpan {
    pub secs: u64,
    pub nanos: u32,
}

/// What a tool remembers of a file it read in the current turn: the
/// file's modification time at that read, and every range read since.
#[derive(Debug, Clone, PartialEq)]
pub struct FileReadCache {
    /// The modification time recorded when the file was last read.
    pub mtime: Option<FileStamp>,
    /// All ranges that have been read from this file in the current turn.
    pub ranges: Vec<ReadRange>,
}

/// Live output statistics of a running tool.
#[derive(Debug, Clone)]
pub struct ToolProgress {
    /// Number of lines output so far.
    pub lines: usize,
    /// Number of bytes output so far.
    pub bytes: usize,
    /// Elapsed time since the command started.
    pub elapsed: TimeSpan,
}

/// A handle that can stop a running tool process.
pub trait KillHandle {
    /// Stop the process.
    fn kill(&self) -> Result<(), std::io::Error>;
}

/// The I/O error type of kill handles and background tasks.
#[verifier::external_type_specification]
#[verifier::external_body]
pub struct ExIoError(std::io::Error);

// ── Git status text ──────────────────────────────────────────────────────

/// The status line of a working tree with `changes` uncommitted changes.
pub open spec fn git_status_text(branch: Seq<char>, changes: nat) -> Seq<char> {
    "On branch "@ + branch + "\n  status: "@ + if changes == 0 {
        "clean"@
    } else {
        decimal(changes) + " uncommitted change(s)"@
    }
}

/// The git status summary of a repository on `branch` with `changes`
/// uncommitted changes.
pub fn format_git_status(branch: &str, changes: usize) -> (r: String)
    ensures
        r@ == git_status_text(branch@, changes as nat),
{
    let mut r = cat2("On branch ", branch);
    push_str(&mut r, "\n  status: ");
    if changes == 0 {
        push_str(&mut r, "clean");
    } else {
        let ghost before = r@;
        push_decimal(&mut r, changes as u64);
        push_str(&mut r, " uncommitted change(s)");
        assert(r@ == before + (decimal(changes as nat) + " uncommitted change(s)"@));
    }
    r
}

/// The number of non-empty lines among `s[i..]` split at `'\n'`
/// (a `'\r'` before a newline belongs to the line ending).
pub open spec fn nonempty_lines_from(s: Seq<char>, i: int) -> nat
    decreases s.len() - i,
{
    if i < 0 || i >= s.len() {
        0
    } else {
        let end = crate::agents::next_newline(s, i);
        let line = crate::agents::line_at(s, i, end);
        let here: nat = if line.len() > 0 { 1 } else { 0 };
        if end + 1 >= s.len() {
            here
        } else {
            proof {
                crate::agents::lemma_next_newline_bounds(s, i);
            }
            here + nonempty_lines_from(s, end + 1)
        }
    }
}

/// The number of non-empty lines of `s` (`s.lines().filter(non-empty).count()`).
pub fn count_nonempty_lines(s: &str) -> (r: usize)
    ensures
        r == nonempty_lines_from(s@, 0),
{
    let v = chars_of(s);
    let mut start: usize = 0;
    let mut count: usize = 0;
    while start < v.len()
        invariant
            v@ == s@,
            start <= v@.len(),
            count <= start,
            count + nonempty_lines_from(v@, start as int) == nonempty_lines_from(v@, 0),
        decreases v.len() - start,
    {
        let mut end = start;
        while end < v.len() && v[end] != '\n'
            invariant
                start <= end <= v@.len(),
                crate::agents::next_newline(v@, start as int) == crate::agents::next_newline(
                    v@,
                    end as int,
                ),
            decreases v.len() - end,
        {
            end = end + 1;
        }
        proof {
            crate::agents::lemma_next_newline_bounds(v@, start as int);
        }
        let line_len = if end < v.len() && end > start && v[end - 1] == '\r' {
            end - 1 - start
        } else {
            end - start
        };
        assert(crate::agents::line_at(v@, start as int, end as int).len() == line_len);
        if line_len > 0 {
            count = count + 1;
        }
        if end >= v.len() {
            start = v.len();
        } else {
            start = end + 1;
        }
    }
    count
}

// ── Verbosity ────────────────────────────────────────────────────────────

/// Verbosity level: how much content outbound messages keep.
#[derive(Debug, Clone, Copy, PartialEq, Eq, Structural)]
pub enum VerbosityLevel {
    /// No filtering.
    Full,
    /// Thinking blocks removed.
    Normal,
    /// Only text blocks kept.
    Off,
}

/// The name of a verbosity level.
pub open spec fn verbosity_name(v: VerbosityLevel) -> Seq<char> {
    match v {
        VerbosityLevel::Full => "full"@,
        VerbosityLevel::Normal => "normal"@,
        VerbosityLevel::Off => "off"@,
    }
}

/// The level named `s`, or the error message.
pub open spec fn verbosity_parse(s: Seq<char>) -> Result<VerbosityLevel, Seq<char>> {
    if s == "full"@ {
        Ok(VerbosityLevel::Full)
    } else if s == "normal"@ {
        Ok(VerbosityLevel::Normal)
    } else if s == "off"@ {
        Ok(VerbosityLevel::Off)
    } else {
        Err("invalid verbosity level: "@ + s)
    }
}

impl Default for VerbosityLevel {
    fn default() -> (r: Self)
        ensures
            r == VerbosityLevel::Full,
    {
        VerbosityLevel::Full
    }
}

impl VerbosityLevel {
    /// The level's name.
    pub fn to_string(&self) -> (r: String)
        ensures
            r@ == verbosity_name(*self),
    {
        match self {
            VerbosityLevel::Full => owned("full"),
            VerbosityLevel::Normal => owned("normal"),
            VerbosityLevel::Off => owned("off"),
        }
    }

    /// The level named `s`.
    pub fn parse(s: &str) -> (r: Result<VerbosityLevel, String>)
        ensures
            match (r, verbosity_parse(s@)) {
                (Ok(a), Ok(b)) => a == b,
                (Err(m), Err(n)) => m@ == n,
                _ => false,
            },
    {
        if str_eq(s, "full") {
            Ok(VerbosityLevel::Full)
        } else if str_eq(s, "normal") {
            Ok(VerbosityLevel::Normal)
        } else if str_eq(s, "off") {
            Ok(VerbosityLevel::Off)
        } else {
            Err(cat2("invalid verbosity level: ", s))
        }
    }
}

impl std::str::FromStr for VerbosityLevel {
    type Err = String;

    fn from_str(s: &str) -> (r: Result<Self, Self::Err>)
        ensures
            match (r, verbosity_parse(s@)) {
                (Ok(a), Ok(b)) => a == b,
                (Err(m), Err(n)) => m@ == n,
                _ => false,
            },
    {
        VerbosityLevel::parse(s)
    }
}

/// Law: every level is read back from its own name.
pub proof fn law_verbosity_name_round_trip(v: VerbosityLevel)
    ensures
        verbosity_parse(verbosity_name(v)) == Ok::<VerbosityLevel, Seq<char>>(v),
{
    reveal_strlit("full");
    reveal_strlit("normal");
    reveal_strlit("off");
    assert("full"@.len() == 4 && "normal"@.len() == 6 && "off"@.len() == 3);
}

// ── System prompt ────────────────────────────────────────────────────────

/// The marker between the static and the dynamic part of a system prompt.
pub const DYNAMIC_BOUNDARY: &'static str = "__SYSTEM_PROMPT_DYNAMIC_BOUNDARY__";

/// A text, or nothing when it is empty.
pub open spec fn non_empty(s: Seq<char>) -> Option<Seq<char>> {
    if s.len() == 0 {
        None
    } else {
        Some(s)
    }
}

/// The static and dynamic parts of a full system prompt.
///
/// Before the first marker, with trailing whitespace trimmed, is the static
/// part; after it, with leading whitespace trimmed, the dynamic part.
/// Without a marker the whole prompt is static; an empty prompt has neither.
pub open spec fn split_spec(p: Seq<char>) -> (Option<Seq<char>>, Option<Seq<char>>) {
    if p.len() == 0 {
        (None, None)
    } else if contains_seq(p, DYNAMIC_BOUNDARY@) {
        let pos = choose|i: int| first_occurrence(p, DYNAMIC_BOUNDARY@, i);
        (
            non_empty(trim_end_seq(p.subrange(0, pos))),
            non_empty(
                trim_start_seq(p.subrange(pos + DYNAMIC_BOUNDARY@.len(), p.len() as int)),
            ),
        )
    } else {
        (Some(p), None)
    }
}

/// The characters of an optional string.
pub open spec fn opt_view(o: Option<String>) -> Option<Seq<char>> {
    match o {
        Some(s) => Some(s@),
        None => None,
    }
}

/// A string of `v[from..to]`, or nothing when the range is empty.
fn part(v: &Vec<char>, from: usize, to: usize) -> (r: Option<String>)
    requires
        from <= to <= v@.len(),
    ensures
        opt_view(r) == non_empty(v@.subrange(from as int, to as int)),
{
    if from == to {
        None
    } else {
        Some(string_of_range(v, from, to))
    }
}

/// Split a full system prompt into its static and dynamic parts.
pub fn split_static_dynamic(full_prompt: &str) -> (r: (Option<String>, Option<String>))
    ensures
        (opt_view(r.0), opt_view(r.1)) == split_spec(full_prompt@),
{
    if full_prompt.is_empty() {
        return (None, None);
    }
    let v = chars_of(full_prompt);
    let marker = chars_of(DYNAMIC_BOUNDARY);
    match find_chars(&v, &marker) {
        Some(pos) => {
            proof {
                assert forall|i: int| first_occurrence(v@, marker@, i) implies i == pos by {
                    if i < pos {
                        assert(!crate::text::occurs_at(v@, marker@, i));
                    } else if i > pos {
                        assert(!crate::text::occurs_at(v@, marker@, pos as int));
                    }
                }
                assert(contains_seq(v@, marker@));
            }
            let end = trim_end_range(&v, 0, pos);
            let start = trim_start_range(&v, pos + marker.len(), v.len());
            (part(&v, 0, end), part(&v, start, v.len()))
        },
        None => (Some(owned(full_prompt)), None),
    }
}

/// Which mode change triggered a prompt rebuild.
#[derive(Debug, Clone, Copy, PartialEq, Eq, Structural)]
pub enum ModeTransition {
    /// Re-entering plan mode after leaving it.
    PlanModeReentry,
    /// Leaving plan mode to execute.
    PlanModeExit,
    /// Auto mode finished.
    AutoModeExit,
}

/// Overrides of the three-tier prompt priority: override, agent, custom.
#[derive(Debug, Clone)]
pub struct PromptOverrides {
    pub override_prompt: Option<String>,
    pub agent_prompt: Option<String>,
    pub custom_prompt: Option<String>,
}

impl Default for PromptOverrides {
    fn default() -> (r: Self)
        ensures
            r.override_prompt is None,
            r.agent_prompt is None,
            r.custom_prompt is None,
    {
        PromptOverrides { override_prompt: None, agent_prompt: None, custom_prompt: None }
    }
}

// ── Sessions and background tasks ────────────────────────────────────────

/// Status of a persisted session.
#[derive(Debug, Clone, Copy, PartialEq, Eq, Structural)]
pub enum SessionStatus {
    Active,
    Idle,
    Stopped,
}

/// A persisted snapshot of a session.
#[derive(Debug, Clone)]
pub struct SessionCheckpoint {
    pub session_id: String,
    pub agent_id: String,
    pub channel: String,
    pub status: SessionStatus,
    /// Unix timestamp of the last activity.
    pub last_activity: i64,
}

/// Outcome of persisting sessions.
#[derive(Debug)]
pub enum PersistResult {
    Success,
    PartialSuccess { warnings: Vec<String> },
    Failure(String),
}

/// State of a background task.
#[derive(Debug, Clone, PartialEq, Eq, Structural)]
pub enum TaskState {
    Running,
    Completed { exit_code: i32 },
    Failed { exit_code: i32 },
    Killed,
}

/// A command running in the background.
#[derive(Debug, Clone)]
pub struct BackgroundTask {
    pub id: String,
    pub command: String,
    pub state: TaskState,
    /// File receiving the task's output.
    pub output_path: String,
}

/// Error of a background task operation.
#[derive(Debug)]
pub enum BackgroundTaskError {
    NotFound(String),
    Io(std::io::Error),
    AlreadyCompleted,
}

} // verus!
