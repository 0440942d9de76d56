//! Per-agent configuration (`config.json`) and its two-level resolution.
//!
//! A [`ResolvedAgentConfig`] combines a user-level and a project-level
//! [`AgentConfig`]:
//!
//! - `Option` fields: the project's `Some` wins, then the user's, then the
//!   field's default.
//! - List fields (`skills`, `tools`, `disallowed_tools`, `allow_agents`):
//!   a non-empty project list replaces the user's list.
//! - `id` is required: the project's non-empty id wins, else the user's;
//!   an empty id after the fallback is rejected with
//!   [`ConfigError::MissingId`].
//! - `name` falls back to the resolved id when neither level gives a
//!   non-empty name.
//! - Memory settings merge in three layers: global → user → project.

use vstd::prelude::*;

use crate::errors::ConfigError;
use crate::memory_config::{
    law_memory_merge_associative, law_memory_merge_idempotent, law_memory_merge_unset_agent,
    memory_merge, memory_unset, MemoryConfig,
};
use crate::text::{clone_strings, opt_copy_or, opt_or, owned};

verus! {

/// How many bootstrap files an agent loads at session start.
#[derive(Debug, Clone, Copy, PartialEq, Eq, Structural)]
pub enum BootstrapMode {
    /// Load every bootstrap file.
    Full,
    /// Load only the essential bootstrap files.
    Minimal,
}

/// Agent model specification: a primary model and ordered fallbacks.
#[derive(Debug, Clone, PartialEq, Eq, Hash)]
pub struct ModelSpec {
    pub primary: String,
    pub fallback: Vec<String>,
}

impl ModelSpec {
    /// A specification with a single primary model and no fallbacks.
    pub fn single(model: &str) -> (r: ModelSpec)
        ensures
            r.primary@ == model@,
            r.fallback@ == Seq::<String>::empty(),
    {
        ModelSpec { primary: owned(model), fallback: Vec::new() }
    }

    /// A specification with a primary model and a list of fallbacks.
    pub fn with_fallback(primary: &str, fallback: Vec<String>) -> (r: ModelSpec)
        ensures
            r.primary@ == primary@,
            r.fallback == fallback,
    {
        ModelSpec { primary: owned(primary), fallback }
    }

    /// The displayed form of the specification: the primary model.
    pub fn to_string(&self) -> (r: String)
        ensures
            r@ == self.primary@,
    {
        self.primary.clone()
    }
}

/// Sub-agent spawn control configuration.
#[derive(Debug, Clone)]
pub struct SubagentsConfig {
    /// Allowed target agent ids; `["*"]` means no restriction.
    pub allow_agents: Vec<String>,
    /// Whether the agent id must be given explicitly when spawning.
    pub require_agent_id: Option<bool>,
    /// Maximum nested spawn depth.
    pub max_spawn_depth: Option<u32>,
    /// Maximum concurrently active child sessions.
    pub max_children: Option<u32>,
    /// Sub-agent maximum execution duration in seconds.
    pub timeout: Option<u64>,
    /// Kept for configuration compatibility; spawn ignores it.
    pub default_child_agent: Option<String>,
    /// Model override for child agents.
    pub model: Option<ModelSpec>,
}

/// Whether a list is exactly `["*"]`.
pub open spec fn is_star_list(s: Seq<String>) -> bool {
    s.len() == 1 && s[0]@ == "*"@
}

/// The list `["*"]`.
pub fn all_marker() -> (r: Vec<String>)
    ensures
        is_star_list(r@),
{
    let mut v: Vec<String> = Vec::new();
    v.push(owned("*"));
    proof {
        reveal_strlit("*");
    }
    v
}

impl Default for SubagentsConfig {
    fn default() -> (r: Self)
        ensures
            is_star_list(r.allow_agents@),
            r.require_agent_id is None,
            r.max_spawn_depth is None,
            r.max_children is None,
            r.timeout is None,
            r.default_child_agent is None,
            r.model is None,
    {
        SubagentsConfig {
            allow_agents: all_marker(),
            require_agent_id: None,
            max_spawn_depth: None,
            max_children: None,
            timeout: None,
            default_child_agent: None,
            model: None,
        }
    }
}

/// An agent's own configuration (`config.json` in the agent's directory).
#[derive(Debug, Clone)]
pub struct AgentConfig {
    /// Unique identifier of the agent.
    pub id: String,
    /// Human-readable name.
    pub name: Option<String>,
    /// Parent agent id, for spawned agents.
    pub parent_id: Option<String>,
    /// Default model of the agent.
    pub model: Option<ModelSpec>,
    /// Working directory path.
    pub workspace: Option<String>,
    /// Directory of the bootstrap files.
    pub agent_dir: Option<String>,
    /// Bootstrap file loading mode.
    pub bootstrap_mode: Option<BootstrapMode>,
    /// Available skill names; `["*"]` means all.
    pub skills: Vec<String>,
    /// Available tool names; `["*"]` means all.
    pub tools: Vec<String>,
    /// Tool names that are blocked.
    pub disallowed_tools: Vec<String>,
    /// Sub-agent spawn control.
    pub subagents: SubagentsConfig,
    /// Memory subsystem overrides of this agent.
    pub memory: Option<MemoryConfig>,
}

impl Default for AgentConfig {
    fn default() -> (r: Self)
        ensures
            r.id@ == Seq::<char>::empty(),
            r.name is None,
            r.parent_id is None,
            r.model is None,
            r.workspace is None,
            r.agent_dir is None,
            r.bootstrap_mode is None,
            is_star_list(r.skills@),
            is_star_list(r.tools@),
            r.disallowed_tools@.len() == 0,
            is_star_list(r.subagents.allow_agents@),
            r.subagents.require_agent_id is None,
            r.subagents.max_spawn_depth is None,
            r.subagents.max_children is None,
            r.subagents.timeout is None,
            r.subagents.default_child_agent is None,
            r.subagents.model is None,
            r.memory is None,
    {
        AgentConfig {
            id: String::new(),
            name: None,
            parent_id: None,
            model: None,
            workspace: None,
            agent_dir: None,
            bootstrap_mode: None,
            skills: all_marker(),
            tools: all_marker(),
            disallowed_tools: Vec::new(),
            subagents: SubagentsConfig::default(),
            memory: None,
        }
    }
}

/// The level a resolved configuration came from.
#[derive(Debug, Clone, Copy, PartialEq, Eq, Structural)]
pub enum ConfigSource {
    /// Loaded from the user level only.
    User,
    /// Loaded from the project level only.
    Project,
    /// Merged from both levels.
    Merged,
}

/// Fully resolved agent configuration.
#[derive(Debug, Clone)]
pub struct ResolvedAgentConfig {
    pub id: String,
    pub name: String,
    pub parent_id: Option<String>,
    pub model: Option<ModelSpec>,
    pub workspace: Option<String>,
    pub agent_dir: Option<String>,
    pub bootstrap_mode: BootstrapMode,
    pub skills: Vec<String>,
    pub tools: Vec<String>,
    pub disallowed_tools: Vec<String>,
    pub subagents: SubagentsConfig,
    pub memory: MemoryConfig,
    /// Which configuration level this was resolved from.
    pub source: ConfigSource,
}

// ── Resolution rules ─────────────────────────────────────────────────────

/// Default nested spawn depth.
pub const DEFAULT_MAX_SPAWN_DEPTH: u32 = 1;

/// Default number of concurrent child sessions.
pub const DEFAULT_MAX_CHILDREN: u32 = 5;

/// Default of "agent id required when spawning".
pub const DEFAULT_REQUIRE_AGENT_ID: bool = false;

/// A non-empty name, or nothing (`None` and `Some("")` both give nothing).
pub open spec fn given_name(n: Option<String>) -> Option<Seq<char>> {
    match n {
        Some(s) => if s@.len() > 0 { Some(s@) } else { None },
        None => None,
    }
}

/// The project's list when it is non-empty, otherwise the user's.
pub open spec fn override_list(project: Seq<String>, user: Seq<String>) -> Seq<String> {
    if project.len() > 0 { project } else { user }
}

/// An `Option` with its default filled in.
pub open spec fn or_default<T>(o: Option<T>, d: T) -> T {
    match o {
        Some(x) => x,
        None => d,
    }
}

/// Sub-agent settings with the unset scalar fields given their defaults.
pub open spec fn subagents_with_defaults(c: SubagentsConfig) -> SubagentsConfig {
    SubagentsConfig {
        require_agent_id: Some(or_default(c.require_agent_id, DEFAULT_REQUIRE_AGENT_ID)),
        max_spawn_depth: Some(or_default(c.max_spawn_depth, DEFAULT_MAX_SPAWN_DEPTH)),
        max_children: Some(or_default(c.max_children, DEFAULT_MAX_CHILDREN)),
        ..c
    }
}

/// Whether `r` is `project` merged over `user` and then defaulted.
pub open spec fn subagents_merged(
    r: SubagentsConfig,
    project: SubagentsConfig,
    user: SubagentsConfig,
) -> bool {
    &&& r.allow_agents@ == override_list(project.allow_agents@, user.allow_agents@)
    &&& r.require_agent_id == Some(
        or_default(opt_or(project.require_agent_id, user.require_agent_id), DEFAULT_REQUIRE_AGENT_ID),
    )
    &&& r.max_spawn_depth == Some(
        or_default(opt_or(project.max_spawn_depth, user.max_spawn_depth), DEFAULT_MAX_SPAWN_DEPTH),
    )
    &&& r.max_children == Some(
        or_default(opt_or(project.max_children, user.max_children), DEFAULT_MAX_CHILDREN),
    )
    &&& r.timeout == opt_or(project.timeout, user.timeout)
    &&& r.default_child_agent == opt_or(project.default_child_agent, user.default_child_agent)
    &&& r.model == opt_or(project.model, user.model)
}

/// A memory layer, or one that declares nothing.
pub open spec fn layer(m: Option<MemoryConfig>) -> MemoryConfig {
    or_default(m, memory_unset())
}

/// The global memory layer given by reference, or one that declares nothing.
pub open spec fn global_layer(m: Option<&MemoryConfig>) -> MemoryConfig {
    match m {
        Some(g) => *g,
        None => memory_unset(),
    }
}

/// The resolved name: the first given name, else the id.
pub open spec fn resolved_name(first: Option<String>, second: Option<String>, id: Seq<char>) -> Seq<char> {
    match given_name(first) {
        Some(n) => n,
        None => match given_name(second) {
            Some(n) => n,
            None => id,
        },
    }
}

/// The first non-empty name of `first` and `second`, otherwise a copy of `id`.
fn first_name(first: Option<String>, second: Option<String>, id: &String) -> (r: String)
    ensures
        r@ == resolved_name(first, second, id@),
{
    if let Some(s) = first {
        if !s.as_str().is_empty() {
            return s;
        }
    }
    if let Some(s) = second {
        if !s.as_str().is_empty() {
            return s;
        }
    }
    id.clone()
}

/// The project list when non-empty, otherwise the user list.
fn override_if_non_empty(project: Vec<String>, user: Vec<String>) -> (r: Vec<String>)
    ensures
        r@ == override_list(project@, user@),
{
    if project.len() > 0 {
        project
    } else {
        user
    }
}

/// Fill the unset scalar sub-agent fields with their defaults.
fn apply_subagent_defaults(config: SubagentsConfig) -> (r: SubagentsConfig)
    ensures
        r == subagents_with_defaults(config),
{
    let mut config = config;
    if config.require_agent_id.is_none() {
        config.require_agent_id = Some(DEFAULT_REQUIRE_AGENT_ID);
    }
    if config.max_spawn_depth.is_none() {
        config.max_spawn_depth = Some(DEFAULT_MAX_SPAWN_DEPTH);
    }
    if config.max_children.is_none() {
        config.max_children = Some(DEFAULT_MAX_CHILDREN);
    }
    config
}

/// Field-level merge of the sub-agent settings, then defaults.
fn merge_subagents(project: SubagentsConfig, user: SubagentsConfig) -> (r: SubagentsConfig)
    ensures
        subagents_merged(r, project, user),
{
    let allow_agents = override_if_non_empty(project.allow_agents, user.allow_agents);
    let default_child_agent = match project.default_child_agent {
        Some(a) => Some(a),
        None => user.default_child_agent,
    };
    let model = match project.model {
        Some(m) => Some(m),
        None => user.model,
    };
    let merged = SubagentsConfig {
        allow_agents,
        require_agent_id: opt_copy_or(project.require_agent_id, user.require_agent_id),
        max_spawn_depth: opt_copy_or(project.max_spawn_depth, user.max_spawn_depth),
        max_children: opt_copy_or(project.max_children, user.max_children),
        timeout: opt_copy_or(project.timeout, user.timeout),
        default_child_agent,
        model,
    };
    apply_subagent_defaults(merged)
}

/// `a` when it holds a value, otherwise `b`.
fn or_owned<T>(a: Option<T>, b: Option<T>) -> (r: Option<T>)
    ensures
        r == opt_or(a, b),
{
    match a {
        Some(x) => Some(x),
        None => b,
    }
}

/// Whether a list is a wildcard: empty or exactly `["*"]`.
pub open spec fn wildcard(s: Seq<String>) -> bool {
    s.len() == 0 || is_star_list(s)
}

impl ResolvedAgentConfig {
    /// Whether `list` is a wildcard (empty or `["*"]`): no filtering.
    pub fn is_wildcard_list(list: &[String]) -> (r: bool)
        ensures
            r == wildcard(list@),
    {
        if list.len() == 0 {
            return true;
        }
        if list.len() != 1 {
            return false;
        }
        let only: &String = &list[0];
        proof {
            reveal_strlit("*");
        }
        crate::text::str_eq(only.as_str(), "*")
    }

    /// The skills whitelist, or `None` when the list is a wildcard.
    pub fn effective_skills(&self) -> (r: Option<Vec<String>>)
        ensures
            match r {
                None => wildcard(self.skills@),
                Some(v) => !wildcard(self.skills@) && v@ == self.skills@,
            },
    {
        if Self::is_wildcard_list(self.skills.as_slice()) {
            None
        } else {
            Some(clone_strings(&self.skills))
        }
    }

    /// The tools whitelist, or `None` when the list is a wildcard.
    pub fn effective_tools(&self) -> (r: Option<Vec<String>>)
        ensures
            match r {
                None => wildcard(self.tools@),
                Some(v) => !wildcard(self.tools@) && v@ == self.tools@,
            },
    {
        if Self::is_wildcard_list(self.tools.as_slice()) {
            None
        } else {
            Some(clone_strings(&self.tools))
        }
    }

    /// The disallowed tools, or `None` when no tool is disallowed.
    pub fn effective_disallowed_tools(&self) -> (r: Option<Vec<String>>)
        ensures
            match r {
                None => self.disallowed_tools@.len() == 0,
                Some(v) => self.disallowed_tools@.len() > 0 && v@ == self.disallowed_tools@,
            },
    {
        if self.disallowed_tools.len() == 0 {
            None
        } else {
            Some(clone_strings(&self.disallowed_tools))
        }
    }
}

/// Whether `e` is the missing-id error for `path`.
pub open spec fn is_missing_id(e: ConfigError, path: Seq<char>) -> bool {
    match e {
        ConfigError::MissingId { path: p } => p@ == path,
        _ => false,
    }
}

/// Whether `r` is the resolution of the single configuration `c`.
pub open spec fn single_resolution(
    r: ResolvedAgentConfig,
    c: AgentConfig,
    source: ConfigSource,
    global: MemoryConfig,
) -> bool {
    &&& r.id == c.id
    &&& r.name@ == resolved_name(c.name, None, c.id@)
    &&& r.parent_id == c.parent_id
    &&& r.model == c.model
    &&& r.workspace == c.workspace
    &&& r.agent_dir == c.agent_dir
    &&& r.bootstrap_mode == or_default(c.bootstrap_mode, BootstrapMode::Full)
    &&& r.skills@ == c.skills@
    &&& r.tools@ == c.tools@
    &&& r.disallowed_tools@ == c.disallowed_tools@
    &&& r.subagents == subagents_with_defaults(c.subagents)
    &&& r.memory == memory_merge(global, layer(c.memory))
    &&& r.source == source
}

/// The id chosen by a merge: the project's when non-empty, else the user's.
pub open spec fn merged_id(project: AgentConfig, user: AgentConfig) -> String {
    if project.id@.len() > 0 { project.id } else { user.id }
}

/// Whether `r` is the project configuration merged over the user configuration.
pub open spec fn merged_resolution(
    r: ResolvedAgentConfig,
    project: AgentConfig,
    user: AgentConfig,
    global: MemoryConfig,
) -> bool {
    &&& r.id == merged_id(project, user)
    &&& r.name@ == resolved_name(project.name, user.name, r.id@)
    &&& r.parent_id == opt_or(project.parent_id, user.parent_id)
    &&& r.model == opt_or(project.model, user.model)
    &&& r.workspace == opt_or(project.workspace, user.workspace)
    &&& r.agent_dir == opt_or(project.agent_dir, user.agent_dir)
    &&& r.bootstrap_mode == or_default(
        opt_or(project.bootstrap_mode, user.bootstrap_mode),
        BootstrapMode::Full,
    )
    &&& r.skills@ == override_list(project.skills@, user.skills@)
    &&& r.tools@ == override_list(project.tools@, user.tools@)
    &&& r.disallowed_tools@ == override_list(project.disallowed_tools@, user.disallowed_tools@)
    &&& subagents_merged(r.subagents, project.subagents, user.subagents)
    &&& r.memory == memory_merge(memory_merge(global, layer(user.memory)), layer(project.memory))
    &&& r.source == ConfigSource::Merged
}

/// The global memory layer merged with one agent layer.
fn merge_memory_layer(base: MemoryConfig, agent: &Option<MemoryConfig>) -> (r: MemoryConfig)
    ensures
        r == memory_merge(base, layer(*agent)),
{
    match agent {
        Some(a) => base.merge_overrides(a),
        None => {
            proof {
                law_memory_merge_unset_agent(base);
            }
            base
        },
    }
}

/// The global memory layer, or one that declares nothing.
fn global_memory_layer(global_memory: Option<&MemoryConfig>) -> (r: MemoryConfig)
    ensures
        r == global_layer(global_memory),
{
    match global_memory {
        Some(g) => g.duplicate(),
        None => MemoryConfig::default(),
    }
}

impl ResolvedAgentConfig {
    /// Resolve a single configuration, tagged with the level it came from.
    ///
    /// The agent's memory settings are merged over `global_memory`; `path`
    /// names the file in the missing-id error.
    pub fn from_single(
        config: AgentConfig,
        source: ConfigSource,
        path: &str,
        global_memory: Option<&MemoryConfig>,
    ) -> (r: Result<ResolvedAgentConfig, ConfigError>)
        ensures
            match r {
                Err(e) => config.id@.len() == 0 && is_missing_id(e, path@),
                Ok(res) => {
                    &&& config.id@.len() > 0
                    &&& single_resolution(res, config, source, global_layer(global_memory))
                    &&& res.name@.len() > 0
                },
            },
    {
        if config.id.as_str().is_empty() {
            return Err(ConfigError::MissingId { path: owned(path) });
        }
        let name = first_name(config.name, None, &config.id);
        let base = global_memory_layer(global_memory);
        let memory = merge_memory_layer(base, &config.memory);
        let subagents = apply_subagent_defaults(config.subagents);
        Ok(ResolvedAgentConfig {
            id: config.id,
            name,
            parent_id: config.parent_id,
            model: config.model,
            workspace: config.workspace,
            agent_dir: config.agent_dir,
            bootstrap_mode: match config.bootstrap_mode {
                Some(m) => m,
                None => BootstrapMode::Full,
            },
            skills: config.skills,
            tools: config.tools,
            disallowed_tools: config.disallowed_tools,
            subagents,
            memory,
            source,
        })
    }

    /// Merge a project-level configuration over a user-level one.
    ///
    /// Memory settings merge in three layers: `global_memory`, then the
    /// user's, then the project's. `path` names the file in the missing-id
    /// error.
    pub fn merge(
        project: AgentConfig,
        user: AgentConfig,
        path: &str,
        global_memory: Option<&MemoryConfig>,
    ) -> (r: Result<ResolvedAgentConfig, ConfigError>)
        ensures
            match r {
                Err(e) => {
                    &&& project.id@.len() == 0
                    &&& user.id@.len() == 0
                    &&& is_missing_id(e, path@)
                },
                Ok(res) => {
                    &&& (project.id@.len() > 0 || user.id@.len() > 0)
                    &&& merged_resolution(res, project, user, global_layer(global_memory))
                    &&& res.name@.len() > 0
                },
            },
    {
        let id = if !project.id.as_str().is_empty() {
            project.id
        } else {
            user.id
        };
        if id.as_str().is_empty() {
            return Err(ConfigError::MissingId { path: owned(path) });
        }
        let name = first_name(project.name, user.name, &id);
        let base = global_memory_layer(global_memory);
        let after_user = merge_memory_layer(base, &user.memory);
        let memory = merge_memory_layer(after_user, &project.memory);
        Ok(ResolvedAgentConfig {
            id,
            name,
            parent_id: or_owned(project.parent_id, user.parent_id),
            model: or_owned(project.model, user.model),
            workspace: or_owned(project.workspace, user.workspace),
            agent_dir: or_owned(project.agent_dir, user.agent_dir),
            bootstrap_mode: match opt_copy_or(project.bootstrap_mode, user.bootstrap_mode) {
                Some(m) => m,
                None => BootstrapMode::Full,
            },
            skills: override_if_non_empty(project.skills, user.skills),
            tools: override_if_non_empty(project.tools, user.tools),
            disallowed_tools: override_if_non_empty(project.disallowed_tools, user.disallowed_tools),
            subagents: merge_subagents(project.subagents, user.subagents),
            memory,
            source: ConfigSource::Merged,
        })
    }
}

impl ResolvedAgentConfig {
    /// Resolve a single configuration as a user-level one, with no global
    /// memory settings and `<unknown>` as the file named in errors.
    pub fn try_from(config: AgentConfig) -> (r: Result<ResolvedAgentConfig, ConfigError>)
        ensures
            match r {
                Err(e) => config.id@.len() == 0 && is_missing_id(e, "<unknown>"@),
                Ok(res) => {
                    &&& config.id@.len() > 0
                    &&& single_resolution(res, config, ConfigSource::User, memory_unset())
                },
            },
    {
        Self::from_single(config, ConfigSource::User, "<unknown>", None)
    }
}

// ── Laws ─────────────────────────────────────────────────────────────────

/// Law: merging a configuration with itself resolves it exactly as it
/// resolves alone; only the recorded source differs.
pub proof fn law_merge_with_itself(
    single: ResolvedAgentConfig,
    merged: ResolvedAgentConfig,
    c: AgentConfig,
    source: ConfigSource,
    global: MemoryConfig,
)
    requires
        single_resolution(single, c, source, global),
        merged_resolution(merged, c, c, global),
    ensures
        merged.id == single.id,
        merged.name@ == single.name@,
        merged.parent_id == single.parent_id,
        merged.model == single.model,
        merged.workspace == single.workspace,
        merged.agent_dir == single.agent_dir,
        merged.bootstrap_mode == single.bootstrap_mode,
        merged.skills@ == single.skills@,
        merged.tools@ == single.tools@,
        merged.disallowed_tools@ == single.disallowed_tools@,
        merged.subagents.allow_agents@ == single.subagents.allow_agents@,
        merged.subagents.require_agent_id == single.subagents.require_agent_id,
        merged.subagents.max_spawn_depth == single.subagents.max_spawn_depth,
        merged.subagents.max_children == single.subagents.max_children,
        merged.subagents.timeout == single.subagents.timeout,
        merged.subagents.default_child_agent == single.subagents.default_child_agent,
        merged.subagents.model == single.subagents.model,
        merged.memory == single.memory,
{
    let m = layer(c.memory);
    law_memory_merge_associative(global, m, m);
    law_memory_merge_idempotent(m);
}

/// Law: the three memory layers combine as the global layer under the
/// user layer already overridden by the project layer.
pub proof fn law_three_layer_memory(
    r: ResolvedAgentConfig,
    project: AgentConfig,
    user: AgentConfig,
    global: MemoryConfig,
)
    requires
        merged_resolution(r, project, user, global),
    ensures
        r.memory == memory_merge(global, memory_merge(layer(user.memory), layer(project.memory))),
{
    law_memory_merge_associative(global, layer(user.memory), layer(project.memory));
}

/// Law: a resolved configuration always carries the sub-agent spawn
/// limits, whatever the levels declared, and an explicit project value
/// always wins.
pub proof fn law_subagent_limits_always_set(
    r: ResolvedAgentConfig,
    project: AgentConfig,
    user: AgentConfig,
    global: MemoryConfig,
)
    requires
        merged_resolution(r, project, user, global),
    ensures
        r.subagents.require_agent_id is Some,
        r.subagents.max_spawn_depth is Some,
        r.subagents.max_children is Some,
        project.subagents.max_spawn_depth is Some ==> r.subagents.max_spawn_depth
            == project.subagents.max_spawn_depth,
        project.subagents.max_children is Some ==> r.subagents.max_children
            == project.subagents.max_children,
        (project.subagents.max_spawn_depth is None && user.subagents.max_spawn_depth is None)
            ==> r.subagents.max_spawn_depth == Some(DEFAULT_MAX_SPAWN_DEPTH),
        (project.subagents.max_children is None && user.subagents.max_children is None)
            ==> r.subagents.max_children == Some(DEFAULT_MAX_CHILDREN),
{
}

/// Whether `c` holds the default configuration apart from its id: no
/// optional setting given, every skill, tool and sub-agent allowed, no tool
/// blocked.
pub open spec fn unset_config(c: AgentConfig) -> bool {
    &&& c.name is None
    &&& c.parent_id is None
    &&& c.model is None
    &&& c.workspace is None
    &&& c.agent_dir is None
    &&& c.bootstrap_mode is None
    &&& is_star_list(c.skills@)
    &&& is_star_list(c.tools@)
    &&& c.disallowed_tools@.len() == 0
    &&& is_star_list(c.subagents.allow_agents@)
    &&& c.subagents.require_agent_id is None
    &&& c.subagents.max_spawn_depth is None
    &&& c.subagents.max_children is None
    &&& c.subagents.timeout is None
    &&& c.subagents.default_child_agent is None
    &&& c.subagents.model is None
    &&& c.memory is None
}

/// What resolving registered agent `id` from the configurations found at
/// the project and user level gives: both are merged (project over user),
/// one alone is resolved at its level, and an agent with neither gets the
/// default configuration under its id, as a user-level one. An empty id
/// after that is the missing-id error for `path`.
pub open spec fn agent_resolution(
    r: Result<ResolvedAgentConfig, ConfigError>,
    id: Seq<char>,
    project: Option<AgentConfig>,
    user: Option<AgentConfig>,
    path: Seq<char>,
    global: MemoryConfig,
) -> bool {
    match (project, user) {
        (Some(p), Some(u)) => match r {
            Err(e) => p.id@.len() == 0 && u.id@.len() == 0 && is_missing_id(e, path),
            Ok(res) => (p.id@.len() > 0 || u.id@.len() > 0) && merged_resolution(res, p, u, global),
        },
        (Some(p), None) => match r {
            Err(e) => p.id@.len() == 0 && is_missing_id(e, path),
            Ok(res) => p.id@.len() > 0 && single_resolution(res, p, ConfigSource::Project, global),
        },
        (None, Some(u)) => match r {
            Err(e) => u.id@.len() == 0 && is_missing_id(e, path),
            Ok(res) => u.id@.len() > 0 && single_resolution(res, u, ConfigSource::User, global),
        },
        (None, None) => match r {
            Err(e) => id.len() == 0 && is_missing_id(e, path),
            Ok(res) => {
                &&& id.len() > 0
                &&& exists|c: AgentConfig|
                    c.id@ == id && unset_config(c) && #[trigger] single_resolution(
                        res,
                        c,
                        ConfigSource::User,
                        global,
                    )
            },
        },
    }
}

/// Resolve registered agent `id` from its project-level and user-level
/// configurations, either of which may be missing (see
/// [`agent_resolution`]). `path` names the file in the missing-id error;
/// the agent's memory settings are merged over `global_memory`.
pub fn resolve_agent(
    id: &str,
    project: Option<AgentConfig>,
    user: Option<AgentConfig>,
    path: &str,
    global_memory: Option<&MemoryConfig>,
) -> (r: Result<ResolvedAgentConfig, ConfigError>)
    ensures
        agent_resolution(r, id@, project, user, path@, global_layer(global_memory)),
{
    match (project, user) {
        (Some(p), Some(u)) => ResolvedAgentConfig::merge(p, u, path, global_memory),
        (Some(p), None) => ResolvedAgentConfig::from_single(p, ConfigSource::Project, path, global_memory),
        (None, Some(u)) => ResolvedAgentConfig::from_single(u, ConfigSource::User, path, global_memory),
        (None, None) => {
            let mut c = AgentConfig::default();
            c.id = owned(id);
            let ghost c0 = c;
            let r = ResolvedAgentConfig::from_single(c, ConfigSource::User, path, global_memory);
            proof {
                if r is Ok {
                    assert(single_resolution(r->Ok_0, c0, ConfigSource::User, global_layer(global_memory)));
                }
            }
            r
        },
    }
}

} // verus!
