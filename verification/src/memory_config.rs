//! Memory subsystem configuration and its field-level merge.
//!
//! Every field is optional: `None` means "inherit from the layer below".
//! `merge_overrides(global, agent)` keeps the agent's declared fields and
//! inherits the others from the global layer. Scoring weights and
//! thresholds, which are floating-point in the configuration files, are
//! carried here as the bit patterns of their `f64` values; the merge only
//! chooses between them.

use vstd::prelude::*;

use crate::text::{opt_copy_or, opt_or, opt_string_or, owned};

verus! {

/// Storage paths for the memory subsystem.
#[derive(Debug, Clone)]
pub struct MemoryStorageConfig {
    /// SQLite database file path (relative to data root).
    pub db_path: Option<String>,
    /// MEMORY.md file path (relative to data root).
    pub memory_md_path: Option<String>,
}

/// Transcript clean rules for mining.
#[derive(Debug, Clone)]
pub struct TranscriptCleanRules {
    /// Minimum conversation turns required.
    pub min_turns: Option<i32>,
    /// Minimum owner messages required.
    pub min_owner_msgs: Option<i32>,
    /// Transcript output format.
    pub format: Option<String>,
}

/// Mining subsystem configuration.
#[derive(Debug, Clone)]
pub struct MiningConfig {
    /// Whether mining is enabled.
    pub enabled: Option<bool>,
    /// Model for the miners.
    pub model: Option<String>,
    /// Maximum events per mining session.
    pub max_events_per_session: Option<i32>,
    /// Dedup window in days.
    pub dedup_window_days: Option<i32>,
    /// Transcript clean rules.
    pub transcript_clean_rules: TranscriptCleanRules,
}

/// Dream Diary configuration.
#[derive(Debug, Clone)]
pub struct DreamingDiaryConfig {
    /// Whether Dream Diary writing is enabled.
    pub enabled: Option<bool>,
    /// Directory path for diary files (relative to data root).
    pub path: Option<String>,
}

/// Scoring dimension weights for dreaming (each the bits of an `f64`).
#[derive(Debug, Clone)]
pub struct DreamingScoringConfig {
    pub frequency_weight: Option<u64>,
    pub recency_weight: Option<u64>,
    pub explicitness_weight: Option<u64>,
    pub cross_agent_weight: Option<u64>,
    pub negative_signal_weight: Option<u64>,
    pub entity_type_weight_weight: Option<u64>,
}

/// Score thresholds for rule promotion (each the bits of an `f64`).
#[derive(Debug, Clone)]
pub struct DreamingThresholdConfig {
    pub absolute: Option<u64>,
    pub relative: Option<u64>,
}

/// Capacity limits for dreaming.
#[derive(Debug, Clone)]
pub struct DreamingCapacityConfig {
    /// Maximum number of rules in MEMORY.md.
    pub max_rules: Option<usize>,
}

/// Dreaming subsystem configuration.
#[derive(Debug, Clone)]
pub struct DreamingConfig {
    pub enabled: Option<bool>,
    pub diary: DreamingDiaryConfig,
    pub model: Option<String>,
    pub schedule: Option<String>,
    pub scoring: DreamingScoringConfig,
    pub threshold: DreamingThresholdConfig,
    pub capacity: DreamingCapacityConfig,
}

/// Active search subsystem configuration.
#[derive(Debug, Clone)]
pub struct SearchConfig {
    pub enabled: Option<bool>,
    pub model: Option<String>,
    pub context_turns: Option<usize>,
    pub timeout_ms: Option<u64>,
    pub max_summary_chars: Option<usize>,
    pub min_entity_hits: Option<u32>,
    pub top_k_events: Option<usize>,
}

/// Memory subsystem configuration.
#[derive(Debug, Clone)]
pub struct MemoryConfig {
    pub storage: MemoryStorageConfig,
    pub mining: MiningConfig,
    pub dreaming: DreamingConfig,
    pub search: SearchConfig,
}

// ── Field-level merge: spec ──────────────────────────────────────────────

pub open spec fn storage_merge(g: MemoryStorageConfig, a: MemoryStorageConfig) -> MemoryStorageConfig {
    MemoryStorageConfig {
        db_path: opt_or(a.db_path, g.db_path),
        memory_md_path: opt_or(a.memory_md_path, g.memory_md_path),
    }
}

pub open spec fn rules_merge(g: TranscriptCleanRules, a: TranscriptCleanRules) -> TranscriptCleanRules {
    TranscriptCleanRules {
        min_turns: opt_or(a.min_turns, g.min_turns),
        min_owner_msgs: opt_or(a.min_owner_msgs, g.min_owner_msgs),
        format: opt_or(a.format, g.format),
    }
}

pub open spec fn mining_merge(g: MiningConfig, a: MiningConfig) -> MiningConfig {
    MiningConfig {
        enabled: opt_or(a.enabled, g.enabled),
        model: opt_or(a.model, g.model),
        max_events_per_session: opt_or(a.max_events_per_session, g.max_events_per_session),
        dedup_window_days: opt_or(a.dedup_window_days, g.dedup_window_days),
        transcript_clean_rules: rules_merge(g.transcript_clean_rules, a.transcript_clean_rules),
    }
}

pub open spec fn diary_merge(g: DreamingDiaryConfig, a: DreamingDiaryConfig) -> DreamingDiaryConfig {
    DreamingDiaryConfig { enabled: opt_or(a.enabled, g.enabled), path: opt_or(a.path, g.path) }
}

pub open spec fn scoring_merge(g: DreamingScoringConfig, a: DreamingScoringConfig) -> DreamingScoringConfig {
    DreamingScoringConfig {
        frequency_weight: opt_or(a.frequency_weight, g.frequency_weight),
        recency_weight: opt_or(a.recency_weight, g.recency_weight),
        explicitness_weight: opt_or(a.explicitness_weight, g.explicitness_weight),
        cross_agent_weight: opt_or(a.cross_agent_weight, g.cross_agent_weight),
        negative_signal_weight: opt_or(a.negative_signal_weight, g.negative_signal_weight),
        entity_type_weight_weight: opt_or(a.entity_type_weight_weight, g.entity_type_weight_weight),
    }
}

pub open spec fn threshold_merge(g: DreamingThresholdConfig, a: DreamingThresholdConfig) -> DreamingThresholdConfig {
    DreamingThresholdConfig {
        absolute: opt_or(a.absolute, g.absolute),
        relative: opt_or(a.relative, g.relative),
    }
}

pub open spec fn capacity_merge(g: DreamingCapacityConfig, a: DreamingCapacityConfig) -> DreamingCapacityConfig {
    DreamingCapacityConfig { max_rules: opt_or(a.max_rules, g.max_rules) }
}

pub open spec fn dreaming_merge(g: DreamingConfig, a: DreamingConfig) -> DreamingConfig {
    DreamingConfig {
        enabled: opt_or(a.enabled, g.enabled),
        diary: diary_merge(g.diary, a.diary),
        model: opt_or(a.model, g.model),
        schedule: opt_or(a.schedule, g.schedule),
        scoring: scoring_merge(g.scoring, a.scoring),
        threshold: threshold_merge(g.threshold, a.threshold),
        capacity: capacity_merge(g.capacity, a.capacity),
    }
}

pub open spec fn search_merge(g: SearchConfig, a: SearchConfig) -> SearchConfig {
    SearchConfig {
        enabled: opt_or(a.enabled, g.enabled),
        model: opt_or(a.model, g.model),
        context_turns: opt_or(a.context_turns, g.context_turns),
        timeout_ms: opt_or(a.timeout_ms, g.timeout_ms),
        max_summary_chars: opt_or(a.max_summary_chars, g.max_summary_chars),
        min_entity_hits: opt_or(a.min_entity_hits, g.min_entity_hits),
        top_k_events: opt_or(a.top_k_events, g.top_k_events),
    }
}

/// The merged memory configuration: agent fields over global fields.
pub open spec fn memory_merge(g: MemoryConfig, a: MemoryConfig) -> MemoryConfig {
    MemoryConfig {
        storage: storage_merge(g.storage, a.storage),
        mining: mining_merge(g.mining, a.mining),
        dreaming: dreaming_merge(g.dreaming, a.dreaming),
        search: search_merge(g.search, a.search),
    }
}

/// A memory configuration that declares no field at all.
pub open spec fn memory_unset() -> MemoryConfig {
    MemoryConfig {
        storage: MemoryStorageConfig { db_path: None, memory_md_path: None },
        mining: MiningConfig {
            enabled: None,
            model: None,
            max_events_per_session: None,
            dedup_window_days: None,
            transcript_clean_rules: TranscriptCleanRules {
                min_turns: None,
                min_owner_msgs: None,
                format: None,
            },
        },
        dreaming: DreamingConfig {
            enabled: None,
            diary: DreamingDiaryConfig { enabled: None, path: None },
            model: None,
            schedule: None,
            scoring: DreamingScoringConfig {
                frequency_weight: None,
                recency_weight: None,
                explicitness_weight: None,
                cross_agent_weight: None,
                negative_signal_weight: None,
                entity_type_weight_weight: None,
            },
            threshold: DreamingThresholdConfig { absolute: None, relative: None },
            capacity: DreamingCapacityConfig { max_rules: None },
        },
        search: SearchConfig {
            enabled: None,
            model: None,
            context_turns: None,
            timeout_ms: None,
            max_summary_chars: None,
            min_entity_hits: None,
            top_k_events: None,
        },
    }
}

// ── Defaults ─────────────────────────────────────────────────────────────

impl Default for MemoryStorageConfig {
    fn default() -> (r: Self)
        ensures
            r == memory_unset().storage,
    {
        MemoryStorageConfig { db_path: None, memory_md_path: None }
    }
}

impl Default for TranscriptCleanRules {
    fn default() -> (r: Self)
        ensures
            r == memory_unset().mining.transcript_clean_rules,
    {
        TranscriptCleanRules { min_turns: None, min_owner_msgs: None, format: None }
    }
}

impl Default for MiningConfig {
    fn default() -> (r: Self)
        ensures
            r == memory_unset().mining,
    {
        MiningConfig {
            enabled: None,
            model: None,
            max_events_per_session: None,
            dedup_window_days: None,
            transcript_clean_rules: TranscriptCleanRules::default(),
        }
    }
}

impl Default for DreamingDiaryConfig {
    fn default() -> (r: Self)
        ensures
            r == memory_unset().dreaming.diary,
    {
        DreamingDiaryConfig { enabled: None, path: None }
    }
}

impl Default for DreamingScoringConfig {
    fn default() -> (r: Self)
        ensures
            r == memory_unset().dreaming.scoring,
    {
        DreamingScoringConfig {
            frequency_weight: None,
            recency_weight: None,
            explicitness_weight: None,
            cross_agent_weight: None,
            negative_signal_weight: None,
            entity_type_weight_weight: None,
        }
    }
}

impl Default for DreamingThresholdConfig {
    fn default() -> (r: Self)
        ensures
            r == memory_unset().dreaming.threshold,
    {
        DreamingThresholdConfig { absolute: None, relative: None }
    }
}

impl Default for DreamingCapacityConfig {
    fn default() -> (r: Self)
        ensures
            r == memory_unset().dreaming.capacity,
    {
        DreamingCapacityConfig { max_rules: None }
    }
}

impl Default for DreamingConfig {
    fn default() -> (r: Self)
        ensures
            r == memory_unset().dreaming,
    {
        DreamingConfig {
            enabled: None,
            diary: DreamingDiaryConfig::default(),
            model: None,
            schedule: None,
            scoring: DreamingScoringConfig::default(),
            threshold: DreamingThresholdConfig::default(),
            capacity: DreamingCapacityConfig::default(),
        }
    }
}

impl Default for SearchConfig {
    fn default() -> (r: Self)
        ensures
            r == memory_unset().search,
    {
        SearchConfig {
            enabled: None,
            model: None,
            context_turns: None,
            timeout_ms: None,
            max_summary_chars: None,
            min_entity_hits: None,
            top_k_events: None,
        }
    }
}

impl Default for MemoryConfig {
    fn default() -> (r: Self)
        ensures
            r == memory_unset(),
    {
        MemoryConfig {
            storage: MemoryStorageConfig::default(),
            mining: MiningConfig::default(),
            dreaming: DreamingConfig::default(),
            search: SearchConfig::default(),
        }
    }
}

// ── Field-level merge: executable ────────────────────────────────────────

impl MemoryStorageConfig {
    /// Field-level merge: agent's declared fields override global.
    pub fn merge_overrides(&self, agent: &MemoryStorageConfig) -> (r: MemoryStorageConfig)
        ensures
            r == storage_merge(*self, *agent),
    {
        MemoryStorageConfig {
            db_path: opt_string_or(&agent.db_path, &self.db_path),
            memory_md_path: opt_string_or(&agent.memory_md_path, &self.memory_md_path),
        }
    }
}

impl TranscriptCleanRules {
    /// Field-level merge: agent's declared fields override global.
    pub fn merge_overrides(&self, agent: &TranscriptCleanRules) -> (r: TranscriptCleanRules)
        ensures
            r == rules_merge(*self, *agent),
    {
        TranscriptCleanRules {
            min_turns: opt_copy_or(agent.min_turns, self.min_turns),
            min_owner_msgs: opt_copy_or(agent.min_owner_msgs, self.min_owner_msgs),
            format: opt_string_or(&agent.format, &self.format),
        }
    }
}

impl MiningConfig {
    /// Field-level merge: agent's declared fields override global.
    pub fn merge_overrides(&self, agent: &MiningConfig) -> (r: MiningConfig)
        ensures
            r == mining_merge(*self, *agent),
    {
        MiningConfig {
            enabled: opt_copy_or(agent.enabled, self.enabled),
            model: opt_string_or(&agent.model, &self.model),
            max_events_per_session: opt_copy_or(agent.max_events_per_session, self.max_events_per_session),
            dedup_window_days: opt_copy_or(agent.dedup_window_days, self.dedup_window_days),
            transcript_clean_rules: self.transcript_clean_rules.merge_overrides(
                &agent.transcript_clean_rules,
            ),
        }
    }
}

impl DreamingDiaryConfig {
    /// Field-level merge: agent's declared fields override global.
    pub fn merge_overrides(&self, agent: &DreamingDiaryConfig) -> (r: DreamingDiaryConfig)
        ensures
            r == diary_merge(*self, *agent),
    {
        DreamingDiaryConfig {
            enabled: opt_copy_or(agent.enabled, self.enabled),
            path: opt_string_or(&agent.path, &self.path),
        }
    }
}

impl DreamingScoringConfig {
    /// Field-level merge: agent's declared fields override global.
    pub fn merge_overrides(&self, agent: &DreamingScoringConfig) -> (r: DreamingScoringConfig)
        ensures
            r == scoring_merge(*self, *agent),
    {
        DreamingScoringConfig {
            frequency_weight: opt_copy_or(agent.frequency_weight, self.frequency_weight),
            recency_weight: opt_copy_or(agent.recency_weight, self.recency_weight),
            explicitness_weight: opt_copy_or(agent.explicitness_weight, self.explicitness_weight),
            cross_agent_weight: opt_copy_or(agent.cross_agent_weight, self.cross_agent_weight),
            negative_signal_weight: opt_copy_or(agent.negative_signal_weight, self.negative_signal_weight),
            entity_type_weight_weight: opt_copy_or(agent.entity_type_weight_weight, self.entity_type_weight_weight),
        }
    }
}

impl DreamingThresholdConfig {
    /// Field-level merge: agent's declared fields override global.
    pub fn merge_overrides(&self, agent: &DreamingThresholdConfig) -> (r: DreamingThresholdConfig)
        ensures
            r == threshold_merge(*self, *agent),
    {
        DreamingThresholdConfig {
            absolute: opt_copy_or(agent.absolute, self.absolute),
            relative: opt_copy_or(agent.relative, self.relative),
        }
    }
}

impl DreamingCapacityConfig {
    /// Field-level merge: agent's declared fields override global.
    pub fn merge_overrides(&self, agent: &DreamingCapacityConfig) -> (r: DreamingCapacityConfig)
        ensures
            r == capacity_merge(*self, *agent),
    {
        DreamingCapacityConfig { max_rules: opt_copy_or(agent.max_rules, self.max_rules) }
    }
}

impl DreamingConfig {
    /// Field-level merge: agent's declared fields override global.
    pub fn merge_overrides(&self, agent: &DreamingConfig) -> (r: DreamingConfig)
        ensures
            r == dreaming_merge(*self, *agent),
    {
        DreamingConfig {
            enabled: opt_copy_or(agent.enabled, self.enabled),
            diary: self.diary.merge_overrides(&agent.diary),
            model: opt_string_or(&agent.model, &self.model),
            schedule: opt_string_or(&agent.schedule, &self.schedule),
            scoring: self.scoring.merge_overrides(&agent.scoring),
            threshold: self.threshold.merge_overrides(&agent.threshold),
            capacity: self.capacity.merge_overrides(&agent.capacity),
        }
    }
}

impl SearchConfig {
    /// Field-level merge: agent's declared fields override global.
    pub fn merge_overrides(&self, agent: &SearchConfig) -> (r: SearchConfig)
        ensures
            r == search_merge(*self, *agent),
    {
        SearchConfig {
            enabled: opt_copy_or(agent.enabled, self.enabled),
            model: opt_string_or(&agent.model, &self.model),
            context_turns: opt_copy_or(agent.context_turns, self.context_turns),
            timeout_ms: opt_copy_or(agent.timeout_ms, self.timeout_ms),
            max_summary_chars: opt_copy_or(agent.max_summary_chars, self.max_summary_chars),
            min_entity_hits: opt_copy_or(agent.min_entity_hits, self.min_entity_hits),
            top_k_events: opt_copy_or(agent.top_k_events, self.top_k_events),
        }
    }
}

impl MemoryConfig {
    /// Field-level merge: agent's declared fields override global,
    /// undeclared fields inherit global values.
    pub fn merge_overrides(&self, agent: &MemoryConfig) -> (r: MemoryConfig)
        ensures
            r == memory_merge(*self, *agent),
    {
        MemoryConfig {
            storage: self.storage.merge_overrides(&agent.storage),
            mining: self.mining.merge_overrides(&agent.mining),
            dreaming: self.dreaming.merge_overrides(&agent.dreaming),
            search: self.search.merge_overrides(&agent.search),
        }
    }

    /// A copy of this configuration.
    pub fn duplicate(&self) -> (r: MemoryConfig)
        ensures
            r == *self,
    {
        let unset = MemoryConfig::default();
        unset.merge_overrides(self)
    }
}

// ── Defaults of the subsystem parameters ─────────────────────────────────

/// Default dreaming schedule cron expression.
pub fn default_dreaming_schedule() -> (r: String)
    ensures
        r@ == "0 3 * * *"@,
{
    owned("0 3 * * *")
}

/// Default diary path (relative to data root).
pub fn default_diary_path() -> (r: String)
    ensures
        r@ == "memory/diary/"@,
{
    owned("memory/diary/")
}

/// Default capacity max rules.
pub fn default_capacity_max_rules() -> (r: usize)
    ensures
        r == 20,
{
    20
}

/// Default database file path.
pub fn default_db_path() -> (r: String)
    ensures
        r@ == "memory/memory.db"@,
{
    owned("memory/memory.db")
}

/// Default MEMORY.md file path.
pub fn default_memory_md_path() -> (r: String)
    ensures
        r@ == "memory/MEMORY.md"@,
{
    owned("memory/MEMORY.md")
}

/// Default max events per session.
pub fn default_mining_max_events_per_session() -> (r: i32)
    ensures
        r == 10,
{
    10
}

/// Default dedup window in days.
pub fn default_mining_dedup_window_days() -> (r: i32)
    ensures
        r == 30,
{
    30
}

/// Default minimum turns.
pub fn default_transcript_min_turns() -> (r: i32)
    ensures
        r == 5,
{
    5
}

/// Default minimum owner messages.
pub fn default_transcript_min_owner_msgs() -> (r: i32)
    ensures
        r == 5,
{
    5
}

/// Default transcript format.
pub fn default_transcript_format() -> (r: String)
    ensures
        r@ == "md"@,
{
    owned("md")
}

/// Default context turns for search.
pub fn default_search_context_turns() -> (r: usize)
    ensures
        r == 5,
{
    5
}

/// Default search timeout in milliseconds.
pub fn default_search_timeout_ms() -> (r: u64)
    ensures
        r == 3000,
{
    3000
}

/// Default max summary characters.
pub fn default_search_max_summary_chars() -> (r: usize)
    ensures
        r == 500,
{
    500
}

/// Default minimum entity hits.
pub fn default_search_min_entity_hits() -> (r: u32)
    ensures
        r == 1,
{
    1
}

/// Default top K events.
pub fn default_search_top_k_events() -> (r: usize)
    ensures
        r == 3,
{
    3
}

// ── Laws of the merge ────────────────────────────────────────────────────

/// Law: an agent layer that declares nothing leaves the global
/// configuration unchanged.
pub proof fn law_memory_merge_unset_agent(g: MemoryConfig)
    ensures
        memory_merge(g, memory_unset()) == g,
{
}

/// Law: over an empty global layer the agent's configuration is taken as is.
pub proof fn law_memory_merge_unset_global(a: MemoryConfig)
    ensures
        memory_merge(memory_unset(), a) == a,
{
    let u = memory_unset();
    assert(storage_merge(u.storage, a.storage) == a.storage);
    assert(rules_merge(u.mining.transcript_clean_rules, a.mining.transcript_clean_rules)
        == a.mining.transcript_clean_rules);
    assert(mining_merge(u.mining, a.mining) == a.mining);
    assert(diary_merge(u.dreaming.diary, a.dreaming.diary) == a.dreaming.diary);
    assert(scoring_merge(u.dreaming.scoring, a.dreaming.scoring) == a.dreaming.scoring);
    assert(threshold_merge(u.dreaming.threshold, a.dreaming.threshold) == a.dreaming.threshold);
    assert(capacity_merge(u.dreaming.capacity, a.dreaming.capacity) == a.dreaming.capacity);
    assert(dreaming_merge(u.dreaming, a.dreaming) == a.dreaming);
    assert(search_merge(u.search, a.search) == a.search);
}

/// Law: merging a configuration over itself changes nothing.
pub proof fn law_memory_merge_idempotent(a: MemoryConfig)
    ensures
        memory_merge(a, a) == a,
{
}

/// Law: the three-layer merge (global, then user, then project) is the
/// same whether the user layer is first applied to the global layer or
/// first combined with the project layer.
pub proof fn law_memory_merge_associative(g: MemoryConfig, u: MemoryConfig, p: MemoryConfig)
    ensures
        memory_merge(memory_merge(g, u), p) == memory_merge(g, memory_merge(u, p)),
{
    lemma_mining_assoc(g.mining, u.mining, p.mining);
    lemma_dreaming_assoc(g.dreaming, u.dreaming, p.dreaming);
    lemma_search_assoc(g.search, u.search, p.search);
    assert(storage_merge(storage_merge(g.storage, u.storage), p.storage) == storage_merge(
        g.storage,
        storage_merge(u.storage, p.storage),
    ));
}

proof fn lemma_mining_assoc(g: MiningConfig, u: MiningConfig, p: MiningConfig)
    ensures
        mining_merge(mining_merge(g, u), p) == mining_merge(g, mining_merge(u, p)),
{
    let (gr, ur, pr) = (g.transcript_clean_rules, u.transcript_clean_rules, p.transcript_clean_rules);
    assert(rules_merge(rules_merge(gr, ur), pr) == rules_merge(gr, rules_merge(ur, pr)));
}

proof fn lemma_dreaming_assoc(g: DreamingConfig, u: DreamingConfig, p: DreamingConfig)
    ensures
        dreaming_merge(dreaming_merge(g, u), p) == dreaming_merge(g, dreaming_merge(u, p)),
{
    assert(diary_merge(diary_merge(g.diary, u.diary), p.diary) == diary_merge(
        g.diary,
        diary_merge(u.diary, p.diary),
    ));
    assert(scoring_merge(scoring_merge(g.scoring, u.scoring), p.scoring) == scoring_merge(
        g.scoring,
        scoring_merge(u.scoring, p.scoring),
    ));
    assert(threshold_merge(threshold_merge(g.threshold, u.threshold), p.threshold)
        == threshold_merge(g.threshold, threshold_merge(u.threshold, p.threshold)));
    assert(capacity_merge(capacity_merge(g.capacity, u.capacity), p.capacity) == capacity_merge(
        g.capacity,
        capacity_merge(u.capacity, p.capacity),
    ));
}

proof fn lemma_search_assoc(g: SearchConfig, u: SearchConfig, p: SearchConfig)
    ensures
        search_merge(search_merge(g, u), p) == search_merge(g, search_merge(u, p)),
{
}

/// Law: every field the agent layer declares is kept as declared, whatever
/// the global layer holds; every field it leaves unset takes the global
/// layer's value.
pub proof fn law_memory_merge_agent_wins(g: MemoryConfig, a: MemoryConfig)
    ensures
        ({
            let m = memory_merge(g, a);
            &&& m.storage.db_path == (if a.storage.db_path is Some { a.storage.db_path } else { g.storage.db_path })
            &&& m.storage.memory_md_path == (if a.storage.memory_md_path is Some { a.storage.memory_md_path } else { g.storage.memory_md_path })
            &&& m.mining.enabled == (if a.mining.enabled is Some { a.mining.enabled } else { g.mining.enabled })
            &&& m.mining.model == (if a.mining.model is Some { a.mining.model } else { g.mining.model })
            &&& m.mining.max_events_per_session == (if a.mining.max_events_per_session is Some { a.mining.max_events_per_session } else { g.mining.max_events_per_session })
            &&& m.mining.dedup_window_days == (if a.mining.dedup_window_days is Some { a.mining.dedup_window_days } else { g.mining.dedup_window_days })
            &&& m.mining.transcript_clean_rules.min_turns == (if a.mining.transcript_clean_rules.min_turns is Some { a.mining.transcript_clean_rules.min_turns } else { g.mining.transcript_clean_rules.min_turns })
            &&& m.mining.transcript_clean_rules.min_owner_msgs == (if a.mining.transcript_clean_rules.min_owner_msgs is Some { a.mining.transcript_clean_rules.min_owner_msgs } else { g.mining.transcript_clean_rules.min_owner_msgs })
            &&& m.mining.transcript_clean_rules.format == (if a.mining.transcript_clean_rules.format is Some { a.mining.transcript_clean_rules.format } else { g.mining.transcript_clean_rules.format })
            &&& m.dreaming.enabled == (if a.dreaming.enabled is Some { a.dreaming.enabled } else { g.dreaming.enabled })
            &&& m.dreaming.model == (if a.dreaming.model is Some { a.dreaming.model } else { g.dreaming.model })
            &&& m.dreaming.schedule == (if a.dreaming.schedule is Some { a.dreaming.schedule } else { g.dreaming.schedule })
            &&& m.dreaming.diary.enabled == (if a.dreaming.diary.enabled is Some { a.dreaming.diary.enabled } else { g.dreaming.diary.enabled })
            &&& m.dreaming.diary.path == (if a.dreaming.diary.path is Some { a.dreaming.diary.path } else { g.dreaming.diary.path })
            &&& m.dreaming.scoring.frequency_weight == (if a.dreaming.scoring.frequency_weight is Some { a.dreaming.scoring.frequency_weight } else { g.dreaming.scoring.frequency_weight })
            &&& m.dreaming.scoring.recency_weight == (if a.dreaming.scoring.recency_weight is Some { a.dreaming.scoring.recency_weight } else { g.dreaming.scoring.recency_weight })
            &&& m.dreaming.scoring.explicitness_weight == (if a.dreaming.scoring.explicitness_weight is Some { a.dreaming.scoring.explicitness_weight } else { g.dreaming.scoring.explicitness_weight })
            &&& m.dreaming.scoring.cross_agent_weight == (if a.dreaming.scoring.cross_agent_weight is Some { a.dreaming.scoring.cross_agent_weight } else { g.dreaming.scoring.cross_agent_weight })
            &&& m.dreaming.scoring.negative_signal_weight == (if a.dreaming.scoring.negative_signal_weight is Some { a.dreaming.scoring.negative_signal_weight } else { g.dreaming.scoring.negative_signal_weight })
            &&& m.dreaming.scoring.entity_type_weight_weight == (if a.dreaming.scoring.entity_type_weight_weight is Some { a.dreaming.scoring.entity_type_weight_weight } else { g.dreaming.scoring.entity_type_weight_weight })
            &&& m.dreaming.threshold.absolute == (if a.dreaming.threshold.absolute is Some { a.dreaming.threshold.absolute } else { g.dreaming.threshold.absolute })
            &&& m.dreaming.threshold.relative == (if a.dreaming.threshold.relative is Some { a.dreaming.threshold.relative } else { g.dreaming.threshold.relative })
            &&& m.dreaming.capacity.max_rules == (if a.dreaming.capacity.max_rules is Some { a.dreaming.capacity.max_rules } else { g.dreaming.capacity.max_rules })
            &&& m.search.enabled == (if a.search.enabled is Some { a.search.enabled } else { g.search.enabled })
            &&& m.search.model == (if a.search.model is Some { a.search.model } else { g.search.model })
            &&& m.search.context_turns == (if a.search.context_turns is Some { a.search.context_turns } else { g.search.context_turns })
            &&& m.search.timeout_ms == (if a.search.timeout_ms is Some { a.search.timeout_ms } else { g.search.timeout_ms })
            &&& m.search.max_summary_chars == (if a.search.max_summary_chars is Some { a.search.max_summary_chars } else { g.search.max_summary_chars })
            &&& m.search.min_entity_hits == (if a.search.min_entity_hits is Some { a.search.min_entity_hits } else { g.search.min_entity_hits })
            &&& m.search.top_k_events == (if a.search.top_k_events is Some { a.search.top_k_events } else { g.search.top_k_events })
        }),
{
}

} // verus!
