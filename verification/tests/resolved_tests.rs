use closeclaw_config::agent_config::{
    resolve_agent, AgentConfig, BootstrapMode, ConfigSource, ModelSpec, ResolvedAgentConfig, SubagentsConfig,
};
use closeclaw_config::errors::ConfigError;
use closeclaw_config::memory_config::{MemoryConfig, MiningConfig, SearchConfig};

fn make_user_config() -> AgentConfig {
    AgentConfig {
        id: "test-agent".to_string(),
        bootstrap_mode: Some(BootstrapMode::Minimal),
        subagents: SubagentsConfig {
            require_agent_id: Some(true),
            max_spawn_depth: Some(3),
            max_children: Some(10),
            ..Default::default()
        },
        ..Default::default()
    }
}

// ------------------------------------------------------------------
// Gap 4: bootstrapMode field-level override
// ------------------------------------------------------------------

#[test]
fn test_merge_project_bootstrap_mode_overrides_user() {
    // Project explicitly sets "full" → should override user's "minimal".
    let project = AgentConfig {
        id: "test-agent".to_string(),
        bootstrap_mode: Some(BootstrapMode::Full),
        ..Default::default()
    };
    let user = make_user_config();
    let resolved = ResolvedAgentConfig::merge(project, user, "<test>", None).unwrap();
    assert_eq!(resolved.bootstrap_mode, BootstrapMode::Full);
}

#[test]
fn test_merge_project_bootstrap_mode_minimal_overrides_user_full() {
    // Boundary: project explicitly sets "minimal" → overrides user's "full".
    let user = AgentConfig {
        id: "test-agent".to_string(),
        bootstrap_mode: Some(BootstrapMode::Full),
        ..Default::default()
    };
    let project = AgentConfig {
        id: "test-agent".to_string(),
        bootstrap_mode: Some(BootstrapMode::Minimal),
        ..Default::default()
    };
    let resolved = ResolvedAgentConfig::merge(project, user, "<test>", None).unwrap();
    assert_eq!(resolved.bootstrap_mode, BootstrapMode::Minimal);
}

#[test]
fn test_merge_project_bootstrap_mode_none_falls_back_to_user() {
    // Project not specified (None) → fall back to user's "minimal".
    let project = AgentConfig {
        id: "test-agent".to_string(),
        bootstrap_mode: None,
        ..Default::default()
    };
    let user = make_user_config();
    let resolved = ResolvedAgentConfig::merge(project, user, "<test>", None).unwrap();
    assert_eq!(resolved.bootstrap_mode, BootstrapMode::Minimal);
}

#[test]
fn test_merge_both_bootstrap_mode_none_uses_default() {
    // Both levels unspecified → default is BootstrapMode::Full.
    let project = AgentConfig {
        id: "test-agent".to_string(),
        bootstrap_mode: None,
        ..Default::default()
    };
    let user = AgentConfig {
        id: "test-agent".to_string(),
        bootstrap_mode: None,
        ..Default::default()
    };
    let resolved = ResolvedAgentConfig::merge(project, user, "<test>", None).unwrap();
    assert_eq!(resolved.bootstrap_mode, BootstrapMode::Full);
}

// ------------------------------------------------------------------
// Gap 3: requireAgentId field-level override
// ------------------------------------------------------------------

#[test]
fn test_merge_project_require_agent_id_false_overrides_user_true() {
    // Project explicitly sets false → should override user's true.
    let project = AgentConfig {
        id: "test-agent".to_string(),
        subagents: SubagentsConfig {
            require_agent_id: Some(false),
            ..Default::default()
        },
        ..Default::default()
    };
    let user = make_user_config();
    let resolved = ResolvedAgentConfig::merge(project, user, "<test>", None).unwrap();
    assert_eq!(resolved.subagents.require_agent_id, Some(false));
}

#[test]
fn test_merge_project_require_agent_id_true_overrides_user_false() {
    // Boundary: project explicitly sets true → overrides user's false.
    let user = AgentConfig {
        id: "test-agent".to_string(),
        subagents: SubagentsConfig {
            require_agent_id: Some(false),
            ..Default::default()
        },
        ..Default::default()
    };
    let project = AgentConfig {
        id: "test-agent".to_string(),
        subagents: SubagentsConfig {
            require_agent_id: Some(true),
            ..Default::default()
        },
        ..Default::default()
    };
    let resolved = ResolvedAgentConfig::merge(project, user, "<test>", None).unwrap();
    assert_eq!(resolved.subagents.require_agent_id, Some(true));
}

#[test]
fn test_merge_project_require_agent_id_none_falls_back_to_user() {
    // Project not specified (None) → fall back to user's true.
    let project = AgentConfig {
        id: "test-agent".to_string(),
        subagents: SubagentsConfig {
            require_agent_id: None,
            ..Default::default()
        },
        ..Default::default()
    };
    let user = make_user_config();
    let resolved = ResolvedAgentConfig::merge(project, user, "<test>", None).unwrap();
    assert_eq!(resolved.subagents.require_agent_id, Some(true));
}

#[test]
fn test_merge_both_require_agent_id_none_uses_default() {
    // Both levels unspecified → filled with default (false).
    let project = AgentConfig {
        id: "test-agent".to_string(),
        subagents: SubagentsConfig {
            require_agent_id: None,
            ..Default::default()
        },
        ..Default::default()
    };
    let user = AgentConfig {
        id: "test-agent".to_string(),
        subagents: SubagentsConfig {
            require_agent_id: None,
            ..Default::default()
        },
        ..Default::default()
    };
    let resolved = ResolvedAgentConfig::merge(project, user, "<test>", None).unwrap();
    assert_eq!(resolved.subagents.require_agent_id, Some(false));
}

// ------------------------------------------------------------------
// Gap 4: maxSpawnDepth field-level override
// ------------------------------------------------------------------

#[test]
fn test_merge_project_max_spawn_depth_overrides_user() {
    // Project explicitly sets 1 → should override user's 3.
    let project = AgentConfig {
        id: "test-agent".to_string(),
        subagents: SubagentsConfig {
            max_spawn_depth: Some(1),
            ..Default::default()
        },
        ..Default::default()
    };
    let user = make_user_config();
    let resolved = ResolvedAgentConfig::merge(project, user, "<test>", None).unwrap();
    assert_eq!(resolved.subagents.max_spawn_depth, Some(1));
}

#[test]
fn test_merge_project_max_spawn_depth_zero_overrides_user() {
    // Boundary: project explicitly sets 0 → overrides user's 3.
    let project = AgentConfig {
        id: "test-agent".to_string(),
        subagents: SubagentsConfig {
            max_spawn_depth: Some(0),
            ..Default::default()
        },
        ..Default::default()
    };
    let user = make_user_config();
    let resolved = ResolvedAgentConfig::merge(project, user, "<test>", None).unwrap();
    assert_eq!(resolved.subagents.max_spawn_depth, Some(0));
}

#[test]
fn test_merge_project_max_spawn_depth_none_falls_back_to_user() {
    // Project not specified (None) → fall back to user's 3.
    let project = AgentConfig {
        id: "test-agent".to_string(),
        subagents: SubagentsConfig {
            max_spawn_depth: None,
            ..Default::default()
        },
        ..Default::default()
    };
    let user = make_user_config();
    let resolved = ResolvedAgentConfig::merge(project, user, "<test>", None).unwrap();
    assert_eq!(resolved.subagents.max_spawn_depth, Some(3));
}

#[test]
fn test_merge_both_max_spawn_depth_none_uses_default() {
    // Both levels unspecified → default is 1.
    let project = AgentConfig {
        id: "test-agent".to_string(),
        subagents: SubagentsConfig {
            max_spawn_depth: None,
            ..Default::default()
        },
        ..Default::default()
    };
    let user = AgentConfig {
        id: "test-agent".to_string(),
        subagents: SubagentsConfig {
            max_spawn_depth: None,
            ..Default::default()
        },
        ..Default::default()
    };
    let resolved = ResolvedAgentConfig::merge(project, user, "<test>", None).unwrap();
    assert_eq!(resolved.subagents.max_spawn_depth, Some(1));
}

// ------------------------------------------------------------------
// Gap 4: maxChildren field-level override
// ------------------------------------------------------------------

#[test]
fn test_merge_project_max_children_overrides_user() {
    // Project explicitly sets 5 → should override user's 10.
    let project = AgentConfig {
        id: "test-agent".to_string(),
        subagents: SubagentsConfig {
            max_children: Some(5),
            ..Default::default()
        },
        ..Default::default()
    };
    let user = make_user_config();
    let resolved = ResolvedAgentConfig::merge(project, user, "<test>", None).unwrap();
    assert_eq!(resolved.subagents.max_children, Some(5));
}

#[test]
fn test_merge_project_max_children_zero_overrides_user() {
    // Boundary: project explicitly sets 0 → overrides user's 10.
    let project = AgentConfig {
        id: "test-agent".to_string(),
        subagents: SubagentsConfig {
            max_children: Some(0),
            ..Default::default()
        },
        ..Default::default()
    };
    let user = make_user_config();
    let resolved = ResolvedAgentConfig::merge(project, user, "<test>", None).unwrap();
    assert_eq!(resolved.subagents.max_children, Some(0));
}

#[test]
fn test_merge_project_max_children_none_falls_back_to_user() {
    // Project not specified (None) → fall back to user's 10.
    let project = AgentConfig {
        id: "test-agent".to_string(),
        subagents: SubagentsConfig {
            max_children: None,
            ..Default::default()
        },
        ..Default::default()
    };
    let user = make_user_config();
    let resolved = ResolvedAgentConfig::merge(project, user, "<test>", None).unwrap();
    assert_eq!(resolved.subagents.max_children, Some(10));
}

#[test]
fn test_merge_both_max_children_none_uses_default() {
    // Both levels unspecified → default is 5.
    let project = AgentConfig {
        id: "test-agent".to_string(),
        subagents: SubagentsConfig {
            max_children: None,
            ..Default::default()
        },
        ..Default::default()
    };
    let user = AgentConfig {
        id: "test-agent".to_string(),
        subagents: SubagentsConfig {
            max_children: None,
            ..Default::default()
        },
        ..Default::default()
    };
    let resolved = ResolvedAgentConfig::merge(project, user, "<test>", None).unwrap();
    assert_eq!(resolved.subagents.max_children, Some(5));
}

// ------------------------------------------------------------------
// JSON backward compatibility: old format without optional fields
// ------------------------------------------------------------------

#[test]
fn test_merge_old_json_without_optional_fields() {
    // Old JSON without bootstrapMode, requireAgentId, maxSpawnDepth,
    // maxChildren should deserialize as None and fall back to user/defaults.
    let project = AgentConfig {
        id: "old-agent".to_string(),
        ..Default::default()
    };
    let user = make_user_config();
    let resolved = ResolvedAgentConfig::merge(project, user, "<test>", None).unwrap();

    // All should fall back to user values
    assert_eq!(resolved.bootstrap_mode, BootstrapMode::Minimal);
    assert_eq!(resolved.subagents.require_agent_id, Some(true));
    assert_eq!(resolved.subagents.max_spawn_depth, Some(3));
    assert_eq!(resolved.subagents.max_children, Some(10));
}

// ------------------------------------------------------------------
// from_single: Option<T> → resolved with defaults
// ------------------------------------------------------------------

#[test]
fn test_from_single_resolves_bootstrap_mode_default() {
    let config = AgentConfig {
        id: "test-agent".to_string(),
        bootstrap_mode: None,
        ..Default::default()
    };
    let resolved =
        ResolvedAgentConfig::from_single(config, ConfigSource::User, "<test>", None).unwrap();
    assert_eq!(resolved.bootstrap_mode, BootstrapMode::Full);
}

#[test]
fn test_from_single_fills_subagent_defaults() {
    // from_single now fills subagent defaults via apply_subagent_defaults.
    let config = AgentConfig {
        id: "test-agent".to_string(),
        subagents: SubagentsConfig {
            max_spawn_depth: None,
            max_children: None,
            ..Default::default()
        },
        ..Default::default()
    };
    let resolved =
        ResolvedAgentConfig::from_single(config, ConfigSource::User, "<test>", None).unwrap();
    assert_eq!(resolved.subagents.require_agent_id, Some(false));
    assert_eq!(resolved.subagents.max_spawn_depth, Some(1));
    assert_eq!(resolved.subagents.max_children, Some(5));
}

#[test]
fn test_from_single_preserves_explicit_values() {
    let config = AgentConfig {
        id: "test-agent".to_string(),
        bootstrap_mode: Some(BootstrapMode::Minimal),
        subagents: SubagentsConfig {
            require_agent_id: Some(true),
            max_spawn_depth: Some(3),
            max_children: Some(10),
            ..Default::default()
        },
        ..Default::default()
    };
    let resolved =
        ResolvedAgentConfig::from_single(config, ConfigSource::User, "<test>", None).unwrap();
    assert_eq!(resolved.bootstrap_mode, BootstrapMode::Minimal);
    assert_eq!(resolved.subagents.require_agent_id, Some(true));
    assert_eq!(resolved.subagents.max_spawn_depth, Some(3));
    assert_eq!(resolved.subagents.max_children, Some(10));
}


#[test]
fn test_merge_empty_ids_is_missing_id() {
    let project = AgentConfig::default();
    let user = AgentConfig::default();
    match ResolvedAgentConfig::merge(project, user, "/cfg/agents/x", None) {
        Err(ConfigError::MissingId { path }) => assert_eq!(path, "/cfg/agents/x"),
        other => panic!("unexpected: {:?}", other.map(|r| r.id)),
    }
}

#[test]
fn test_from_single_empty_id_is_missing_id() {
    let err = ResolvedAgentConfig::from_single(AgentConfig::default(), ConfigSource::Project, "p", None)
        .unwrap_err();
    assert_eq!(err.to_string(), "agent config p has no id");
}

#[test]
fn test_name_falls_back_to_id() {
    let config = AgentConfig {
        id: "alpha".to_string(),
        name: Some(String::new()),
        ..Default::default()
    };
    let resolved = ResolvedAgentConfig::from_single(config, ConfigSource::User, "<t>", None).unwrap();
    assert_eq!(resolved.name, "alpha");
    assert_eq!(resolved.source, ConfigSource::User);
}

#[test]
fn test_merge_name_project_then_user_then_id() {
    let project = AgentConfig {
        id: String::new(),
        name: None,
        ..Default::default()
    };
    let user = AgentConfig {
        id: "u".to_string(),
        name: Some("User Name".to_string()),
        ..Default::default()
    };
    let resolved = ResolvedAgentConfig::merge(project, user, "<t>", None).unwrap();
    assert_eq!(resolved.id, "u");
    assert_eq!(resolved.name, "User Name");
    assert_eq!(resolved.source, ConfigSource::Merged);
}

#[test]
fn test_merge_lists_project_non_empty_replaces_user() {
    let project = AgentConfig {
        id: "a".to_string(),
        skills: vec!["web".to_string()],
        tools: vec![],
        ..Default::default()
    };
    let user = AgentConfig {
        id: "a".to_string(),
        skills: vec!["mail".to_string(), "code".to_string()],
        tools: vec!["Read".to_string()],
        ..Default::default()
    };
    let resolved = ResolvedAgentConfig::merge(project, user, "<t>", None).unwrap();
    assert_eq!(resolved.skills, vec!["web"]);
    assert_eq!(resolved.tools, vec!["Read"]);
    assert_eq!(resolved.effective_tools(), Some(vec!["Read".to_string()]));
    assert_eq!(resolved.effective_disallowed_tools(), None);
}

#[test]
fn test_wildcard_lists() {
    assert!(ResolvedAgentConfig::is_wildcard_list(&[]));
    assert!(ResolvedAgentConfig::is_wildcard_list(&["*".to_string()]));
    assert!(!ResolvedAgentConfig::is_wildcard_list(&["Read".to_string()]));
    assert!(!ResolvedAgentConfig::is_wildcard_list(&["*".to_string(), "Read".to_string()]));
    let resolved = ResolvedAgentConfig::from_single(
        AgentConfig {
            id: "a".to_string(),
            ..Default::default()
        },
        ConfigSource::User,
        "<t>",
        None,
    )
    .unwrap();
    assert_eq!(resolved.effective_skills(), None);
    assert_eq!(resolved.effective_tools(), None);
}

#[test]
fn test_merge_three_layer_memory() {
    let mut global = MemoryConfig::default();
    global.mining.enabled = Some(false);
    global.mining.max_events_per_session = Some(10);
    global.search.timeout_ms = Some(3000);
    let mut user_mem = MemoryConfig::default();
    user_mem.mining = MiningConfig {
        enabled: Some(true),
        ..Default::default()
    };
    user_mem.search = SearchConfig {
        timeout_ms: Some(4000),
        ..Default::default()
    };
    let mut project_mem = MemoryConfig::default();
    project_mem.search.timeout_ms = Some(5000);
    let project = AgentConfig {
        id: "a".to_string(),
        memory: Some(project_mem),
        ..Default::default()
    };
    let user = AgentConfig {
        id: "a".to_string(),
        memory: Some(user_mem),
        ..Default::default()
    };
    let resolved = ResolvedAgentConfig::merge(project, user, "<t>", Some(&global)).unwrap();
    assert_eq!(resolved.memory.mining.enabled, Some(true));
    assert_eq!(resolved.memory.mining.max_events_per_session, Some(10));
    assert_eq!(resolved.memory.search.timeout_ms, Some(5000));
}

#[test]
fn test_model_spec_constructors() {
    let m = ModelSpec::single("gpt-4o");
    assert_eq!(m.primary, "gpt-4o");
    assert!(m.fallback.is_empty());
    assert_eq!(m.to_string(), "gpt-4o");
    let f = ModelSpec::with_fallback("a", vec!["b".to_string()]);
    assert_eq!(f.primary, "a");
    assert_eq!(f.fallback, vec!["b"]);
}

#[test]
fn resolve_agent_picks_merge_single_or_default() {
    let named = |id: &str, name: &str| AgentConfig {
        id: id.to_string(),
        name: Some(name.to_string()),
        ..AgentConfig::default()
    };
    // Both levels: merged, project over user.
    let r = resolve_agent("a", Some(named("a", "proj")), Some(named("a", "user")), "cfg", None).unwrap();
    assert_eq!(r.source, ConfigSource::Merged);
    assert_eq!(r.name, "proj");
    // One level: resolved at that level.
    let r = resolve_agent("a", Some(named("a", "proj")), None, "cfg", None).unwrap();
    assert_eq!(r.source, ConfigSource::Project);
    let r = resolve_agent("a", None, Some(named("a", "user")), "cfg", None).unwrap();
    assert_eq!(r.source, ConfigSource::User);
    assert_eq!(r.name, "user");
    // Neither level: the default configuration under the registered id.
    let r = resolve_agent("helper", None, None, "cfg", None).unwrap();
    assert_eq!(r.source, ConfigSource::User);
    assert_eq!(r.id, "helper");
    assert_eq!(r.name, "helper");
    assert_eq!(r.bootstrap_mode, BootstrapMode::Full);
    assert_eq!(r.skills, vec!["*".to_string()]);
    // An empty id is the missing-id error.
    let err = resolve_agent("", None, None, "cfg", None).unwrap_err();
    assert_eq!(err.to_string(), "agent config cfg has no id");
}
