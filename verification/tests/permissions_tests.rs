use closeclaw_config::agent_config::SubagentsConfig;
use closeclaw_config::memory_config::{
    DreamingConfig, MiningConfig, SearchConfig, TranscriptCleanRules,
};
use closeclaw_config::permissions::{
    intersect_vec, ActionPermission, AgentPermissions, PermissionLimits,
};

fn make_perms(agent_id: &str, allowed_dims: &[&str]) -> AgentPermissions {
    let dimensions = [
        "command",
        "file_read",
        "file_write",
        "network",
        "spawn",
        "tool_call",
        "config_write",
        "message",
    ];
    let permissions = dimensions
        .iter()
        .map(|&dim| {
            (
                dim.to_string(),
                ActionPermission {
                    allowed: allowed_dims.contains(&dim),
                    limits: PermissionLimits::default(),
                },
            )
        })
        .collect();
    AgentPermissions {
        agent_id: agent_id.to_string(),
        permissions,
        inherited_from: None,
    }
}

fn single(agent_id: &str, dim: &str, limits: PermissionLimits) -> AgentPermissions {
    AgentPermissions {
        agent_id: agent_id.to_string(),
        permissions: vec![(
            dim.to_string(),
            ActionPermission {
                allowed: true,
                limits,
            },
        )],
        inherited_from: None,
    }
}

#[test]
fn intersect_both_allow_preserves() {
    let child = make_perms("child", &["command", "file_read"]);
    let parent = make_perms("parent", &["command", "file_read"]);
    let result = child.intersect(&parent);
    assert!(result.permission("command").unwrap().allowed);
    assert!(result.permission("file_read").unwrap().allowed);
}

#[test]
fn intersect_limits_commands_set_intersection() {
    let child = single(
        "child",
        "command",
        PermissionLimits {
            commands: vec!["git".into(), "ls".into()],
            ..Default::default()
        },
    );
    let parent = single(
        "parent",
        "command",
        PermissionLimits {
            commands: vec!["git".into(), "cat".into()],
            ..Default::default()
        },
    );
    let result = child.intersect(&parent);
    assert_eq!(result.permission("command").unwrap().limits.commands, vec!["git"]);
}

#[test]
fn intersect_limits_paths_set_intersection() {
    let child = single(
        "child",
        "file_read",
        PermissionLimits {
            paths: vec!["/data/**".into(), "/home/**".into()],
            ..Default::default()
        },
    );
    let parent = single(
        "parent",
        "file_read",
        PermissionLimits {
            paths: vec!["/data/**".into(), "/etc/**".into()],
            ..Default::default()
        },
    );
    let result = child.intersect(&parent);
    assert_eq!(result.permission("file_read").unwrap().limits.paths, vec!["/data/**"]);
}

#[test]
fn intersect_limits_timeout_min() {
    let child = single(
        "child",
        "command",
        PermissionLimits {
            timeout_ms: Some(60_000),
            ..Default::default()
        },
    );
    let parent = single(
        "parent",
        "command",
        PermissionLimits {
            timeout_ms: Some(30_000),
            ..Default::default()
        },
    );
    let result = child.intersect(&parent);
    assert_eq!(result.permission("command").unwrap().limits.timeout_ms, Some(30_000));
}

#[test]
fn intersect_child_deny_overrides() {
    let child = make_perms("child", &["file_read"]);
    let parent = make_perms("parent", &["command", "file_read"]);
    let result = child.intersect(&parent);
    assert!(!result.permission("command").unwrap().allowed);
    assert!(result.permission("file_read").unwrap().allowed);
}

#[test]
fn intersect_parent_deny_overrides() {
    let child = make_perms("child", &["command", "file_read"]);
    let parent = make_perms("parent", &["command"]);
    let result = child.intersect(&parent);
    assert!(result.permission("command").unwrap().allowed);
    assert!(!result.permission("file_read").unwrap().allowed);
}

#[test]
fn intersect_absent_dimension_is_deny() {
    let child = AgentPermissions {
        agent_id: "child".to_string(),
        permissions: Vec::new(),
        inherited_from: None,
    };
    let parent = make_perms("parent", &["command"]);
    let result = child.intersect(&parent);
    assert!(!result.permission("command").unwrap().allowed);
}

#[test]
fn intersect_deny_gets_default_limits() {
    let child = make_perms("child", &[]);
    let parent = make_perms("parent", &["command"]);
    let result = child.intersect(&parent);
    let exec = &result.permission("command").unwrap().limits;
    assert!(exec.commands.is_empty());
    assert!(exec.paths.is_empty());
    assert_eq!(exec.timeout_ms, None);
}

#[test]
fn intersect_limits_timeout_none_vs_none() {
    let child = single(
        "child",
        "command",
        PermissionLimits {
            timeout_ms: None,
            ..Default::default()
        },
    );
    let parent = single(
        "parent",
        "command",
        PermissionLimits {
            timeout_ms: None,
            ..Default::default()
        },
    );
    let result = child.intersect(&parent);
    assert_eq!(result.permission("command").unwrap().limits.timeout_ms, None);
}

#[test]
fn intersect_limits_timeout_none_vs_some() {
    let child = single(
        "child",
        "command",
        PermissionLimits {
            timeout_ms: None,
            ..Default::default()
        },
    );
    let parent = single(
        "parent",
        "command",
        PermissionLimits {
            timeout_ms: Some(5_000),
            ..Default::default()
        },
    );
    let result = child.intersect(&parent);
    assert_eq!(result.permission("command").unwrap().limits.timeout_ms, Some(5_000));
}

#[test]
fn intersect_vec_none_none_returns_empty() {
    let result = intersect_vec::<String>(None, None);
    assert!(result.is_empty());
}

#[test]
fn intersect_vec_some_none_returns_some() {
    let a = vec!["x".to_string(), "y".to_string()];
    let result = intersect_vec(Some(&a), None);
    assert_eq!(result, vec!["x", "y"]);
}

#[test]
fn intersect_vec_none_some_returns_some() {
    let b = vec!["x".to_string(), "z".to_string()];
    let result = intersect_vec(None, Some(&b));
    assert_eq!(result, vec!["x", "z"]);
}

#[test]
fn is_fully_denied_all_absent() {
    let perms = AgentPermissions {
        agent_id: "a".to_string(),
        permissions: Vec::new(),
        inherited_from: None,
    };
    assert!(perms.is_fully_denied());
}

#[test]
fn is_fully_denied_all_explicit_deny() {
    let perms = make_perms("a", &[]);
    assert!(perms.is_fully_denied());
}

#[test]
fn is_fully_denied_one_allow() {
    let perms = make_perms("a", &["command"]);
    assert!(!perms.is_fully_denied());
}

#[test]
fn intersect_result_has_correct_ids() {
    let child = make_perms("child", &["command"]);
    let parent = make_perms("parent", &["command"]);
    let result = child.intersect(&parent);
    assert_eq!(result.agent_id, "child");
    assert_eq!(result.inherited_from, Some("parent".into()));
}

#[test]
fn intersect_all_eight_dimensions_checked() {
    let child = make_perms("child", &["command"]);
    let parent = make_perms("parent", &["command"]);
    let result = child.intersect(&parent);
    assert_eq!(result.permissions.len(), 8);
    for dim in [
        "command",
        "file_read",
        "file_write",
        "network",
        "spawn",
        "tool_call",
        "config_write",
        "message",
    ] {
        assert!(result.permission(dim).is_some(), "missing dimension: {dim}");
    }
}

#[test]
fn intersect_parent_deny_child_allow_message_is_deny() {
    let child = make_perms("child", &["command", "file_read", "message"]);
    let parent = make_perms("parent", &["command", "file_read"]);
    let result = child.intersect(&parent);
    assert!(!result.permission("message").unwrap().allowed);
}

#[test]
fn intersect_both_allow_message_is_allow() {
    let child = make_perms("child", &["command", "message"]);
    let parent = make_perms("parent", &["command", "message"]);
    let result = child.intersect(&parent);
    assert!(result.permission("message").unwrap().allowed);
}

#[test]
fn intersect_child_allow_parent_absent_message_is_deny() {
    let child = make_perms("child", &["command", "message"]);
    let parent = single("parent", "command", PermissionLimits::default());
    let result = child.intersect(&parent);
    assert!(!result.permission("message").unwrap().allowed);
}

#[test]
fn is_fully_denied_seven_deny_message_allow_is_false() {
    let perms = make_perms("a", &["message"]);
    assert!(!perms.is_fully_denied());
}

#[test]
fn is_fully_denied_all_eight_deny_is_true() {
    let perms = make_perms("a", &[]);
    assert!(perms.is_fully_denied());
}

#[test]
fn intersect_message_limits_commands_set_intersection() {
    let child = single(
        "child",
        "message",
        PermissionLimits {
            commands: vec!["send".into(), "edit".into()],
            ..Default::default()
        },
    );
    let parent = single(
        "parent",
        "message",
        PermissionLimits {
            commands: vec!["send".into(), "delete".into()],
            ..Default::default()
        },
    );
    let result = child.intersect(&parent);
    assert!(result.permission("message").unwrap().allowed);
    assert_eq!(result.permission("message").unwrap().limits.commands, vec!["send"]);
}

#[test]
fn test_mining_config_defaults() {
    let config = MiningConfig::default();
    assert!(!config.enabled.unwrap_or(false));
    assert!(config.model.is_none());
    assert!(config.max_events_per_session.is_none());
    assert!(config.dedup_window_days.is_none());
    assert!(config.transcript_clean_rules.min_turns.is_none());
    assert!(config.transcript_clean_rules.min_owner_msgs.is_none());
    assert!(config.transcript_clean_rules.format.is_none());
}

#[test]
fn test_dreaming_config_defaults() {
    let config = DreamingConfig::default();
    assert!(!config.enabled.unwrap_or(false));
    assert!(config.model.is_none());
    assert!(config.schedule.is_none());
    assert!(config.scoring.frequency_weight.is_none());
    assert!(config.scoring.recency_weight.is_none());
    assert!(config.scoring.explicitness_weight.is_none());
    assert!(config.scoring.cross_agent_weight.is_none());
    assert!(config.scoring.negative_signal_weight.is_none());
    assert!(config.threshold.absolute.is_none());
    assert!(config.threshold.relative.is_none());
    assert!(config.capacity.max_rules.is_none());
}

#[test]
fn test_search_config_defaults() {
    let config = SearchConfig::default();
    assert!(!config.enabled.unwrap_or(false));
    assert!(config.model.is_none());
    assert!(config.context_turns.is_none());
    assert!(config.timeout_ms.is_none());
    assert!(config.max_summary_chars.is_none());
    assert!(config.min_entity_hits.is_none());
    assert!(config.top_k_events.is_none());
}

#[test]
fn test_transcript_clean_rules_defaults() {
    let rules = TranscriptCleanRules::default();
    assert!(rules.min_turns.is_none());
    assert!(rules.min_owner_msgs.is_none());
    assert!(rules.format.is_none());
}

#[test]
fn test_subagents_config_default_timeout_is_none() {
    let config = SubagentsConfig::default();
    assert!(config.timeout.is_none());
}

#[test]
fn intersect_is_symmetric_in_allowance() {
    let a = make_perms("a", &["command", "network", "spawn"]);
    let b = make_perms("b", &["network", "spawn", "message"]);
    let ab = a.intersect(&b);
    let ba = b.intersect(&a);
    for dim in ["command", "network", "spawn", "message", "file_read"] {
        assert_eq!(
            ab.permission(dim).unwrap().allowed,
            ba.permission(dim).unwrap().allowed,
            "dimension {dim}"
        );
    }
}

#[test]
fn intersect_with_itself_keeps_allowance() {
    let a = make_perms("a", &["command", "tool_call"]);
    let aa = a.intersect(&a);
    assert!(aa.is_allowed("command"));
    assert!(aa.is_allowed("tool_call"));
    assert!(!aa.is_allowed("network"));
}

#[test]
fn is_allowed_unknown_action_is_denied() {
    let a = make_perms("a", &["command"]);
    assert!(a.is_allowed("command"));
    assert!(!a.is_allowed("unknown_action"));
}
