use closeclaw_config::agent_config::{AgentConfig, ConfigSource, ResolvedAgentConfig};
use closeclaw_config::agent_registry::{validate_parent_ids, AgentRegistry};
use closeclaw_config::errors::ConfigLoadError;
use closeclaw_config::permissions::{ActionPermission, AgentPermissions, PermissionLimits};

fn agent(id: &str, parent: Option<&str>) -> ResolvedAgentConfig {
    let mut c = AgentConfig::default();
    c.id = id.to_string();
    c.parent_id = parent.map(|p| p.to_string());
    ResolvedAgentConfig::from_single(c, ConfigSource::User, "<test>", None).unwrap()
}

fn perms(id: &str, allow_exec: bool) -> AgentPermissions {
    AgentPermissions {
        agent_id: id.to_string(),
        permissions: vec![(
            "exec".to_string(),
            ActionPermission { allowed: allow_exec, limits: PermissionLimits::default() },
        )],
        inherited_from: None,
    }
}

fn ids(xs: &[&str]) -> Vec<String> {
    xs.iter().map(|x| x.to_string()).collect()
}

#[test]
fn registry_parent_ids_all_registered() {
    let agents = vec![agent("main", None), agent("helper", Some("main"))];
    assert!(validate_parent_ids(&agents, &ids(&["main", "helper"]), "/cfg/agents.json").is_ok());
}

#[test]
fn registry_unregistered_parent_is_reported() {
    let agents = vec![agent("main", None), agent("helper", Some("ghost")), agent("other", Some("nobody"))];
    match validate_parent_ids(&agents, &ids(&["main", "helper", "other"]), "/cfg/agents.json") {
        Err(ConfigLoadError::ValidationError { path, message }) => {
            assert_eq!(path, "/cfg/agents.json");
            assert_eq!(message, "Agent 'helper' references unregistered parent 'ghost'");
        }
        other => panic!("unexpected {:?}", other),
    }
}

#[test]
fn registry_install_syncs_permissions() {
    let mut reg = AgentRegistry::new();
    let agents = vec![("main".to_string(), agent("main", None)), ("helper".to_string(), agent("helper", Some("main")))];
    let provided = vec![("main".to_string(), perms("main", true))];
    reg.install(agents, &ids(&["main", "helper"]), provided);

    assert_eq!(reg.agent("helper").unwrap().parent_id.as_deref(), Some("main"));
    assert!(reg.agent("missing").is_none());

    let main = reg.agent_permissions("main").unwrap();
    assert!(main.is_allowed("exec"));

    // An agent without a permissions file gets a blank entry.
    let helper = reg.agent_permissions("helper").unwrap();
    assert_eq!(helper.agent_id, "helper");
    assert!(helper.permissions.is_empty());
    assert!(helper.inherited_from.is_none());
    assert!(!helper.is_allowed("exec"));
}

#[test]
fn registry_install_keeps_permissions_of_other_agents() {
    let mut reg = AgentRegistry::new();
    reg.install(vec![], &ids(&["old"]), vec![("old".to_string(), perms("old", true))]);
    reg.install(vec![], &ids(&["new"]), vec![]);
    assert!(reg.agent_permissions("old").unwrap().is_allowed("exec"));
    assert_eq!(reg.agent_permissions("new").unwrap().agent_id, "new");
}

#[test]
fn registry_install_with_repeated_id() {
    let mut reg = AgentRegistry::new();
    reg.install(vec![], &ids(&["a", "a"]), vec![("a".to_string(), perms("a", true))]);
    assert!(reg.agent_permissions("a").unwrap().is_allowed("exec"));
}

#[test]
fn registry_restore_replaces_everything() {
    let mut reg = AgentRegistry::new();
    reg.install(vec![("x".to_string(), agent("x", None))], &ids(&["x"]), vec![]);
    reg.restore(vec![("y".to_string(), agent("y", None))], vec![("y".to_string(), perms("y", false))]);
    assert!(reg.agent("x").is_none());
    assert!(reg.agent_permissions("x").is_none());
    assert_eq!(reg.agent("y").unwrap().id, "y");
    assert!(!reg.agent_permissions("y").unwrap().is_allowed("exec"));
}
