use closeclaw_config::errors::{ConfigLoadError, ConfigValidationError, ConfigWriteError};
use closeclaw_config::json::{json_equal, JsonNumber, JsonValue};
use closeclaw_config::loading::{
    config_version, file_mode, load_startup_sections, is_file_required, listed_sections, load_step, rollback_outcome,
    startup_sections, write_rejection, FileRead, LoadStep,
};
use closeclaw_config::section::ConfigSection;
use closeclaw_config::store::ConfigManager;

fn obj(entries: Vec<(&str, JsonValue)>) -> JsonValue {
    JsonValue::Object(entries.into_iter().map(|(k, v)| (k.to_string(), v)).collect())
}

fn s(text: &str) -> JsonValue {
    JsonValue::String(text.to_string())
}

#[test]
fn loading_startup_order_and_optional_models() {
    assert_eq!(
        startup_sections(),
        vec![
            ConfigSection::Models,
            ConfigSection::Channels,
            ConfigSection::Gateway,
            ConfigSection::Plugins,
            ConfigSection::System,
            ConfigSection::Accounts,
        ]
    );
    assert!(!is_file_required(ConfigSection::Models));
    assert!(is_file_required(ConfigSection::Channels));
    assert!(is_file_required(ConfigSection::Accounts));
}

#[test]
fn loading_missing_required_file_refuses_start() {
    let existing: Vec<String> = Vec::new();
    match load_step(ConfigSection::Gateway, "/cfg/gateway.json", FileRead::Missing, &existing) {
        LoadStep::Fail(ConfigLoadError::ConfigFileNotFound(p)) => assert_eq!(p, "/cfg/gateway.json"),
        other => panic!("unexpected {:?}", other),
    }
}

#[test]
fn loading_missing_models_file_is_absent() {
    let existing: Vec<String> = Vec::new();
    assert!(matches!(
        load_step(ConfigSection::Models, "/cfg/models.json", FileRead::Missing, &existing),
        LoadStep::Absent
    ));
}

#[test]
fn loading_unreadable_file_is_io_error() {
    let existing: Vec<String> = Vec::new();
    match load_step(
        ConfigSection::System,
        "/cfg/system.json",
        FileRead::Unreadable("permission denied".to_string()),
        &existing,
    ) {
        LoadStep::Fail(ConfigLoadError::IoError { path, error }) => {
            assert_eq!(path, "/cfg/system.json");
            assert_eq!(error, "permission denied");
        }
        other => panic!("unexpected {:?}", other),
    }
}

#[test]
fn loading_corrupt_file_goes_to_rollback() {
    let existing: Vec<String> = Vec::new();
    match load_step(
        ConfigSection::Channels,
        "/cfg/channels.json",
        FileRead::Parsed(Err("expected value at line 1".to_string())),
        &existing,
    ) {
        LoadStep::Rollback(reason) => assert_eq!(reason, "file parse failed: expected value at line 1"),
        other => panic!("unexpected {:?}", other),
    }
}

#[test]
fn loading_invalid_value_goes_to_rollback() {
    let existing: Vec<String> = Vec::new();
    match load_step(
        ConfigSection::System,
        "/cfg/system.json",
        FileRead::Parsed(Ok(JsonValue::Null)),
        &existing,
    ) {
        LoadStep::Rollback(reason) => assert_eq!(
            reason,
            "business validation failed: system config must be a JSON object, got null"
        ),
        other => panic!("unexpected {:?}", other),
    }
}

#[test]
fn loading_valid_value_is_accepted() {
    let existing: Vec<String> = Vec::new();
    let v = obj(vec![("version", s("1.0"))]);
    match load_step(ConfigSection::Gateway, "/cfg/gateway.json", FileRead::Parsed(Ok(v.clone())), &existing) {
        LoadStep::Accept(got) => assert!(json_equal(&got, &v)),
        other => panic!("unexpected {:?}", other),
    }
}

#[test]
fn loading_rollback_outcomes() {
    match rollback_outcome("/cfg/models.json", false, None) {
        Err(ConfigLoadError::ParseError { path, error }) => {
            assert_eq!(path, "/cfg/models.json");
            assert_eq!(error, "no backup available");
        }
        other => panic!("unexpected {:?}", other),
    }
    match rollback_outcome("/cfg/models.json", true, None) {
        Err(ConfigLoadError::ParseError { error, .. }) => {
            assert_eq!(error, "rollback succeeded but file still unparseable")
        }
        other => panic!("unexpected {:?}", other),
    }
    let restored = obj(vec![("version", s("1.0"))]);
    assert!(json_equal(&rollback_outcome("/cfg/models.json", true, Some(restored.clone())).unwrap(), &restored));
}

#[test]
fn loading_write_rejection_and_mode() {
    let e = ConfigValidationError { path: "/cfg/models.json".to_string(), message: "bad".to_string() };
    match write_rejection(ConfigSection::Models, &e) {
        ConfigWriteError::ValidationFailed(section, message) => {
            assert_eq!(section, "models.json");
            assert_eq!(message, "bad");
        }
        other => panic!("unexpected {:?}", other),
    }
    assert_eq!(file_mode(ConfigSection::Credentials), Some(0o600));
    assert_eq!(file_mode(ConfigSection::Models), None);
}

#[test]
fn loading_listing_sections_and_versions() {
    let listed = listed_sections();
    assert_eq!(listed.len(), 7);
    assert!(listed.contains(&ConfigSection::Session));
    assert!(!listed.contains(&ConfigSection::Credentials));
    assert_eq!(config_version(Some(&obj(vec![("version", s("2.1"))]))), "2.1");
    assert_eq!(config_version(Some(&obj(vec![("version", JsonValue::Number(JsonNumber::PosInt(2)))]))), "");
    assert_eq!(config_version(Some(&obj(vec![]))), "");
    assert_eq!(config_version(None), "");
}

#[test]
fn loading_clear_section_value() {
    let mut m = ConfigManager::new("/cfg");
    m.load_section_value(ConfigSection::Models, obj(vec![("version", s("1.0"))]));
    assert!(m.get_section_value(ConfigSection::Models).is_some());
    m.clear_section_value(ConfigSection::Models);
    assert!(m.get_section_value(ConfigSection::Models).is_none());
}

#[test]
fn startup_sections_load_in_order_until_first_failure() {
    // Every section loads: all of them, in order.
    let seen = std::cell::RefCell::new(Vec::new());
    let done = load_startup_sections(|s| {
        seen.borrow_mut().push(s);
        if s == ConfigSection::Models {
            Ok(None)
        } else {
            Ok(Some(JsonValue::Bool(true)))
        }
    })
    .unwrap();
    assert_eq!(*seen.borrow(), startup_sections());
    assert_eq!(done.len(), 6);
    assert_eq!(done[0].0, ConfigSection::Models);
    assert!(done[0].1.is_none());
    assert_eq!(done[5].0, ConfigSection::Accounts);
    // The first failing section gives the error; later ones are not read.
    let seen = std::cell::RefCell::new(Vec::new());
    let err = load_startup_sections(|s| {
        seen.borrow_mut().push(s);
        match s {
            ConfigSection::Gateway => Err(ConfigLoadError::ConfigFileNotFound("gateway.json".to_string())),
            ConfigSection::Plugins => Err(ConfigLoadError::ConfigFileNotFound("plugins.json".to_string())),
            _ => Ok(None),
        }
    })
    .unwrap_err();
    assert_eq!(err.to_string(), "config file not found: gateway.json");
    assert_eq!(*seen.borrow(), vec![ConfigSection::Models, ConfigSection::Channels, ConfigSection::Gateway]);
}
