use closeclaw_config::memory_provider::MemoryConfigData;

#[test]
fn test_default_is_valid() {
    let data = MemoryConfigData::default();
    assert!(data.validate().is_ok());
}

#[test]
fn test_default_is_default() {
    let data = MemoryConfigData::default();
    assert!(data.is_default());
}

#[test]
fn memory_test_config_path() {
    assert_eq!(MemoryConfigData::config_path(), "memory.json");
}

#[test]
fn memory_tests_test_version_string() {
    let data = MemoryConfigData::default();
    assert_eq!(data.version(), "1.0.0");
}

#[test]
fn memory_tests_test_validate_always_succeeds() {
    let data = MemoryConfigData::default();
    assert!(data.validate().is_ok());
}

#[test]
fn test_is_default_all_disabled() {
    let data = MemoryConfigData::default();
    assert!(data.is_default());
}

#[test]
fn test_is_default_mining_enabled() {
    // {"mining": {"enabled": true}}
    let mut data = MemoryConfigData::default();
    data.config.mining.enabled = Some(true);
    assert!(!data.is_default());
}

#[test]
fn test_is_default_dreaming_enabled() {
    // {"dreaming": {"enabled": true}}
    let mut data = MemoryConfigData::default();
    data.config.dreaming.enabled = Some(true);
    assert!(!data.is_default());
}

#[test]
fn test_is_default_search_enabled() {
    // {"search": {"enabled": true}}
    let mut data = MemoryConfigData::default();
    data.config.search.enabled = Some(true);
    assert!(!data.is_default());
}

#[test]
fn memory_provider_explicitly_disabled_is_default() {
    let mut data = MemoryConfigData::default();
    data.config.mining.enabled = Some(false);
    data.config.dreaming.enabled = Some(false);
    data.config.search.enabled = Some(false);
    data.config.search.timeout_ms = Some(5000);
    assert!(data.is_default());
}
