use closeclaw_config::credentials::{
    AnyProviderCredentials, ApiKeyCredentials, CredentialsProvider, FeishuProfile,
};
use closeclaw_config::errors::ConfigError;
use closeclaw_config::media::{
    MediaConfigData, DEFAULT_IMAGE_CONTENT_THRESHOLD, DEFAULT_RETENTION_DAYS, DEFAULT_STORAGE_DIR,
};
use closeclaw_config::skills::{SkillsConfig, SkillsConfigData};

fn default_provider() -> CredentialsProvider {
    CredentialsProvider::default()
}

fn api_key(name: &str, key: &str) -> AnyProviderCredentials {
    AnyProviderCredentials::ApiKey(ApiKeyCredentials {
        provider: name.to_string(),
        api_key: key.to_string(),
    })
}

fn with(entries: Vec<(&str, AnyProviderCredentials)>) -> CredentialsProvider {
    let mut p = CredentialsProvider::default();
    for (name, c) in entries {
        p.insert(name.to_string(), c);
    }
    p
}

#[test]
fn credentials_test_default_config_is_valid() {
    let provider = default_provider();
    provider.validate().expect("default should be valid");
}

#[test]
fn credentials_test_default_config_is_default() {
    let provider = default_provider();
    assert!(provider.is_default());
}

#[test]
fn test_is_default_empty() {
    let provider = default_provider();
    assert!(provider.is_default());
}

#[test]
fn credentials_test_config_path() {
    assert_eq!(CredentialsProvider::config_path(), "credentials/");
}

#[test]
fn credentials_test_version() {
    let provider = default_provider();
    assert_eq!(provider.version(), "1.0.0");
}

#[test]
fn test_get_api_key() {
    let provider = with(vec![("p1", api_key("p1", "key1")), ("p2", api_key("p2", "key2"))]);
    assert_eq!(provider.get_api_key("p1").unwrap(), "key1");
    assert_eq!(provider.get_api_key("p2").unwrap(), "key2");
    assert!(provider.get_api_key("p3").is_none());
}

#[test]
fn test_feishu_profile() {
    let provider = with(vec![(
        "feishu",
        AnyProviderCredentials::Feishu(FeishuProfile {
            provider: "feishu".to_string(),
            profile: "my_profile".to_string(),
            bot_name: Some("Bot".to_string()),
        }),
    )]);
    let feishu = provider.feishu_profile().unwrap();
    assert_eq!(feishu.profile, "my_profile");
    assert_eq!(feishu.bot_name.as_deref(), Some("Bot"));
    assert!(provider.get_api_key("feishu").is_none());
}

#[test]
fn test_feishu_profile_none_when_missing() {
    let provider = with(vec![("openai", api_key("openai", "sk-test"))]);
    assert!(provider.feishu_profile().is_none());
}

#[test]
fn test_is_default_not_empty() {
    let provider = with(vec![("openai", api_key("openai", "sk-test"))]);
    assert!(!provider.is_default());
}

#[test]
fn test_insert_replaces_same_name() {
    let provider = with(vec![("openai", api_key("openai", "old")), ("openai", api_key("openai", "new"))]);
    assert_eq!(provider.providers.len(), 1);
    assert_eq!(provider.get_api_key("openai").unwrap(), "new");
    assert_eq!(api_key("x", "k").provider_name(), "x");
}

#[test]
fn test_validate_empty_api_key() {
    let provider = with(vec![("openai", api_key("openai", ""))]);
    match provider.validate() {
        Err(ConfigError::ValueError { field, message }) => {
            assert_eq!(field, "openai.api_key");
            assert_eq!(message, "api_key cannot be empty");
        }
        other => panic!("unexpected: {:?}", other),
    }
}

#[test]
fn test_validate_empty_profile() {
    let provider = with(vec![(
        "feishu",
        AnyProviderCredentials::Feishu(FeishuProfile {
            provider: "feishu".to_string(),
            profile: String::new(),
            bot_name: None,
        }),
    )]);
    match provider.validate() {
        Err(ConfigError::ValueError { field, message }) => {
            assert_eq!(field, "feishu.profile");
            assert_eq!(message, "profile cannot be empty");
        }
        other => panic!("unexpected: {:?}", other),
    }
}

#[test]
fn test_validate_model_references() {
    let provider = with(vec![("openai", api_key("openai", "sk"))]);
    let existing = vec!["creds/anthropic.json".to_string()];
    let ok = vec![
        ("openai".to_string(), None),
        ("anthropic".to_string(), Some("creds/anthropic.json".to_string())),
    ];
    assert!(provider.validate_model_references(&ok, &existing).is_ok());
    let missing = vec![
        ("openai".to_string(), None),
        ("mistral".to_string(), Some("creds/mistral.json".to_string())),
    ];
    match provider.validate_model_references(&missing, &existing) {
        Err(ConfigError::ValueError { field, message }) => {
            assert_eq!(field, "credentials.mistral");
            assert!(message.starts_with("provider 'mistral' is referenced in models.json"));
        }
        other => panic!("unexpected: {:?}", other),
    }
    let empty_path = vec![("deepseek".to_string(), Some(String::new()))];
    assert!(provider.validate_model_references(&empty_path, &vec![String::new()]).is_err());
}

#[test]
fn media_test_default_config_is_valid() {
    let config = MediaConfigData::default();
    config.validate().expect("default config should be valid");
}

#[test]
fn media_test_default_config_is_default() {
    let config = MediaConfigData::default();
    assert!(config.is_default());
}

#[test]
fn test_non_default_config() {
    let mut config = MediaConfigData::default();
    config.retention_days = 14;
    assert!(!config.is_default());
}

#[test]
fn test_validate_empty_storage_dir() {
    let mut config = MediaConfigData::default();
    config.storage_dir = String::new();
    let result = config.validate();
    assert!(result.is_err());
    match result.unwrap_err() {
        ConfigError::ValueError { field, .. } => assert_eq!(field, "storage_dir"),
        other => panic!("unexpected error: {:?}", other),
    }
}

#[test]
fn test_validate_whitespace_only_storage_dir() {
    let mut config = MediaConfigData::default();
    config.storage_dir = "   ".to_string();
    let result = config.validate();
    assert!(result.is_err());
    match result.unwrap_err() {
        ConfigError::ValueError { field, .. } => assert_eq!(field, "storage_dir"),
        other => panic!("unexpected error: {:?}", other),
    }
}

#[test]
fn test_retention_days_zero_is_valid() {
    let mut config = MediaConfigData::default();
    config.retention_days = 0;
    config.validate().expect("retention_days=0 should be valid");
}

#[test]
fn test_image_threshold_zero_is_valid() {
    let mut config = MediaConfigData::default();
    config.image_content_threshold_bytes = 0;
    config.validate().expect("threshold=0 should be valid");
}

#[test]
fn media_test_config_path() {
    assert_eq!(MediaConfigData::config_path(), "media.json");
}

#[test]
fn test_media_defaults_values() {
    let config = MediaConfigData::default();
    assert_eq!(config.storage_dir, DEFAULT_STORAGE_DIR);
    assert_eq!(config.storage_dir, "~/.closeclaw/media");
    assert_eq!(config.retention_days, DEFAULT_RETENTION_DAYS);
    assert_eq!(config.retention_days, 7);
    assert_eq!(config.image_content_threshold_bytes, DEFAULT_IMAGE_CONTENT_THRESHOLD);
    assert_eq!(config.image_content_threshold_bytes, 1_048_576);
    assert_eq!(config.version(), "1.0.0");
}

#[test]
fn test_default_extra_dirs_empty() {
    let data = SkillsConfigData::default();
    assert!(data.config.extra_dirs.is_empty());
}

#[test]
fn test_skills_config_default() {
    let cfg = SkillsConfig::default();
    assert!(cfg.extra_dirs.is_empty());
}

#[test]
fn skills_test_version_string() {
    let data = SkillsConfigData::default();
    assert_eq!(data.version(), "1.0.0");
}

#[test]
fn skills_test_validate_always_succeeds() {
    let data = SkillsConfigData::default();
    assert!(data.validate().is_ok());
}

#[test]
fn skills_test_config_path() {
    assert_eq!(SkillsConfigData::config_path(), "skills.json");
}

#[test]
fn test_is_default_empty_extra_dirs() {
    let data = SkillsConfigData::default();
    assert!(data.is_default());
}

#[test]
fn test_is_default_non_empty_extra_dirs() {
    let data = SkillsConfigData {
        config: SkillsConfig {
            extra_dirs: vec!["/opt/skills".to_string()],
        },
    };
    assert!(!data.is_default());
}

fn feishu(name: &str, profile: &str, bot: Option<&str>) -> AnyProviderCredentials {
    AnyProviderCredentials::Feishu(FeishuProfile {
        provider: name.to_string(),
        profile: profile.to_string(),
        bot_name: bot.map(|b| b.to_string()),
    })
}

/// The providers of a models configuration, without credential paths.
fn model_providers(ids: &[&str]) -> Vec<(String, Option<String>)> {
    ids.iter().map(|id| (id.to_string(), None)).collect()
}

#[test]
fn test_validate_feishu_empty_profile() {
    // {"providers":{"feishu": {"provider":"feishu","profile":""}}}
    let provider = with(vec![("feishu", feishu("feishu", "", None))]);
    let result = provider.validate();
    assert!(result.is_err());
    let err = result.unwrap_err();
    assert!(matches!(err, ConfigError::ValueError { ref field, .. } if field.contains("profile")));
}

#[test]
fn test_validate_valid_api_key() {
    let provider = with(vec![("openai", api_key("openai", "sk-valid"))]);
    provider.validate().expect("valid config should pass");
}

#[test]
fn test_validate_valid_feishu() {
    let provider = with(vec![("feishu", feishu("feishu", "my_profile", Some("Bot")))]);
    provider.validate().expect("valid feishu config should pass");
}

#[test]
fn test_validate_model_references_complete_match() {
    let creds = with(vec![
        ("openai", api_key("openai", "sk-test")),
        ("anthropic", api_key("anthropic", "sk-ant")),
    ]);
    let models = model_providers(&["openai", "anthropic"]);
    assert!(creds.validate_model_references(&models, &Vec::new()).is_ok());
}

#[test]
fn test_validate_model_references_missing_credential() {
    let creds = with(vec![("openai", api_key("openai", "sk-test"))]);
    let models = model_providers(&["openai", "anthropic"]);
    let result = creds.validate_model_references(&models, &Vec::new());
    assert!(result.is_err());
    let err = result.unwrap_err();
    assert!(
        matches!(err, ConfigError::ValueError { ref field, .. } if field.contains("anthropic")),
        "error should reference the missing provider: {:?}",
        err
    );
}

#[test]
fn test_validate_model_references_extra_credentials_only_warn() {
    let creds = with(vec![
        ("openai", api_key("openai", "sk-test")),
        ("backup", api_key("backup", "sk-backup")),
    ]);
    let models = model_providers(&["openai"]);
    assert!(creds.validate_model_references(&models, &Vec::new()).is_ok());
}

#[test]
fn test_validate_model_references_empty_models() {
    let creds = with(vec![("openai", api_key("openai", "sk-test"))]);
    assert!(creds.validate_model_references(&Vec::new(), &Vec::new()).is_ok());
}

#[test]
fn test_validate_model_references_empty_credentials_with_models() {
    let creds = CredentialsProvider::default();
    let models = model_providers(&["openai"]);
    assert!(creds.validate_model_references(&models, &Vec::new()).is_err());
}

#[test]
fn test_validate_model_references_empty_both() {
    let creds = CredentialsProvider::default();
    assert!(creds.validate_model_references(&Vec::new(), &Vec::new()).is_ok());
}

#[test]
fn test_validate_model_references_credential_path_valid() {
    // credentials/openai.json exists under the configuration directory.
    let creds = CredentialsProvider::default();
    let models = vec![("openai".to_string(), Some("credentials/openai.json".to_string()))];
    let existing = vec!["credentials/openai.json".to_string()];
    assert!(creds.validate_model_references(&models, &existing).is_ok());
}

#[test]
fn test_validate_model_references_credential_path_missing_file() {
    let creds = CredentialsProvider::default();
    let models = vec![("openai".to_string(), Some("credentials/openai.json".to_string()))];
    let result = creds.validate_model_references(&models, &Vec::new());
    assert!(result.is_err());
    let err = result.unwrap_err();
    assert!(
        matches!(err, ConfigError::ValueError { ref field, .. } if field.contains("openai")),
        "error should reference the missing provider: {:?}",
        err
    );
}

#[test]
fn test_validate_model_references_credential_path_empty() {
    let creds = CredentialsProvider::default();
    let models = vec![("openai".to_string(), Some(String::new()))];
    let existing = vec![String::new()];
    assert!(creds.validate_model_references(&models, &existing).is_err());
}

#[test]
fn validate_model_references_convention_file_covers_provider() {
    // config/credentials/openai.json exists; no credentials loaded, no credentialPath.
    let creds = CredentialsProvider::default();
    let models = model_providers(&["openai"]);
    let existing = vec!["credentials/openai.json".to_string()];
    assert!(creds.validate_model_references(&models, &existing).is_ok());
    // A conventional file of another provider does not count.
    let other = vec!["credentials/anthropic.json".to_string()];
    assert!(creds.validate_model_references(&models, &other).is_err());
}
