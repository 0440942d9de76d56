use closeclaw_config::credentials::{
    accept_credential_shape, first_invalid_credential, has_json_extension,
    invalid_credential_message, screen_credential_file, AnyProviderCredentials, ApiKeyCredentials,
    CredentialsProvider, FeishuProfile,
};
use closeclaw_config::errors::ConfigError;
use closeclaw_config::json::JsonValue;

fn obj(entries: Vec<(&str, JsonValue)>) -> JsonValue {
    JsonValue::Object(entries.into_iter().map(|(k, v)| (k.to_string(), v)).collect())
}

fn s(text: &str) -> JsonValue {
    JsonValue::String(text.to_string())
}

fn api_key(name: &str, key: &str) -> AnyProviderCredentials {
    AnyProviderCredentials::ApiKey(ApiKeyCredentials { provider: name.to_string(), api_key: key.to_string() })
}

#[test]
fn credential_file_extension() {
    assert!(has_json_extension("/cfg/credentials/openai.json"));
    assert!(has_json_extension("a.b.json"));
    assert!(!has_json_extension("/cfg/credentials/.json"));
    assert!(!has_json_extension("/cfg/credentials/openai.json.bak"));
    assert!(!has_json_extension("/cfg/credentials/README"));
    assert!(!has_json_extension("/cfg/credentials/x.JSON"));
}

#[test]
fn credential_file_screening() {
    let good = obj(vec![("provider", s("openai")), ("apiKey", s("sk-1"))]);
    assert!(matches!(screen_credential_file("/c/a.json", Ok(good.clone()), true), Ok(Some(_))));
    assert!(matches!(screen_credential_file("/c/a.json", Ok(good), false), Ok(Some(_))));

    // Not JSON: strict aborts, lenient skips.
    match screen_credential_file("/c/a.json", Err("EOF".to_string()), true) {
        Err(ConfigError::ParseError { path, error }) => {
            assert_eq!(path, "/c/a.json");
            assert_eq!(error, "EOF");
        }
        other => panic!("unexpected {:?}", other),
    }
    assert!(matches!(screen_credential_file("/c/a.json", Err("EOF".to_string()), false), Ok(None)));

    // Fails validation: strict aborts with the validator's message.
    let bad = obj(vec![("apiKey", s("sk-1"))]);
    match screen_credential_file("/c/b.json", Ok(bad.clone()), true) {
        Err(ConfigError::ValidationError { path, message }) => {
            assert_eq!(path, "/c/b.json");
            assert_eq!(message, "credentials.provider is required");
        }
        other => panic!("unexpected {:?}", other),
    }
    assert!(matches!(screen_credential_file("/c/b.json", Ok(bad), false), Ok(None)));
}

#[test]
fn credential_shape_acceptance() {
    match accept_credential_shape("/c/a.json", Some(api_key("openai", "sk")), true) {
        Ok(Some((name, c))) => {
            assert_eq!(name, "openai");
            assert_eq!(c, api_key("openai", "sk"));
        }
        other => panic!("unexpected {:?}", other),
    }
    let feishu = AnyProviderCredentials::Feishu(FeishuProfile {
        provider: "feishu".to_string(),
        profile: "default".to_string(),
        bot_name: None,
    });
    assert_eq!(accept_credential_shape("/c/f.json", Some(feishu), false).unwrap().unwrap().0, "feishu");
    match accept_credential_shape("/c/x.json", None, true) {
        Err(ConfigError::ParseError { path, error }) => {
            assert_eq!(path, "/c/x.json");
            assert_eq!(error, "credential file does not match any known credential shape");
        }
        other => panic!("unexpected {:?}", other),
    }
    assert!(matches!(accept_credential_shape("/c/x.json", None, false), Ok(None)));
}

#[test]
fn credential_first_invalid() {
    let values = vec![
        ("openai".to_string(), obj(vec![("provider", s("openai")), ("apiKey", s("sk"))])),
        ("broken".to_string(), obj(vec![("provider", s("broken")), ("apiKey", s(""))])),
        ("worse".to_string(), JsonValue::Null),
    ];
    assert_eq!(
        first_invalid_credential(&values),
        Some(("broken".to_string(), "credentials.apiKey cannot be empty".to_string()))
    );
    assert_eq!(first_invalid_credential(&values[..1].to_vec()), None);
    assert_eq!(
        invalid_credential_message("broken", "credentials.apiKey cannot be empty"),
        "credential 'broken' failed validation: credentials.apiKey cannot be empty"
    );
}

#[test]
fn credential_merge_prefers_explicit_reference() {
    let mut base = CredentialsProvider::default();
    base.insert("openai".to_string(), api_key("openai", "sk-dir"));
    base.insert("anthropic".to_string(), api_key("anthropic", "sk-ant"));
    let mut extra = CredentialsProvider::default();
    extra.insert("openai".to_string(), api_key("openai", "sk-ref"));
    extra.insert("deepseek".to_string(), api_key("deepseek", "sk-ds"));
    base.merge_from(extra);
    assert_eq!(base.get_api_key("openai").as_deref(), Some("sk-ref"));
    assert_eq!(base.get_api_key("anthropic").as_deref(), Some("sk-ant"));
    assert_eq!(base.get_api_key("deepseek").as_deref(), Some("sk-ds"));
    assert_eq!(base.providers.len(), 3);
}
