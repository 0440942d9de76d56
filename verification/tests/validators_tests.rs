use closeclaw_config::json::{JsonNumber, JsonValue};
use closeclaw_config::memory_provider::MemoryConfigData;
use closeclaw_config::section::ConfigSection;
use closeclaw_config::validate_memory::validate_memory;
use closeclaw_config::validators::{
    referenced_paths, validate_channels, validate_credentials, validate_gateway, validate_models, validate_plugins, validate_system_given,
    validate_section, validate_session, validate_system, validate_tools,
};

fn to_json(v: serde_json::Value) -> JsonValue {
    match v {
        serde_json::Value::Null => JsonValue::Null,
        serde_json::Value::Bool(b) => JsonValue::Bool(b),
        serde_json::Value::Number(n) => {
            if let Some(u) = n.as_u64() {
                JsonValue::Number(JsonNumber::PosInt(u))
            } else if let Some(i) = n.as_i64() {
                JsonValue::Number(JsonNumber::NegInt(i))
            } else {
                JsonValue::Number(JsonNumber::Float(n.as_f64().unwrap_or(0.0).to_bits()))
            }
        }
        serde_json::Value::String(s) => JsonValue::String(s),
        serde_json::Value::Array(xs) => JsonValue::Array(xs.into_iter().map(to_json).collect()),
        serde_json::Value::Object(m) => {
            JsonValue::Object(m.into_iter().map(|(k, v)| (k, to_json(v))).collect())
        }
    }
}

fn parse(text: &str) -> JsonValue {
    to_json(serde_json::from_str(text).unwrap())
}

#[test]
fn test_validate_memory_pass_empty_object() {
    let v = parse(r#"{}"#);
    assert!(validate_memory(&v).is_ok());
}

#[test]
fn test_validate_memory_fail_not_object() {
    for json in [r#"[1]"#, r#""string""#, r#"null"#, r#"42"#] {
        let v = parse(json);
        let err = validate_memory(&v).unwrap_err();
        assert!(err.contains("JSON object"), "json={}: error: {}", json, err);
    }
}

// ── enabled must be boolean ──────────────────────────────────────────────

#[test]
fn test_validate_memory_mining_enabled_string_rejected() {
    let v = parse(r#"{"mining":{"enabled":"yes"}}"#);
    let err = validate_memory(&v).unwrap_err();
    assert!(
        err.contains("memory.mining.enabled must be a boolean"),
        "error: {}",
        err
    );
}

#[test]
fn test_validate_memory_dreaming_enabled_number_rejected() {
    let v = parse(r#"{"dreaming":{"enabled":1}}"#);
    let err = validate_memory(&v).unwrap_err();
    assert!(
        err.contains("memory.dreaming.enabled must be a boolean"),
        "error: {}",
        err
    );
}

#[test]
fn test_validate_memory_search_enabled_null_rejected() {
    let v = parse(r#"{"search":{"enabled":null}}"#);
    let err = validate_memory(&v).unwrap_err();
    assert!(
        err.contains("memory.search.enabled must be a boolean"),
        "error: {}",
        err
    );
}

#[test]
fn test_validate_memory_enabled_boolean_passes() {
    for json in [
        r#"{"mining":{"enabled":true}}"#,
        r#"{"dreaming":{"enabled":false}}"#,
        r#"{"search":{"enabled":true}}"#,
    ] {
        let v = parse(json);
        assert!(validate_memory(&v).is_ok(), "json={}", json);
    }
}

// ── Numeric params must be non-negative ──────────────────────────────────

#[test]
fn test_validate_memory_mining_negative_events_rejected() {
    let v = parse(r#"{"mining":{"maxEventsPerSession":-1}}"#);
    let err = validate_memory(&v).unwrap_err();
    assert!(
        err.contains("memory.mining.maxEventsPerSession must be non-negative"),
        "error: {}",
        err
    );
}

#[test]
fn test_validate_memory_mining_negative_dedup_rejected() {
    let v = parse(r#"{"mining":{"dedupWindowDays":-5}}"#);
    let err = validate_memory(&v).unwrap_err();
    assert!(
        err.contains("memory.mining.dedupWindowDays must be non-negative"),
        "error: {}",
        err
    );
}

#[test]
fn test_validate_memory_mining_not_number_rejected() {
    let v = parse(r#"{"mining":{"maxEventsPerSession":"abc"}}"#);
    let err = validate_memory(&v).unwrap_err();
    assert!(
        err.contains("memory.mining.maxEventsPerSession must be a number"),
        "error: {}",
        err
    );
}

#[test]
fn test_validate_memory_dreaming_negative_threshold_rejected() {
    let v = parse(r#"{"dreaming":{"threshold":{"absolute":-1.0}}}"#);
    let err = validate_memory(&v).unwrap_err();
    assert!(
        err.contains("memory.dreaming.threshold.absolute must be non-negative"),
        "error: {}",
        err
    );
}

#[test]
fn test_validate_memory_dreaming_negative_max_rules_rejected() {
    let v = parse(r#"{"dreaming":{"capacity":{"maxRules":-10}}}"#);
    let err = validate_memory(&v).unwrap_err();
    assert!(
        err.contains("memory.dreaming.capacity.maxRules must be non-negative"),
        "error: {}",
        err
    );
}

#[test]
fn test_validate_memory_search_negative_timeout_rejected() {
    let v = parse(r#"{"search":{"timeoutMs":-1}}"#);
    let err = validate_memory(&v).unwrap_err();
    assert!(
        err.contains("memory.search.timeoutMs must be non-negative"),
        "error: {}",
        err
    );
}

#[test]
fn test_validate_memory_search_not_number_rejected() {
    let v = parse(r#"{"search":{"contextTurns":"abc"}}"#);
    let err = validate_memory(&v).unwrap_err();
    assert!(
        err.contains("memory.search.contextTurns must be a number"),
        "error: {}",
        err
    );
}

#[test]
fn test_validate_memory_forgetting_negative_rejected() {
    let v = parse(r#"{"forgetting":{"initialTtlDays":-1}}"#);
    let err = validate_memory(&v).unwrap_err();
    assert!(
        err.contains("memory.forgetting.initialTtlDays must be non-negative"),
        "error: {}",
        err
    );
}

// ── Zero values are valid (non-negative includes zero) ───────────────────

#[test]
fn test_validate_memory_zero_values_pass() {
    let json = r#"{
        "mining": {"maxEventsPerSession": 0, "dedupWindowDays": 0},
        "search": {"timeoutMs": 0, "contextTurns": 0, "maxSummaryChars": 0, "minEntityHits": 0, "topKEvents": 0},
        "forgetting": {"initialTtlDays": 0, "reidentifyExtensionDays": 0, "injectionExtensionDays": 0}
    }"#;
    let v = parse(json);
    assert!(validate_memory(&v).is_ok());
}

// ── Model/path fields ────────────────────────────────────────────────────

#[test]
fn test_validate_memory_model_empty_string_rejected() {
    let v = parse(r#"{"mining":{"model":""}}"#);
    let err = validate_memory(&v).unwrap_err();
    assert!(
        err.contains("memory.mining.model cannot be empty"),
        "error: {}",
        err
    );
}

#[test]
fn test_validate_memory_model_not_string_rejected() {
    let v = parse(r#"{"mining":{"model":123}}"#);
    let err = validate_memory(&v).unwrap_err();
    assert!(
        err.contains("memory.mining.model must be a string"),
        "error: {}",
        err
    );
}

#[test]
fn test_validate_memory_model_null_passes() {
    let v = parse(r#"{"mining":{"model":null}}"#);
    assert!(validate_memory(&v).is_ok());
}

#[test]
fn test_validate_memory_model_valid_string_passes() {
    let v = parse(r#"{"mining":{"model":"gpt-4o"}}"#);
    assert!(validate_memory(&v).is_ok());
}

// ── Storage paths ────────────────────────────────────────────────────────

#[test]
fn test_validate_memory_storage_not_object_rejected() {
    let v = parse(r#"{"storage":"bad"}"#);
    let err = validate_memory(&v).unwrap_err();
    assert!(
        err.contains("memory.storage must be a JSON object"),
        "error: {}",
        err
    );
}

#[test]
fn test_validate_memory_storage_empty_path_rejected() {
    let v = parse(r#"{"storage":{"dbPath":""}}"#);
    let err = validate_memory(&v).unwrap_err();
    assert!(
        err.contains("memory.storage.dbPath cannot be empty"),
        "error: {}",
        err
    );
}

#[test]
fn test_validate_memory_storage_valid_path_passes() {
    let v = parse(
        r#"{"storage":{"dbPath":"custom/memory.db","memoryMdPath":"custom/MEMORY.md"}}"#,
    );
    assert!(validate_memory(&v).is_ok());
}

// ── Subsystem not-object rejection ───────────────────────────────────────

#[test]
fn test_validate_memory_mining_not_object_rejected() {
    let v = parse(r#"{"mining":"bad"}"#);
    let err = validate_memory(&v).unwrap_err();
    assert!(
        err.contains("memory.mining must be a JSON object"),
        "error: {}",
        err
    );
}

#[test]
fn test_validate_memory_dreaming_not_object_rejected() {
    let v = parse(r#"{"dreaming":[1,2,3]}"#);
    let err = validate_memory(&v).unwrap_err();
    assert!(
        err.contains("memory.dreaming must be a JSON object"),
        "error: {}",
        err
    );
}

#[test]
fn test_validate_memory_search_not_object_rejected() {
    let v = parse(r#"{"search":true}"#);
    let err = validate_memory(&v).unwrap_err();
    assert!(
        err.contains("memory.search must be a JSON object"),
        "error: {}",
        err
    );
}

#[test]
fn test_validate_memory_forgetting_not_object_rejected() {
    let v = parse(r#"{"forgetting":"bad"}"#);
    let err = validate_memory(&v).unwrap_err();
    assert!(
        err.contains("memory.forgetting must be a JSON object"),
        "error: {}",
        err
    );
}

// ── Dreaming sub-objects ─────────────────────────────────────────────────

#[test]
fn test_validate_memory_dreaming_scoring_not_object_rejected() {
    let v = parse(r#"{"dreaming":{"scoring":"bad"}}"#);
    let err = validate_memory(&v).unwrap_err();
    assert!(
        err.contains("memory.dreaming.scoring must be a JSON object"),
        "error: {}",
        err
    );
}

#[test]
fn test_validate_memory_dreaming_threshold_not_object_rejected() {
    let v = parse(r#"{"dreaming":{"threshold":42}}"#);
    let err = validate_memory(&v).unwrap_err();
    assert!(
        err.contains("memory.dreaming.threshold must be a JSON object"),
        "error: {}",
        err
    );
}

#[test]
fn test_validate_memory_dreaming_capacity_not_object_rejected() {
    let v = parse(r#"{"dreaming":{"capacity":"bad"}}"#);
    let err = validate_memory(&v).unwrap_err();
    assert!(
        err.contains("memory.dreaming.capacity must be a JSON object"),
        "error: {}",
        err
    );
}

#[test]
fn test_validate_memory_dreaming_diary_not_object_rejected() {
    let v = parse(r#"{"dreaming":{"diary":42}}"#);
    let err = validate_memory(&v).unwrap_err();
    assert!(
        err.contains("memory.dreaming.diary must be a JSON object"),
        "error: {}",
        err
    );
}

#[test]
fn test_validate_memory_dreaming_scoring_not_number_rejected() {
    let v = parse(r#"{"dreaming":{"scoring":{"frequencyWeight":"abc"}}}"#);
    let err = validate_memory(&v).unwrap_err();
    assert!(
        err.contains("memory.dreaming.scoring.frequencyWeight must be a number"),
        "error: {}",
        err
    );
}

// ── Dreaming negative_signal_weight is allowed (negative) ────────────────

#[test]
fn test_validate_memory_dreaming_negative_signal_weight_allowed() {
    let v = parse(r#"{"dreaming":{"scoring":{"negativeSignalWeight":-0.5}}}"#);
    assert!(validate_memory(&v).is_ok());
}

// ── Full valid memory.json passes ────────────────────────────────────────

#[test]
fn test_validate_memory_full_valid_config() {
    let json = r#"{
        "storage": {
            "dbPath": "memory/memory.db",
            "memoryMdPath": "memory/MEMORY.md"
        },
        "mining": {
            "enabled": true,
            "model": "gpt-4o",
            "maxEventsPerSession": 20,
            "dedupWindowDays": 14,
            "transcriptCleanRules": {
                "minTurns": 3,
                "minOwnerMsgs": 2,
                "format": "json"
            }
        },
        "dreaming": {
            "enabled": true,
            "model": "dream-model",
            "schedule": "0 4 * * *",
            "scoring": {
                "frequencyWeight": 2.0,
                "recencyWeight": 1.0,
                "explicitnessWeight": 3.0,
                "crossAgentWeight": 2.5,
                "negativeSignalWeight": -1.0
            },
            "threshold": {
                "absolute": 3.5,
                "relative": 0.6
            },
            "capacity": {
                "maxRules": 50
            },
            "diary": {
                "enabled": true,
                "path": "custom/diary/"
            }
        },
        "search": {
            "enabled": true,
            "model": "search-model",
            "contextTurns": 10,
            "timeoutMs": 8000,
            "maxSummaryChars": 1000,
            "minEntityHits": 3,
            "topKEvents": 7
        },
        "forgetting": {
            "initialTtlDays": 90,
            "reidentifyExtensionDays": 90,
            "injectionExtensionDays": 7
        }
    }"#;
    let v = parse(json);
    assert!(validate_memory(&v).is_ok());
}

// ── Empty memory.json (only defaults) passes ─────────────────────────────

#[test]
fn test_validate_memory_empty_json_passes() {
    let v = parse(r#"{}"#);
    assert!(validate_memory(&v).is_ok());
}

// ── Partial config with valid values passes ──────────────────────────────

#[test]
fn test_validate_memory_partial_config_passes() {
    let json = r#"{
        "mining": {"enabled": true},
        "search": {"timeoutMs": 5000}
    }"#;
    let v = parse(json);
    assert!(validate_memory(&v).is_ok());
}

// ── transcriptCleanRules validation ──────────────────────────────────────

#[test]
fn test_validate_memory_mining_transcript_rules_not_object_rejected() {
    let v = parse(r#"{"mining":{"transcriptCleanRules":"bad"}}"#);
    let err = validate_memory(&v).unwrap_err();
    assert!(
        err.contains("memory.mining.transcriptCleanRules must be a JSON object"),
        "error: {}",
        err
    );
}

#[test]
fn test_validate_memory_mining_transcript_rules_negative_rejected() {
    let v = parse(r#"{"mining":{"transcriptCleanRules":{"minTurns":-1}}}"#);
    let err = validate_memory(&v).unwrap_err();
    assert!(
        err.contains("memory.mining.transcriptCleanRules.minTurns must be non-negative"),
        "error: {}",
        err
    );
}

// ── Forgetting not-number rejection ──────────────────────────────────────

#[test]
fn test_validate_memory_forgetting_not_number_rejected() {
    let v = parse(r#"{"forgetting":{"initialTtlDays":"abc"}}"#);
    let err = validate_memory(&v).unwrap_err();
    assert!(
        err.contains("memory.forgetting.initialTtlDays must be a number"),
        "error: {}",
        err
    );
}

// ── ConfigProvider validate() integration ────────────────────────────────

#[test]
fn test_memory_config_provider_validate_with_valid_config() {
    // {"mining":{"enabled":true}}
    let mut data = MemoryConfigData::default();
    data.config.mining.enabled = Some(true);
    assert!(data.validate().is_ok());
}

#[test]
fn test_memory_config_provider_validate_empty_passes() {
    // {}
    let data = MemoryConfigData::default();
    assert!(data.validate().is_ok());
}

#[test]
fn test_validate_tools_valid() {
    let v = parse(r#"{"read":{"max_tokens":10000}}"#);
    assert!(validate_tools(&v).is_ok());
}

#[test]
fn test_validate_tools_empty_object() {
    let v = parse(r#"{}"#);
    assert!(validate_tools(&v).is_ok());
}

#[test]
fn test_validate_tools_not_object() {
    let v = parse(r#"[1]"#);
    assert!(validate_tools(&v).is_err());
}

#[test]
fn test_validate_tools_max_tokens_zero() {
    let v = parse(r#"{"read":{"max_tokens":0}}"#);
    let err = validate_tools(&v).unwrap_err();
    assert!(err.contains("must be a positive integer"), "error: {}", err);
}

#[test]
fn test_validate_tools_max_tokens_negative() {
    let v = parse(r#"{"read":{"max_tokens":-1}}"#);
    let err = validate_tools(&v).unwrap_err();
    assert!(err.contains("must be a positive integer"), "error: {}", err);
}

#[test]
fn test_validate_tools_max_tokens_string() {
    let v = parse(r#"{"read":{"max_tokens":"abc"}}"#);
    let err = validate_tools(&v).unwrap_err();
    assert!(err.contains("must be a number"), "error: {}", err);
}

#[test]
fn test_validate_tools_max_tokens_null() {
    let v = parse(r#"{"read":{"max_tokens":null}}"#);
    let err = validate_tools(&v).unwrap_err();
    assert!(err.contains("must be a number"), "error: {}", err);
}


#[test]
fn test_for_section_accounts_returns_validator() {
    let validator = |v: &JsonValue| validate_section(ConfigSection::Accounts, v, &Vec::new());
    let valid = parse(
        r#"{"accounts":[{"platform":"feishu","senderId":"ou_a","accountId":"a1"}]}"#,
    );
    assert!(validator(&valid).is_ok());
}

#[test]
fn test_for_section_accounts_rejects_non_object() {
    let validator = |v: &JsonValue| validate_section(ConfigSection::Accounts, v, &Vec::new());
    let invalid = parse(r#"[1]"#);
    assert!(validator(&invalid).is_err());
}

#[test]
fn test_accounts_validator_pass_empty_accounts_array() {
    let validator = |v: &JsonValue| validate_section(ConfigSection::Accounts, v, &Vec::new());
    let v = parse(r#"{"accounts":[]}"#);
    assert!(validator(&v).is_ok());
}

#[test]
fn test_accounts_validator_pass_no_accounts_key() {
    let validator = |v: &JsonValue| validate_section(ConfigSection::Accounts, v, &Vec::new());
    let v = parse(r#"{}"#);
    assert!(validator(&v).is_ok());
}

#[test]
fn test_accounts_validator_fail_empty_account_id() {
    let validator = |v: &JsonValue| validate_section(ConfigSection::Accounts, v, &Vec::new());
    let v = parse(
        r#"{"accounts":[{"platform":"feishu","senderId":"ou_a","accountId":""}]}"#,
    );
    let err = validator(&v).unwrap_err();
    assert!(err.contains("accountId cannot be empty"), "error: {}", err);
}

#[test]
fn test_accounts_validator_fail_empty_sender_id() {
    let validator = |v: &JsonValue| validate_section(ConfigSection::Accounts, v, &Vec::new());
    let v = parse(
        r#"{"accounts":[{"platform":"feishu","senderId":"","accountId":"a1"}]}"#,
    );
    let err = validator(&v).unwrap_err();
    assert!(err.contains("senderId cannot be empty"), "error: {}", err);
}

#[test]
fn test_accounts_validator_fail_duplicate_account_id() {
    let validator = |v: &JsonValue| validate_section(ConfigSection::Accounts, v, &Vec::new());
    let v = parse(
        r#"
            {"accounts":[
                {"platform":"feishu","senderId":"ou_a","accountId":"a1"},
                {"platform":"discord","senderId":"d_1","accountId":"a1"}
            ]}
        "#,
    );
    let err = validator(&v).unwrap_err();
    assert!(err.contains("duplicate accountId"), "error: {}", err);
}

#[test]
fn test_accounts_validator_fail_unknown_platform() {
    let validator = |v: &JsonValue| validate_section(ConfigSection::Accounts, v, &Vec::new());
    let v = parse(
        r#"{"accounts":[{"platform":"unknown_platform","senderId":"ou_a","accountId":"a1"}]}"#,
    );
    let err = validator(&v).unwrap_err();
    assert!(err.contains("not a known channel type"), "error: {}", err);
}

#[test]
fn test_accounts_validator_pass_valid_platforms() {
    let validator = |v: &JsonValue| validate_section(ConfigSection::Accounts, v, &Vec::new());
    let v = parse(
        r#"{"accounts":[
            {"platform":"feishu","senderId":"ou_a","accountId":"a1"},
            {"platform":"discord","senderId":"d_1","accountId":"a2"},
            {"platform":"telegram","senderId":"t_1","accountId":"a3"},
            {"platform":"slack","senderId":"s_1","accountId":"a4"},
            {"platform":"whatsapp","senderId":"w_1","accountId":"a5"},
            {"platform":"signal","senderId":"sig_1","accountId":"a6"},
            {"platform":"matrix","senderId":"m_1","accountId":"a7"},
            {"platform":"msteams","senderId":"ms_1","accountId":"a8"},
            {"platform":"mattermost","senderId":"mm_1","accountId":"a9"},
            {"platform":"nostr","senderId":"n_1","accountId":"a10"}
        ]}"#,
    );
    assert!(validator(&v).is_ok());
}

#[test]
fn test_default_validator_accounts_passes() {
    let v = parse(
        r#"{"accounts":[{"platform":"feishu","senderId":"ou_a","accountId":"a1"}]}"#,
    );
    let validator = |v: &JsonValue| validate_section(ConfigSection::Accounts, v, &Vec::new());
    assert!(validator(&v).is_ok());
}

#[test]
fn test_default_validator_accounts_rejects_non_object() {
    let v = parse(r#"[1]"#);
    let validator = |v: &JsonValue| validate_section(ConfigSection::Accounts, v, &Vec::new());
    assert!(validator(&v).is_err());
}


#[test]
fn test_accounts_validator_pass_with_valid_bindings() {
    let validator = |v: &JsonValue| validate_section(ConfigSection::Accounts, v, &Vec::new());
    let v = parse(
        r#"{
            "accounts":[{"platform":"feishu","senderId":"ou_a","accountId":"a1"}],
            "bindings":[{"bot_app_id":"app1","agent_id":"eda"}]
        }"#,
    );
    assert!(validator(&v).is_ok());
}

#[test]
fn test_accounts_validator_pass_multiple_unique_bindings() {
    let validator = |v: &JsonValue| validate_section(ConfigSection::Accounts, v, &Vec::new());
    let v = parse(
        r#"{
            "accounts":[],
            "bindings":[
                {"bot_app_id":"app1","agent_id":"eda"},
                {"bot_app_id":"app2","agent_id":"ghost"}
            ]
        }"#,
    );
    assert!(validator(&v).is_ok());
}

#[test]
fn test_accounts_validator_fail_empty_bot_app_id_in_binding() {
    let validator = |v: &JsonValue| validate_section(ConfigSection::Accounts, v, &Vec::new());
    let v = parse(
        r#"{
            "accounts":[],
            "bindings":[{"bot_app_id":"","agent_id":"eda"}]
        }"#,
    );
    let err = validator(&v).unwrap_err();
    assert!(err.contains("bot_app_id cannot be empty"), "error: {}", err);
}

#[test]
fn test_accounts_validator_fail_empty_agent_id_in_binding() {
    let validator = |v: &JsonValue| validate_section(ConfigSection::Accounts, v, &Vec::new());
    let v = parse(
        r#"{
            "accounts":[],
            "bindings":[{"bot_app_id":"app1","agent_id":""}]
        }"#,
    );
    let err = validator(&v).unwrap_err();
    assert!(err.contains("agent_id cannot be empty"), "error: {}", err);
}

#[test]
fn test_accounts_validator_fail_duplicate_bot_app_id() {
    let validator = |v: &JsonValue| validate_section(ConfigSection::Accounts, v, &Vec::new());
    let v = parse(
        r#"{
            "accounts":[],
            "bindings":[
                {"bot_app_id":"app1","agent_id":"eda"},
                {"bot_app_id":"app1","agent_id":"ghost"}
            ]
        }"#,
    );
    let err = validator(&v).unwrap_err();
    assert!(
        err.contains("bot_app_id 'app1' is not unique"),
        "error: {}",
        err
    );
}

#[test]
fn test_accounts_validator_fail_bindings_not_array() {
    let validator = |v: &JsonValue| validate_section(ConfigSection::Accounts, v, &Vec::new());
    let v = parse(r#"{"accounts":[],"bindings":"invalid"}"#);
    let err = validator(&v).unwrap_err();
    assert!(err.contains("must be a JSON array"), "error: {}", err);
}


#[test]
fn test_accounts_validator_pass_with_bindings() {
    let validator = |v: &JsonValue| validate_section(ConfigSection::Accounts, v, &Vec::new());
    let v = parse(
        r#"{
            "accounts":[{"platform":"feishu","senderId":"ou_a","accountId":"a1"}],
            "bindings":[{"bot_app_id":"app1","agent_id":"eda"}]
        }"#,
    );
    assert!(validator(&v).is_ok());
}

#[test]
fn test_accounts_validator_pass_empty_bindings() {
    let validator = |v: &JsonValue| validate_section(ConfigSection::Accounts, v, &Vec::new());
    let v = parse(r#"{"accounts":[],"bindings":[]}"#);
    assert!(validator(&v).is_ok());
}


#[test]
fn test_accounts_validator_fail_duplicate_binding() {
    let validator = |v: &JsonValue| validate_section(ConfigSection::Accounts, v, &Vec::new());
    let v = parse(
        r#"{"accounts":[
            {"platform":"feishu","senderId":"ou_a","accountId":"a1"},
            {"platform":"feishu","senderId":"ou_a","accountId":"a2"}
        ]}"#,
    );
    let err = validator(&v).unwrap_err();
    assert!(err.contains("duplicate binding"), "error: {}", err);
}

#[test]
fn test_accounts_validator_pass_different_bot_app_id_same_sender() {
    let validator = |v: &JsonValue| validate_section(ConfigSection::Accounts, v, &Vec::new());
    let v = parse(
        r#"{"accounts":[
            {"platform":"feishu","botAppId":"app1","senderId":"ou_a","accountId":"a1"},
            {"platform":"feishu","botAppId":"app2","senderId":"ou_a","accountId":"a2"}
        ]}"#,
    );
    assert!(validator(&v).is_ok());
}

#[test]
fn test_accounts_validator_fail_duplicate_with_bot_app_id() {
    let validator = |v: &JsonValue| validate_section(ConfigSection::Accounts, v, &Vec::new());
    let v = parse(
        r#"{"accounts":[
            {"platform":"feishu","botAppId":"app1","senderId":"ou_a","accountId":"a1"},
            {"platform":"feishu","botAppId":"app1","senderId":"ou_a","accountId":"a2"}
        ]}"#,
    );
    let err = validator(&v).unwrap_err();
    assert!(err.contains("duplicate binding"), "error: {}", err);
}

#[test]
fn test_validate_system_empty_version_returns_error() {
    let v = parse(r#"{"version":""}"#);
    let err = validate_section(ConfigSection::System, &v, &Vec::new()).unwrap_err();
    assert!(
        err.contains("version cannot be an empty string"),
        "error: {}",
        err
    );
}

#[test]
fn test_validate_system_version_number_returns_error() {
    let v = parse(r#"{"version":123}"#);
    let err = validate_section(ConfigSection::System, &v, &Vec::new()).unwrap_err();
    assert!(err.contains("version must be a string"), "error: {}", err);
}

#[test]
fn test_validate_system_valid_version_passes() {
    let v = parse(r#"{"version":"1.0.0"}"#);
    assert!(validate_section(ConfigSection::System, &v, &Vec::new()).is_ok());
}

#[test]
fn test_validate_credentials_empty_provider_returns_error() {
    let v = parse(r#"{"provider":"","apiKey":"sk-test"}"#);
    let err = validate_credentials(&v).unwrap_err();
    assert!(
        err.contains("credentials.provider cannot be empty"),
        "error: {}",
        err
    );
}

#[test]
fn test_validate_credentials_missing_provider_returns_error() {
    let v = parse(r#"{"apiKey":"sk-test"}"#);
    let err = validate_credentials(&v).unwrap_err();
    assert!(
        err.contains("credentials.provider is required"),
        "error: {}",
        err
    );
}

#[test]
fn test_validate_credentials_empty_api_key_returns_error() {
    let v = parse(r#"{"provider":"openai","apiKey":""}"#);
    let err = validate_credentials(&v).unwrap_err();
    assert!(
        err.contains("credentials.apiKey cannot be empty"),
        "error: {}",
        err
    );
}

#[test]
fn test_validate_credentials_valid_api_key_passes() {
    let v = parse(r#"{"provider":"openai","apiKey":"sk-test123"}"#);
    assert!(validate_credentials(&v).is_ok());
}

#[test]
fn test_validate_credentials_valid_feishu_passes() {
    let v = parse(r#"{"provider":"feishu","appId":"cli_abc","appSecret":"secret"}"#);
    assert!(validate_credentials(&v).is_ok());
}

#[test]
fn test_validate_credentials_empty_app_id_returns_error() {
    let v = parse(r#"{"provider":"feishu","appId":"","appSecret":"secret"}"#);
    let err = validate_credentials(&v).unwrap_err();
    assert!(
        err.contains("credentials.appId cannot be empty"),
        "error: {}",
        err
    );
}

#[test]
fn test_validate_credentials_empty_app_secret_returns_error() {
    let v = parse(r#"{"provider":"feishu","appId":"cli_abc","appSecret":""}"#);
    let err = validate_credentials(&v).unwrap_err();
    assert!(
        err.contains("credentials.appSecret cannot be empty"),
        "error: {}",
        err
    );
}

#[test]
fn test_validate_credentials_not_object_returns_error() {
    let v = parse(r#"null"#);
    let err = validate_credentials(&v).unwrap_err();
    assert!(err.contains("JSON object"), "error: {}", err);
}

#[test]
fn test_validate_credentials_null_api_key_passes() {
    let v = parse(r#"{"provider":"openai","apiKey":null}"#);
    assert!(validate_credentials(&v).is_ok());
}

#[test]
fn test_validate_credentials_missing_api_key_passes() {
    let v = parse(r#"{"provider":"openai"}"#);
    assert!(validate_credentials(&v).is_ok());
}


#[test]
fn test_validate_skills_empty_path_returns_error() {
    let v = parse(r#"{"extraDirs":[""]}"#);
    let err = validate_section(ConfigSection::Skills, &v, &Vec::new()).unwrap_err();
    assert!(err.contains("cannot be an empty path"), "error: {}", err);
}

#[test]
fn test_validate_skills_null_byte_returns_error() {
    let v = parse(r#"{"extraDirs":["/some/path\u0000/here"]}"#);
    let err = validate_section(ConfigSection::Skills, &v, &Vec::new()).unwrap_err();
    assert!(err.contains("contains a null byte"), "error: {}", err);
}

#[test]
fn test_validate_skills_valid_path_passes() {
    let v = parse(r#"{"extraDirs":["/home/user/skills","./relative"]}"#);
    assert!(validate_section(ConfigSection::Skills, &v, &Vec::new()).is_ok());
}

#[test]
fn test_validate_skills_absent_extra_dirs_passes() {
    let v = parse(r#"{}"#);
    assert!(validate_section(ConfigSection::Skills, &v, &Vec::new()).is_ok());
}

#[test]
fn test_validate_skills_empty_extra_dirs_array_passes() {
    let v = parse(r#"{"extraDirs":[]}"#);
    assert!(validate_section(ConfigSection::Skills, &v, &Vec::new()).is_ok());
}

#[test]
fn test_validate_skills_non_string_in_array_returns_error() {
    let v = parse(r#"{"extraDirs":[123]}"#);
    let err = validate_section(ConfigSection::Skills, &v, &Vec::new()).unwrap_err();
    assert!(err.contains("must be a string"), "error: {}", err);
}

#[test]
fn test_validate_skills_not_object_returns_error() {
    let v = parse(r#"[1]"#);
    let err = validate_section(ConfigSection::Skills, &v, &Vec::new()).unwrap_err();
    assert!(err.contains("JSON object"), "error: {}", err);
}

#[test]
fn test_validate_skills_multiple_valid_paths_pass() {
    let v = parse(r#"{"extraDirs":["/opt/skills","~/my-skills","../shared-skills"]}"#);
    assert!(validate_section(ConfigSection::Skills, &v, &Vec::new()).is_ok());
}

#[test]
fn test_validate_skills_one_empty_one_valid_fails() {
    let v = parse(r#"{"extraDirs":["/valid",""]}"#);
    let err = validate_section(ConfigSection::Skills, &v, &Vec::new()).unwrap_err();
    assert!(err.contains("cannot be an empty path"), "error: {}", err);
}


#[test]
fn test_for_section_credentials_returns_validate_credentials() {
    let validator = |x: &JsonValue| validate_section(ConfigSection::Credentials, x, &Vec::new());
    let valid = parse(r#"{"provider":"openai","apiKey":"sk-test"}"#);
    assert!(validator(&valid).is_ok());
    let invalid = parse(r#"null"#);
    assert!(validator(&invalid).is_err());
}

#[test]
fn test_for_section_skills_returns_validate_skills() {
    let validator = |x: &JsonValue| validate_section(ConfigSection::Skills, x, &Vec::new());
    let valid = parse(r#"{"extraDirs":["/path"]}"#);
    assert!(validator(&valid).is_ok());
    let invalid = parse(r#"{"extraDirs":[""]}"#);
    assert!(validator(&invalid).is_err());
}

#[test]
fn test_for_section_system_returns_validate_system() {
    let validator = |x: &JsonValue| validate_section(ConfigSection::System, x, &Vec::new());
    let valid = parse(r#"{"version":"1.0"}"#);
    assert!(validator(&valid).is_ok());
    let invalid = parse(r#"{"version":""}"#);
    assert!(validator(&invalid).is_err());
}


#[test]
fn test_validators_exact_messages() {
    let none: Vec<String> = Vec::new();
    assert_eq!(
        validate_models(&parse(r#"{"providers":{"openai":{"baseUrl":"ftp://x"}}}"#), &none).unwrap_err(),
        "models.providers.openai.baseUrl must start with http:// or https://"
    );
    assert_eq!(
        validate_models(&parse(r#"{"providers":{"p":{"models":[{"name":"m"}]}}}"#), &none).unwrap_err(),
        "models.providers.p.models[].id is required"
    );
    assert_eq!(
        validate_models(&parse(r#"{"models":{}}"#), &none).unwrap_err(),
        "models.models must be a JSON array, got object"
    );
    assert_eq!(
        validate_models(&parse(r#"{"providers":{"p":{"credentialPath":"creds/p.json"}}}"#), &none)
            .unwrap_err(),
        "models.providers.p.credentialPath 'creds/p.json' does not exist"
    );
    let existing = vec!["creds/p.json".to_string()];
    assert!(validate_models(&parse(r#"{"providers":{"p":{"credentialPath":"creds/p.json"}}}"#), &existing).is_ok());
    assert_eq!(
        validate_gateway(&parse(r#"{"port":0}"#)).unwrap_err(),
        "gateway.port must be in range 1-65535, got 0 (port 0 is reserved by the OS)"
    );
    assert_eq!(
        validate_gateway(&parse(r#"{"port":70000}"#)).unwrap_err(),
        "gateway.port must be in range 1-65535, got 70000 (port 0 is reserved by the OS)"
    );
    assert_eq!(
        validate_gateway(&parse(r#"{"port":-1}"#)).unwrap_err(),
        "gateway.port must be a non-negative integer"
    );
    assert_eq!(
        validate_gateway(&parse(r#"{"timeout":-0.5}"#)).unwrap_err(),
        "gateway.timeout must be non-negative"
    );
    assert!(validate_gateway(&parse(r#"{"port":8080,"timeout":30}"#)).is_ok());
    assert_eq!(
        validate_channels(&parse(r#"{"channels":{"irc":{}}}"#)).unwrap_err(),
        "unknown channel type 'irc'. Allowed: feishu, discord, telegram, slack, whatsapp, signal, matrix, msteams, mattermost, nostr"
    );
    assert_eq!(
        validate_channels(&parse(
            r#"{"channels":{"discord":{},"feishu":{}},"bindings":[{"agentId":"a","match":{"channel":"slack","accountId":"x"}}]}"#
        ))
        .unwrap_err(),
        "channels.bindings[0].match.channel 'slack' references an undefined channel type. Defined types: discord, feishu"
    );
    assert_eq!(
        validate_channels(&parse(r#"{"bindings":[{"agentId":"a","match":{"channel":"slack","accountId":"x"}}]}"#))
            .unwrap_err(),
        "channels.bindings[0].match.channel 'slack' references an undefined channel type. Defined types: none"
    );
    assert_eq!(
        validate_channels(&parse(r#"{"channels":{"slack":{}},"bindings":[{"agentId":"a"}]}"#)).unwrap_err(),
        "channels.bindings[0].match is required"
    );
    assert!(validate_channels(&parse(
        r#"{"channels":{"slack":{}},"bindings":[{"agentId":"a","match":{"channel":"slack","accountId":"x"}}]}"#
    ))
    .is_ok());
    assert_eq!(
        validate_plugins(&parse(r#"{"allow":["a",3]}"#), &none).unwrap_err(),
        "plugins.allow[1] must be a string"
    );
    assert_eq!(
        validate_plugins(&parse(r#"{"installs":{"x":{"installPath":"/nope"}}}"#), &none).unwrap_err(),
        "plugins.installs.x.installPath '/nope' does not exist"
    );
    assert_eq!(
        validate_system(&parse(r#"{"cron":[]}"#)).unwrap_err(),
        "system.cron must be a JSON object, got array"
    );
    assert_eq!(
        validate_session(&parse(r#"{"sweeperIntervalSeconds":0}"#)).unwrap_err(),
        "session.sweeperIntervalSeconds must be a positive number"
    );
    assert_eq!(
        validate_session(&parse(r#"{"defaults":{"owner":{"idleMinutes":-1}}}"#)).unwrap_err(),
        "session.defaults.owner.idleMinutes must be non-negative"
    );
    assert_eq!(
        validate_session(&parse(r#"{"agents":{"a1":{"guest":{"purgeAfterMinutes":"x"}}}}"#)).unwrap_err(),
        "session.agents.a1.guest.purgeAfterMinutes must be a number"
    );
    assert_eq!(
        validate_session(&parse(r#"{"defaults":null}"#)).unwrap_err(),
        "session.defaults must be a JSON object, got null"
    );
    assert_eq!(
        validate_session(&parse(r#"{"auditLogLimit":-3}"#)).unwrap_err(),
        "session.auditLogLimit must be non-negative"
    );
    assert!(validate_session(&parse(r#"{"sweeperIntervalSeconds":300,"defaults":{"owner":{"idleMinutes":30}},"planArchiveDays":0}"#)).is_ok());
}

#[test]
fn test_referenced_paths_lists_checked_paths() {
    let models = parse(r#"{"providers":{"a":{"credentialPath":"x.json"},"b":{},"c":{"credentialPath":""},"d":{"credentialPath":"y.json"}}}"#);
    assert_eq!(referenced_paths(ConfigSection::Models, &models), vec!["x.json", "y.json"]);
    let plugins = parse(r#"{"installs":{"p":{"installPath":"/opt/p"},"q":"bad"}}"#);
    assert_eq!(referenced_paths(ConfigSection::Plugins, &plugins), vec!["/opt/p"]);
    assert!(referenced_paths(ConfigSection::Gateway, &models).is_empty());
}

// ── system.cron.schedule ─────────────────────────────────────────────────

#[test]
fn test_validate_system_invalid_cron_returns_error() {
    let v = parse(r#"{"cron":{"schedule":"not a cron expr"}}"#);
    let err = validate_section(ConfigSection::System, &v, &Vec::new()).unwrap_err();
    assert!(err.contains("system.cron.schedule must be a valid cron expression"), "error: {}", err);
}

#[test]
fn test_validate_system_valid_cron_passes() {
    let v = parse(r#"{"cron":{"schedule":"0 */6 * * * *"}}"#);
    assert!(validate_section(ConfigSection::System, &v, &Vec::new()).is_ok());
}

#[test]
fn test_validate_system_empty_cron_string_passes() {
    let v = parse(r#"{"cron":{"schedule":""}}"#);
    assert!(validate_section(ConfigSection::System, &v, &Vec::new()).is_ok());
}

#[test]
fn test_validate_system_cron_not_string_returns_error() {
    let v = parse(r#"{"cron":{"schedule":123}}"#);
    let err = validate_section(ConfigSection::System, &v, &Vec::new()).unwrap_err();
    assert!(err.contains("system.cron.schedule must be a string"), "error: {}", err);
}

#[test]
fn test_validate_system_cron_schedule_valid() {
    let cases = [
        r#"{"cron":{"enabled":true,"schedule":"0 */6 * * * *"}}"#,
        r#"{"cron":{"enabled":true,"schedule":"0 30 3 * * *"}}"#,
        r#"{"cron":{"enabled":true,"schedule":"0 0 * * * *"}}"#,
    ];
    for json in cases {
        let v = parse(json);
        assert!(validate_system(&v).is_ok(), "json={}", json);
    }
}

#[test]
fn test_validate_system_cron_schedule_none_or_absent_passes() {
    let cases = [
        r#"{"cron":{"enabled":true}}"#,
        r#"{"cron":{"enabled":true,"schedule":null}}"#,
        r#"{"cron":{"enabled":true,"schedule":""}}"#,
        r#"{}"#,
    ];
    for json in cases {
        let v = parse(json);
        assert!(validate_system(&v).is_ok(), "json={}", json);
    }
}

#[test]
fn test_validate_system_cron_schedule_invalid() {
    let cases = [r#"{"cron":{"schedule":"abc xyz"}}"#, r#"{"cron":{"schedule":"* * *"}}"#];
    for json in cases {
        let v = parse(json);
        let err = validate_system(&v).unwrap_err();
        assert!(
            err.contains("system.cron.schedule must be a valid cron expression"),
            "json={}: error: {}",
            json,
            err
        );
    }
}

#[test]
fn test_validate_system_cron_schedule_not_string() {
    let cases = [r#"{"cron":{"schedule":123}}"#, r#"{"cron":{"schedule":true}}"#];
    for json in cases {
        let v = parse(json);
        let err = validate_system(&v).unwrap_err();
        assert!(err.contains("system.cron.schedule must be a string"), "json={}: error: {}", json, err);
    }
}

#[test]
fn test_validate_system_cron_schedule_special_chars_valid() {
    let cases = [
        r#"{"cron":{"schedule":"* * * * * *"}}"#,
        r#"{"cron":{"schedule":"0,30 * * * * *"}}"#,
        r#"{"cron":{"schedule":"0 0-5 * * * *"}}"#,
        r#"{"cron":{"schedule":"0 */15 * * * *"}}"#,
        r#"{"cron":{"schedule":"0 0,15,30,45 * * * *"}}"#,
        r#"{"cron":{"schedule":"0 0-23/2 * * * *"}}"#,
    ];
    for json in cases {
        let v = parse(json);
        assert!(validate_system(&v).is_ok(), "json={}", json);
    }
}

#[test]
fn test_validate_system_cron_schedule_too_few_fields() {
    let v = parse(r#"{"cron":{"schedule":"* * * *"}}"#);
    let err = validate_system(&v).unwrap_err();
    assert!(err.contains("system.cron.schedule must be a valid cron expression"), "error: {}", err);
}

#[test]
fn test_validate_system_cron_schedule_non_numeric() {
    let v = parse(r#"{"cron":{"schedule":"abc * * * * *"}}"#);
    let err = validate_system(&v).unwrap_err();
    assert!(err.contains("system.cron.schedule must be a valid cron expression"), "error: {}", err);
}

#[test]
fn system_validation_given_schedule_verdict() {
    let v = parse(r#"{"cron":{"schedule":"whatever"}}"#);
    assert!(validate_system_given(&v, true).is_ok());
    assert_eq!(
        validate_system_given(&v, false).unwrap_err(),
        "system.cron.schedule must be a valid cron expression"
    );
    let empty = parse(r#"{"cron":{"schedule":""}}"#);
    assert!(validate_system_given(&empty, false).is_ok());
    assert_eq!(
        validate_system_given(&parse(r#"{"cron":[]}"#), true).unwrap_err(),
        "system.cron must be a JSON object, got array"
    );
}

#[test]
fn session_compact_settings_validated() {
    assert!(validate_session(&parse(
        r#"{"compact":{"charsPerToken":0.3,"autoCompactThresholdPct":0.08,"warningThresholdPct":0.15,"maxConsecutiveFailures":5}}"#
    ))
    .is_ok());
    assert!(validate_session(&parse(r#"{"compact":null}"#)).is_ok());
    assert!(validate_session(&parse(r#"{"compact":{}}"#)).is_ok());
    assert!(validate_session(&parse(r#"{"compact":{"autoCompactThresholdPct":0,"warningThresholdPct":1}}"#)).is_ok());
    assert_eq!(
        validate_session(&parse(r#"{"compact":[1]}"#)).unwrap_err(),
        "session.compact: invalid config: expected a JSON object, got array"
    );
    assert_eq!(
        validate_session(&parse(r#"{"compact":{"charsPerToken":"x"}}"#)).unwrap_err(),
        "session.compact: invalid config: charsPerToken must be a number"
    );
    assert_eq!(
        validate_session(&parse(r#"{"compact":{"maxConsecutiveFailures":-1}}"#)).unwrap_err(),
        "session.compact: invalid config: maxConsecutiveFailures must be a non-negative integer"
    );
    assert_eq!(
        validate_session(&parse(r#"{"compact":{"charsPerToken":0}}"#)).unwrap_err(),
        "session.compact: charsPerToken must be positive"
    );
    assert_eq!(
        validate_session(&parse(r#"{"compact":{"charsPerToken":-0.5}}"#)).unwrap_err(),
        "session.compact: charsPerToken must be positive"
    );
    assert_eq!(
        validate_session(&parse(r#"{"compact":{"autoCompactThresholdPct":1.5}}"#)).unwrap_err(),
        "session.compact: autoCompactThresholdPct must be between 0 and 1"
    );
    assert_eq!(
        validate_session(&parse(r#"{"compact":{"warningThresholdPct":-0.1}}"#)).unwrap_err(),
        "session.compact: warningThresholdPct must be between 0 and 1"
    );
    // The default warning threshold is 0.10.
    assert_eq!(
        validate_session(&parse(r#"{"compact":{"autoCompactThresholdPct":0.2}}"#)).unwrap_err(),
        "session.compact: autoCompactThresholdPct must be less than warningThresholdPct"
    );
    assert_eq!(
        validate_session(&parse(r#"{"compact":{"autoCompactThresholdPct":0.3,"warningThresholdPct":0.3}}"#)).unwrap_err(),
        "session.compact: autoCompactThresholdPct must be less than warningThresholdPct"
    );
}
