use closeclaw_config::accounts::{AccountsConfigData, BotAgentBinding};
use closeclaw_config::errors::ConfigError;
use closeclaw_config::identity::IdentityMapping;

fn make_account(platform: &str, sender_id: &str, account_id: &str) -> IdentityMapping {
    IdentityMapping {
        platform: platform.to_string(),
        bot_app_id: String::new(),
        sender_id: sender_id.to_string(),
        account_id: account_id.to_string(),
    }
}

fn make_account_with_bot(
    platform: &str,
    bot_app_id: &str,
    sender_id: &str,
    account_id: &str,
) -> IdentityMapping {
    IdentityMapping {
        platform: platform.to_string(),
        bot_app_id: bot_app_id.to_string(),
        sender_id: sender_id.to_string(),
        account_id: account_id.to_string(),
    }
}

fn sample_accounts_data() -> AccountsConfigData {
    AccountsConfigData {
        accounts: vec![
            make_account("feishu", "ou_aaa", "local_user_1"),
            make_account("discord", "12345", "local_user_2"),
            make_account("telegram", "@user1", "local_user_3"),
        ],
        bindings: vec![],
    }
}


fn make_binding(bot_app_id: &str, agent_id: &str) -> BotAgentBinding {
    BotAgentBinding {
        bot_app_id: bot_app_id.to_string(),
        agent_id: agent_id.to_string(),
    }
}

#[test]
fn test_valid_accounts_pass_validation() {
    let data = sample_accounts_data();
    assert!(data.validate().is_ok());
}

#[test]
fn test_get_account_hit() {
    let data = sample_accounts_data();
    let acc = data.get_account("local_user_1").unwrap();
    assert_eq!(acc.platform, "feishu");
    assert_eq!(acc.sender_id, "ou_aaa");
}

#[test]
fn test_get_account_miss() {
    let data = sample_accounts_data();
    assert!(data.get_account("nonexistent").is_none());
}

#[test]
fn test_accounts_by_platform() {
    let data = sample_accounts_data();
    let feishu = data.accounts_by_platform("feishu");
    assert_eq!(feishu.len(), 1);
    assert_eq!(feishu[0].account_id, "local_user_1");
}

#[test]
fn test_accounts_by_platform_empty() {
    let data = sample_accounts_data();
    let slack = data.accounts_by_platform("slack");
    assert!(slack.is_empty());
}

#[test]
fn accounts_tests_test_version() {
    let data = sample_accounts_data();
    assert_eq!(data.version(), "1.0.0");
}

#[test]
fn accounts_tests_test_config_path() {
    assert_eq!(AccountsConfigData::config_path(), "accounts.json");
}


#[test]
fn test_validate_fail_empty_account_id() {
    let data = AccountsConfigData {
        bindings: vec![],
        accounts: vec![make_account("feishu", "ou_aaa", "")],
    };
    let err = data.validate().unwrap_err();
    assert!(err.to_string().contains("account_id cannot be empty"));
}

#[test]
fn test_validate_fail_empty_sender_id() {
    let data = AccountsConfigData {
        bindings: vec![],
        accounts: vec![make_account("feishu", "", "local_user_1")],
    };
    let err = data.validate().unwrap_err();
    assert!(err.to_string().contains("sender_id cannot be empty"));
}

#[test]
fn test_validate_fail_duplicate_account_id() {
    let data = AccountsConfigData {
        bindings: vec![],
        accounts: vec![
            make_account("feishu", "ou_aaa", "user1"),
            make_account("discord", "12345", "user1"),
        ],
    };
    let err = data.validate().unwrap_err();
    assert!(
        err.to_string().contains("duplicate account_id"),
        "error: {:?}",
        err
    );
}

#[test]
fn test_validate_fail_duplicate_reported_index() {
    let data = AccountsConfigData {
        bindings: vec![],
        accounts: vec![
            make_account("feishu", "ou_aaa", "user1"),
            make_account("discord", "12345", "user1"),
            make_account("telegram", "@u", "user2"),
        ],
    };
    let err = data.validate().unwrap_err();
    assert!(err.to_string().contains("at index 1"), "error: {:?}", err);
}

#[test]
fn test_empty_accounts_list_is_default() {
    let data = AccountsConfigData {
        bindings: vec![],
        accounts: vec![],
    };
    assert!(data.is_default());
    assert!(data.validate().is_ok());
}

#[test]
fn test_single_account() {
    let data = AccountsConfigData {
        bindings: vec![],
        accounts: vec![make_account("feishu", "ou_123", "acc_1")],
    };
    assert!(!data.is_default());
    assert!(data.validate().is_ok());
}

#[test]
fn test_multiple_accounts() {
    let data = AccountsConfigData {
        bindings: vec![],
        accounts: vec![
            make_account("feishu", "ou_1", "acc_1"),
            make_account("discord", "d_1", "acc_2"),
            make_account("telegram", "t_1", "acc_3"),
        ],
    };
    assert!(!data.is_default());
    assert_eq!(data.accounts.len(), 3);
    assert!(data.validate().is_ok());
}

#[test]
fn test_get_binding_hit() {
    let data = AccountsConfigData {
        accounts: vec![],
        bindings: vec![make_binding("app1", "eda")],
    };
    let b = data.get_binding("app1").unwrap();
    assert_eq!(b.agent_id, "eda");
}

#[test]
fn test_get_binding_miss() {
    let data = AccountsConfigData {
        accounts: vec![],
        bindings: vec![make_binding("app1", "eda")],
    };
    assert!(data.get_binding("app_unknown").is_none());
}

#[test]
fn test_get_binding_empty_bindings() {
    let data = AccountsConfigData {
        accounts: vec![],
        bindings: vec![],
    };
    assert!(data.get_binding("app1").is_none());
}

#[test]
fn test_is_default_empty_bindings() {
    let data = AccountsConfigData {
        accounts: vec![],
        bindings: vec![],
    };
    assert!(data.is_default());
}

#[test]
fn test_is_default_with_bindings() {
    let data = AccountsConfigData {
        accounts: vec![],
        bindings: vec![make_binding("app1", "eda")],
    };
    assert!(!data.is_default());
}

#[test]
fn test_is_default_with_accounts_only() {
    let data = AccountsConfigData {
        accounts: vec![make_account("feishu", "ou_aaa", "u1")],
        bindings: vec![],
    };
    assert!(!data.is_default());
}


#[test]
fn test_validate_fail_duplicate_platform_binding() {
    let data = AccountsConfigData {
        bindings: vec![],
        accounts: vec![
            make_account("feishu", "ou_aaa", "user1"),
            make_account("feishu", "ou_aaa", "user2"),
        ],
    };
    let err = data.validate().unwrap_err();
    assert!(
        err.to_string().contains("duplicate binding"),
        "error: {:?}",
        err
    );
}

#[test]
fn test_validate_fail_duplicate_platform_binding_with_bot_app_id() {
    let data = AccountsConfigData {
        bindings: vec![],
        accounts: vec![
            make_account_with_bot("feishu", "app1", "ou_aaa", "user1"),
            make_account_with_bot("feishu", "app1", "ou_aaa", "user2"),
        ],
    };
    let err = data.validate().unwrap_err();
    assert!(
        err.to_string().contains("duplicate binding"),
        "error: {:?}",
        err
    );
}

#[test]
fn test_validate_pass_different_bot_app_id_same_sender() {
    let data = AccountsConfigData {
        bindings: vec![],
        accounts: vec![
            make_account_with_bot("feishu", "app1", "ou_aaa", "user1"),
            make_account_with_bot("feishu", "app2", "ou_aaa", "user2"),
        ],
    };
    assert!(data.validate().is_ok());
}

#[test]
fn test_validate_pass_same_sender_different_platform() {
    let data = AccountsConfigData {
        bindings: vec![],
        accounts: vec![
            make_account("feishu", "ou_aaa", "user1"),
            make_account("discord", "ou_aaa", "user2"),
        ],
    };
    assert!(data.validate().is_ok());
}

#[test]
fn test_validate_fail_duplicate_binding_error_contains_index() {
    let data = AccountsConfigData {
        bindings: vec![],
        accounts: vec![
            make_account("feishu", "ou_aaa", "user1"),
            make_account("feishu", "ou_aaa", "user2"),
            make_account("feishu", "ou_bbb", "user3"),
        ],
    };
    let err = data.validate().unwrap_err();
    assert!(err.to_string().contains("at index 1"), "error: {:?}", err);
}

#[test]
fn test_validate_pass_unique_bindings() {
    let data = AccountsConfigData {
        bindings: vec![],
        accounts: vec![
            make_account_with_bot("feishu", "app1", "ou_aaa", "user1"),
            make_account_with_bot("feishu", "app1", "ou_bbb", "user2"),
            make_account_with_bot("feishu", "app2", "ou_aaa", "user3"),
            make_account("discord", "d_1", "user4"),
        ],
    };
    assert!(data.validate().is_ok());
}


#[test]
fn test_accounts_get_binding_hit() {
    let data = AccountsConfigData {
        accounts: vec![],
        bindings: vec![BotAgentBinding {
            bot_app_id: "app1".to_string(),
            agent_id: "eda".to_string(),
        }],
    };
    let b = data.get_binding("app1").unwrap();
    assert_eq!(b.agent_id, "eda");
}

#[test]
fn test_accounts_get_binding_miss() {
    let data = AccountsConfigData {
        accounts: vec![],
        bindings: vec![BotAgentBinding {
            bot_app_id: "app1".to_string(),
            agent_id: "eda".to_string(),
        }],
    };
    assert!(data.get_binding("nonexistent").is_none());
}

#[test]
fn test_accounts_get_binding_empty_bindings() {
    let data = AccountsConfigData::default();
    assert!(data.get_binding("app1").is_none());
}

#[test]
fn test_accounts_bindings_validation_pass() {
    let data = AccountsConfigData {
        accounts: vec![],
        bindings: vec![BotAgentBinding {
            bot_app_id: "app1".to_string(),
            agent_id: "eda".to_string(),
        }],
    };
    assert!(data.validate().is_ok());
}

#[test]
fn test_validate_error_fields_and_messages() {
    let data = AccountsConfigData {
        bindings: vec![],
        accounts: vec![
            make_account("feishu", "ou_aaa", "user1"),
            make_account("discord", "12345", "user1"),
        ],
    };
    match data.validate() {
        Err(ConfigError::ValueError { field, message }) => {
            assert_eq!(field, "accountId");
            assert_eq!(message, "duplicate account_id 'user1' at index 1");
        }
        other => panic!("unexpected: {:?}", other),
    }
    let data = AccountsConfigData {
        bindings: vec![],
        accounts: vec![
            make_account("feishu", "ou_aaa", "u1"),
            make_account("feishu", "", "u2"),
        ],
    };
    match data.validate() {
        Err(ConfigError::ValueError { field, message }) => {
            assert_eq!(field, "accounts[1].senderId");
            assert_eq!(message, "sender_id cannot be empty");
        }
        other => panic!("unexpected: {:?}", other),
    }
    let data = AccountsConfigData {
        bindings: vec![],
        accounts: vec![
            make_account_with_bot("feishu", "app1", "ou_aaa", "u1"),
            make_account_with_bot("feishu", "app1", "ou_aaa", "u2"),
        ],
    };
    let err = data.validate().unwrap_err();
    assert_eq!(
        err.to_string(),
        "invalid value for accounts[1]: duplicate binding: platform='feishu', bot_app_id='app1', sender_id='ou_aaa' at index 1"
    );
}

#[test]
fn test_accounts_by_platform_keeps_order() {
    let data = AccountsConfigData {
        bindings: vec![],
        accounts: vec![
            make_account("feishu", "s1", "a1"),
            make_account("discord", "s2", "a2"),
            make_account("feishu", "s3", "a3"),
        ],
    };
    let feishu = data.accounts_by_platform("feishu");
    assert_eq!(feishu.len(), 2);
    assert_eq!(feishu[0].account_id, "a1");
    assert_eq!(feishu[1].account_id, "a3");
    assert_eq!(data.get_account("a3").unwrap().sender_id, "s3");
}
