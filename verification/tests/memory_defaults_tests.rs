use closeclaw_config::json::{JsonNumber, JsonValue};
use closeclaw_config::memory_config::{
    default_capacity_max_rules, default_db_path, default_diary_path, default_dreaming_schedule,
    default_memory_md_path, default_mining_dedup_window_days, default_mining_max_events_per_session,
    default_search_context_turns, default_search_max_summary_chars, default_search_min_entity_hits,
    default_search_timeout_ms, default_search_top_k_events, default_transcript_format,
    default_transcript_min_owner_msgs, default_transcript_min_turns,
};

#[test]
fn memory_subsystem_defaults() {
    assert_eq!(default_dreaming_schedule(), "0 3 * * *");
    assert_eq!(default_diary_path(), "memory/diary/");
    assert_eq!(default_capacity_max_rules(), 20);
    assert_eq!(default_db_path(), "memory/memory.db");
    assert_eq!(default_memory_md_path(), "memory/MEMORY.md");
    assert_eq!(default_mining_max_events_per_session(), 10);
    assert_eq!(default_mining_dedup_window_days(), 30);
    assert_eq!(default_transcript_min_turns(), 5);
    assert_eq!(default_transcript_min_owner_msgs(), 5);
    assert_eq!(default_transcript_format(), "md");
    assert_eq!(default_search_context_turns(), 5);
    assert_eq!(default_search_timeout_ms(), 3000);
    assert_eq!(default_search_max_summary_chars(), 500);
    assert_eq!(default_search_min_entity_hits(), 1);
    assert_eq!(default_search_top_k_events(), 3);
}

#[test]
fn json_value_accessors() {
    let arr = JsonValue::Array(vec![JsonValue::Null, JsonValue::Bool(true)]);
    assert_eq!(arr.as_array().map(|a| a.len()), Some(2));
    assert!(arr.as_object().is_none());
    let obj = JsonValue::Object(vec![("k".to_string(), JsonValue::Number(JsonNumber::PosInt(1)))]);
    assert_eq!(obj.as_object().map(|o| o.len()), Some(1));
    assert!(obj.as_array().is_none());
    assert!(JsonValue::Null.is_null());
    assert!(!obj.is_null());
}
