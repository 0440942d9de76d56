use closeclaw_config::agent_config::ModelSpec;
use closeclaw_config::json::JsonValue;
use closeclaw_config::model_spec_json::ModelSpecError;

fn obj(entries: Vec<(&str, JsonValue)>) -> JsonValue {
    JsonValue::Object(entries.into_iter().map(|(k, v)| (k.to_string(), v)).collect())
}

fn s(text: &str) -> JsonValue {
    JsonValue::String(text.to_string())
}

fn list(xs: &[&str]) -> JsonValue {
    JsonValue::Array(xs.iter().map(|x| s(x)).collect())
}

#[test]
fn model_spec_from_string() {
    let m = ModelSpec::from_json(&s("gpt-4o")).unwrap();
    assert_eq!(m, ModelSpec::single("gpt-4o"));
}

#[test]
fn model_spec_from_object() {
    let m = ModelSpec::from_json(&obj(vec![("primary", s("gpt-4o")), ("fallback", list(&["llama-3"]))]))
        .unwrap();
    assert_eq!(m.primary, "gpt-4o");
    assert_eq!(m.fallback, vec!["llama-3".to_string()]);
}

#[test]
fn model_spec_object_defaults_and_ignores() {
    let m = ModelSpec::from_json(&obj(vec![("note", JsonValue::Null), ("primary", s("m"))])).unwrap();
    assert_eq!(m, ModelSpec::single("m"));
}

#[test]
fn model_spec_errors() {
    assert_eq!(
        ModelSpec::from_json(&obj(vec![("fallback", list(&["x"]))])),
        Err(ModelSpecError::MissingPrimary)
    );
    assert_eq!(
        ModelSpec::from_json(&obj(vec![("primary", s("a")), ("primary", s("b"))])),
        Err(ModelSpecError::DuplicatePrimary)
    );
    assert_eq!(
        ModelSpec::from_json(&obj(vec![("primary", s("a")), ("fallback", list(&[])), ("fallback", list(&[]))])),
        Err(ModelSpecError::DuplicateFallback)
    );
    assert_eq!(
        ModelSpec::from_json(&obj(vec![("primary", JsonValue::Bool(true))])),
        Err(ModelSpecError::PrimaryNotString)
    );
    assert_eq!(
        ModelSpec::from_json(&obj(vec![("primary", s("a")), ("fallback", JsonValue::Array(vec![JsonValue::Null]))])),
        Err(ModelSpecError::FallbackNotStrings)
    );
    assert_eq!(
        ModelSpec::from_json(&obj(vec![("primary", s("a")), ("fallback", s("b"))])),
        Err(ModelSpecError::FallbackNotStrings)
    );
    assert_eq!(ModelSpec::from_json(&JsonValue::Null), Err(ModelSpecError::NotStringOrObject));
    assert_eq!(
        ModelSpec::from_json(&JsonValue::Array(vec![s("a")])),
        Err(ModelSpecError::NotStringOrObject)
    );
}

#[test]
fn model_spec_to_json_forms() {
    match ModelSpec::single("gpt-4o").to_json() {
        JsonValue::String(t) => assert_eq!(t, "gpt-4o"),
        other => panic!("unexpected {:?}", other),
    }
    match ModelSpec::with_fallback("a", vec!["b".to_string(), "c".to_string()]).to_json() {
        JsonValue::Object(ms) => {
            assert_eq!(ms.len(), 2);
            assert_eq!(ms[0].0, "primary");
            assert_eq!(ms[1].0, "fallback");
        }
        other => panic!("unexpected {:?}", other),
    }
}

#[test]
fn model_spec_round_trip() {
    for m in [
        ModelSpec::single("gpt-4o"),
        ModelSpec::with_fallback("gpt-4o", vec!["llama-3".to_string(), "llama".to_string()]),
    ] {
        assert_eq!(ModelSpec::from_json(&m.to_json()).unwrap(), m);
    }
}
