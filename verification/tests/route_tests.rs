use gradio::client::{resolve_fn_index, version_supported, apply_api_prefix};
use gradio::json::JsonValue;
use gradio::structs::{default_id, AppConfig, Dependency, UNSET_ROUTE_ID};
use gradio::GradioError;

fn config_with_routes(deps: Vec<(&str, i64)>) -> AppConfig {
    let entries: Vec<JsonValue> = deps
        .into_iter()
        .map(|(name, id)| {
            JsonValue::Obj(vec![
                ("api_name".to_owned(), JsonValue::Str(name.to_owned())),
                ("id".to_owned(), JsonValue::Int(id)),
            ])
        })
        .collect();
    let body = JsonValue::Obj(vec![
        ("components".to_owned(), JsonValue::Arr(vec![])),
        ("dependencies".to_owned(), JsonValue::Arr(entries)),
        ("mode".to_owned(), JsonValue::Str("blocks".to_owned())),
        ("root".to_owned(), JsonValue::Str("".to_owned())),
        ("theme".to_owned(), JsonValue::Str("default".to_owned())),
        ("title".to_owned(), JsonValue::Str("demo".to_owned())),
        ("version".to_owned(), JsonValue::Str("4.44.0".to_owned())),
        ("protocol".to_owned(), JsonValue::Str("sse_v3".to_owned())),
        ("layout".to_owned(), JsonValue::Obj(vec![])),
        ("stylesheets".to_owned(), JsonValue::Arr(vec![])),
    ]);
    AppConfig::from_json(&body).expect("the configuration body must decode")
}

#[test]
fn declared_id_wins() {
    let config = config_with_routes(vec![("greet", 7)]);
    assert_eq!(resolve_fn_index(&config, "greet").unwrap(), 7);
}

#[test]
fn unset_sentinel_resolves_to_position_not_sentinel() {
    let config = config_with_routes(vec![("first", 3), ("second", UNSET_ROUTE_ID)]);
    let idx = resolve_fn_index(&config, "second").unwrap();
    assert_eq!(idx, 1);
    assert_ne!(idx, UNSET_ROUTE_ID);
}

#[test]
fn leading_separator_is_stripped_before_lookup() {
    let config = config_with_routes(vec![("greet", 2)]);
    assert_eq!(resolve_fn_index(&config, "/greet").unwrap(), 2);
}

#[test]
fn missing_route_is_route_not_found() {
    let config = config_with_routes(vec![("greet", 2)]);
    let e = resolve_fn_index(&config, "absent").unwrap_err();
    assert!(matches!(e, GradioError::RouteNotFound(_)));
}

#[test]
fn omitted_id_defaults_to_sentinel() {
    let body = JsonValue::Obj(vec![(
        "api_name".to_owned(),
        JsonValue::Str("greet".to_owned()),
    )]);
    let d = Dependency::from_json(&body).unwrap();
    assert_eq!(d.id, UNSET_ROUTE_ID);
    assert_eq!(default_id(), -1);
}

#[test]
fn version_check_accepts_validated_lines_only() {
    assert!(version_supported("4.44.0"));
    assert!(version_supported("5.0.1"));
    assert!(!version_supported("3.50.2"));
    assert!(!version_supported("six"));
}

#[test]
fn api_prefix_is_appended_when_declared() {
    let mut config = config_with_routes(vec![]);
    assert_eq!(apply_api_prefix("https://x", &config), "https://x");
    config.api_prefix = Some("/gradio_api".to_owned());
    assert_eq!(apply_api_prefix("https://x", &config), "https://x/gradio_api");
}
