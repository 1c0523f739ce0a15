use gradio::client::{
    api_info_url, config_url, interpret_api_info_response, interpret_config_response,
    interpret_login_response, login_url, upload_url,
};
use gradio::structs::{ApiInfo, StringOrI64};
use gradio::{Client, ClientOptions, GradioError, JsonValue};

fn obj(fields: Vec<(&str, JsonValue)>) -> JsonValue {
    JsonValue::Obj(fields.into_iter().map(|(k, v)| (k.to_owned(), v)).collect())
}

fn s(t: &str) -> JsonValue {
    JsonValue::Str(t.to_owned())
}

fn config_body() -> JsonValue {
    obj(vec![
        (
            "components",
            JsonValue::Arr(vec![obj(vec![
                ("type", s("textbox")),
                ("id", JsonValue::Int(7)),
                ("props", obj(vec![("label", s("name"))])),
                ("component_class_id", s("abc123")),
            ])]),
        ),
        (
            "dependencies",
            JsonValue::Arr(vec![obj(vec![
                ("api_name", s("predict")),
                ("id", JsonValue::Int(0)),
                ("queue", JsonValue::Bool(true)),
            ])]),
        ),
        ("mode", s("blocks")),
        ("root", s("")),
        ("theme", s("default")),
        ("title", s("demo")),
        ("version", s("5.1.0")),
        ("protocol", s("sse_v3")),
        ("layout", obj(vec![("id", JsonValue::Int(0))])),
        ("stylesheets", JsonValue::Arr(vec![s("a.css")])),
        ("space_id", s("a/b")),
        ("enable_queue", JsonValue::Bool(true)),
        ("max_file_size", JsonValue::Int(1000)),
        ("theme_hash", s("deadbeef")),
    ])
}

fn api_info_body() -> JsonValue {
    let slot = obj(vec![
        ("label", s("name")),
        ("parameter_name", s("name")),
        ("component", s("Textbox")),
        ("type", obj(vec![("type", s("string"))])),
        (
            "python_type",
            obj(vec![("type", s("str")), ("description", s(""))]),
        ),
    ]);
    obj(vec![(
        "named_endpoints",
        obj(vec![(
            "/predict",
            obj(vec![
                ("parameters", JsonValue::Arr(vec![slot.clone()])),
                ("returns", JsonValue::Arr(vec![slot])),
            ]),
        )]),
    )])
}

#[test]
fn options_constructors_set_exactly_one_mechanism() {
    let o = ClientOptions::with_hf_token("tok".to_owned());
    assert_eq!(o.hf_token.as_deref(), Some("tok"));
    assert!(o.auth.is_none());

    let o = ClientOptions::with_auth("user".to_owned(), "pass".to_owned());
    assert!(o.hf_token.is_none());
    let (u, p) = o.auth.unwrap();
    assert_eq!(u, "user");
    assert_eq!(p, "pass");

    let o = ClientOptions::default();
    assert!(o.hf_token.is_none() && o.auth.is_none());
}

#[test]
fn config_body_decodes_with_every_field_kind() {
    let c = interpret_config_response(true, Some(&config_body())).unwrap();
    assert_eq!(c.version, "5.1.0");
    assert_eq!(c.components.len(), 1);
    assert_eq!(c.components[0].ty, "textbox");
    assert!(matches!(c.components[0].id, StringOrI64::I64(7)));
    assert_eq!(c.dependencies.len(), 1);
    assert_eq!(c.dependencies[0].api_name, "predict");
    assert_eq!(c.dependencies[0].queue, Some(true));
    assert_eq!(c.stylesheets, vec!["a.css".to_owned()]);
    assert_eq!(c.space_id.as_deref(), Some("a/b"));
    assert_eq!(c.max_file_size, Some(1000));
    assert!(matches!(c.theme_hash, Some(StringOrI64::Str(_))));
    assert!(c.css.is_none());
    assert!(c.api_prefix.is_none());
}

#[test]
fn unreachable_or_malformed_config_is_a_config_fetch_error() {
    let e = interpret_config_response(false, Some(&config_body())).unwrap_err();
    assert!(matches!(e, GradioError::ConfigFetch(_)));
    let e = interpret_config_response(true, None).unwrap_err();
    assert!(matches!(e, GradioError::ConfigFetch(_)));
    let e = interpret_config_response(true, Some(&obj(vec![]))).unwrap_err();
    assert!(matches!(e, GradioError::ConfigFetch(_)));
}

#[test]
fn api_info_body_decodes_routes_and_slots() {
    let a = interpret_api_info_response(true, Some(&api_info_body())).unwrap();
    assert_eq!(a.named_endpoints.len(), 1);
    let ep = a.endpoint("/predict").expect("the declared route");
    assert_eq!(ep.parameters.len(), 1);
    assert_eq!(ep.outputs.len(), 1);
    assert_eq!(ep.parameters[0].ty.ty, "string");
    assert_eq!(ep.parameters[0].python_type.ty, "str");
    assert!(a.endpoint("/absent").is_none());
}

#[test]
fn unreachable_or_malformed_schema_is_a_capability_fetch_error() {
    let e = interpret_api_info_response(false, Some(&api_info_body())).unwrap_err();
    assert!(matches!(e, GradioError::CapabilityFetch(_)));
    let e = interpret_api_info_response(true, Some(&JsonValue::Null)).unwrap_err();
    assert!(matches!(e, GradioError::CapabilityFetch(_)));
}

#[test]
fn too_few_parameter_values_is_a_count_mismatch() {
    let a = ApiInfo::from_json(&api_info_body()).unwrap();
    let ep = a.endpoint("/predict").unwrap();
    assert!(ep.check_parameter_count(1).is_ok());
    assert!(ep.check_parameter_count(2).is_ok());
    let e = ep.check_parameter_count(0).unwrap_err();
    assert!(matches!(e, GradioError::ParameterCountMismatch(_)));
}

#[test]
fn rejected_login_is_an_authentication_error() {
    assert!(interpret_login_response(true).is_ok());
    let e = interpret_login_response(false).unwrap_err();
    match e {
        GradioError::Authentication(m) => assert_eq!(m, "Login failed"),
        other => panic!("expected an authentication error, got {:?}", other),
    }
}

#[test]
fn negotiation_urls_sit_under_the_api_root() {
    assert_eq!(config_url("https://x"), "https://x/config");
    assert_eq!(api_info_url("https://x"), "https://x/info");
    assert_eq!(login_url("https://x"), "https://x/login");
    assert_eq!(upload_url("https://x"), "https://x/upload");
}

#[test]
fn client_assembles_from_its_negotiated_parts() {
    let config = interpret_config_response(true, Some(&config_body())).unwrap();
    let api_info = interpret_api_info_response(true, Some(&api_info_body())).unwrap();
    let client = Client::from_parts(
        "hash0123ab".to_owned(),
        "https://x".to_owned(),
        Some("a/b".to_owned()),
        config,
        api_info,
    );
    assert_eq!(client.session_hash, "hash0123ab");
    assert!(client.jwt.is_none());
    assert_eq!(client.api_root, "https://x");
    assert_eq!(client.space_id.as_deref(), Some("a/b"));
    assert_eq!(client.view_config().version, "5.1.0");
    assert_eq!(client.view_api().named_endpoints.len(), 1);
}

#[test]
fn error_messages_are_readable() {
    let e = GradioError::Protocol("Stream ended unexpectedly".to_owned());
    assert_eq!(e.message(), "Stream ended unexpectedly");
}
