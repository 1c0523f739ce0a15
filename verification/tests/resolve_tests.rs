use gradio::resolve::{finish_registry_resolution, hosted_space_id, matches_owner_name, resolve_start, registry_lookup_url, ResolveStep};
use gradio::strutil::trim_trailing_slashes;
use gradio::GradioError;
use gradio::JsonValue;

#[test]
fn owner_name_reference_needs_one_registry_lookup() {
    match resolve_start("gradio/hello_world") {
        ResolveStep::NeedRegistry { lookup_url, reference } => {
            assert_eq!(reference, "gradio/hello_world");
            assert!(!reference.is_empty());
            assert_eq!(
                lookup_url,
                "https://huggingface.co/api/spaces/gradio/hello_world/host"
            );
        },
        other => panic!("expected a registry lookup, got {:?}", other),
    }
}

#[test]
fn owner_name_reference_is_trimmed_before_lookup() {
    match resolve_start("gradio/hello_world//") {
        ResolveStep::NeedRegistry { reference, .. } => {
            assert_eq!(reference, "gradio/hello_world");
        },
        other => panic!("expected a registry lookup, got {:?}", other),
    }
}

#[test]
fn full_url_resolves_locally_without_space_id() {
    match resolve_start("https://example.com/app/") {
        ResolveStep::Done { api_root, space_id } => {
            assert_eq!(api_root, "https://example.com/app");
            assert!(space_id.is_none());
        },
        other => panic!("expected local resolution, got {:?}", other),
    }
}

#[test]
fn hosted_reference_strips_suffix_for_space_id() {
    match resolve_start("https://demo-user.hf.space/") {
        ResolveStep::Done { api_root, space_id } => {
            assert_eq!(api_root, "https://demo-user.hf.space");
            assert_eq!(space_id.as_deref(), Some("https://demo-user"));
        },
        other => panic!("expected local resolution, got {:?}", other),
    }
}

#[test]
fn owner_name_pattern_is_exact() {
    assert!(matches_owner_name("owner/name"));
    assert!(matches_owner_name("o.w-n_er/na.me2"));
    assert!(!matches_owner_name("owner"));
    assert!(!matches_owner_name("/name"));
    assert!(!matches_owner_name("owner/"));
    assert!(!matches_owner_name("a/b/c"));
    assert!(!matches_owner_name("owner/na me"));
    assert!(!matches_owner_name(""));
}

#[test]
fn trim_trailing_slashes_removes_all() {
    assert_eq!(trim_trailing_slashes("abc///"), "abc");
    assert_eq!(trim_trailing_slashes("abc"), "abc");
    assert_eq!(trim_trailing_slashes("///"), "");
}

#[test]
fn hosted_space_id_handles_suffix_forms() {
    assert_eq!(hosted_space_id("https://a.hf.space"), "https://a");
    assert_eq!(hosted_space_id("xhf.space"), "x");
    assert_eq!(hosted_space_id("plain"), "plain");
}

#[test]
fn registry_lookup_url_shape() {
    assert_eq!(
        registry_lookup_url("a/b"),
        "https://huggingface.co/api/spaces/a/b/host"
    );
}

#[test]
fn registry_response_with_host_resolves() {
    let body = JsonValue::Obj(vec![(
        "host".to_owned(),
        JsonValue::Str("https://resolved.example".to_owned()),
    )]);
    let r = finish_registry_resolution(true, Some(&body), "a/b").unwrap();
    assert_eq!(r.0, "https://resolved.example");
    assert_eq!(r.1.as_deref(), Some("a/b"));
}

#[test]
fn registry_failure_is_resolution_error() {
    let e = finish_registry_resolution(false, None, "a/b").unwrap_err();
    assert!(matches!(e, GradioError::Resolution(_)));
    let body = JsonValue::Obj(vec![("host".to_owned(), JsonValue::Int(3))]);
    let e = finish_registry_resolution(true, Some(&body), "a/b").unwrap_err();
    assert!(matches!(e, GradioError::Resolution(_)));
}
