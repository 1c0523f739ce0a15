use gradio::JsonValue;

fn obj(fields: Vec<(&str, JsonValue)>) -> JsonValue {
    JsonValue::Obj(fields.into_iter().map(|(k, v)| (k.to_owned(), v)).collect())
}

#[test]
fn lookup_returns_the_first_field_with_the_key() {
    let v = obj(vec![
        ("k", JsonValue::Int(1)),
        ("k", JsonValue::Int(2)),
        ("other", JsonValue::Int(3)),
    ]);
    assert_eq!(v.get("k").unwrap().as_i64().unwrap(), 1);
    assert_eq!(v.get("other").unwrap().as_i64().unwrap(), 3);
    assert!(v.get("absent").is_none());
}

#[test]
fn lookup_on_non_objects_finds_nothing() {
    assert!(JsonValue::Null.get("k").is_none());
    assert!(JsonValue::Arr(vec![]).get("k").is_none());
    assert!(JsonValue::Str("k".to_owned()).get("k").is_none());
}

#[test]
fn accessors_narrow_by_variant() {
    assert_eq!(JsonValue::Int(7).as_i64(), Some(7));
    assert!(JsonValue::Int(7).as_str().is_none());
    assert_eq!(JsonValue::Bool(true).as_bool(), Some(true));
    assert!(JsonValue::Null.is_null());
    assert!(!JsonValue::Bool(false).is_null());
}

#[test]
fn clone_copies_the_whole_tree() {
    let v = obj(vec![
        ("a", JsonValue::Arr(vec![JsonValue::Int(1), JsonValue::Str("x".to_owned())])),
        ("b", obj(vec![("c", JsonValue::Num("2.75".to_owned()))])),
    ]);
    let w = v.clone();
    let inner = w.get("a").unwrap().as_arr().unwrap();
    assert_eq!(inner.len(), 2);
    assert_eq!(inner[0].as_i64(), Some(1));
    assert_eq!(inner[1].as_str().unwrap(), "x");
    match w.get("b").unwrap().get("c").unwrap() {
        JsonValue::Num(t) => assert_eq!(t, "2.75"),
        other => panic!("expected the raw number kept, got {:?}", other),
    }
}

#[test]
fn empty_inputs_marshal_to_an_empty_payload() {
    let out = gradio::data::marshal_inputs(&vec![], &vec![]).unwrap();
    assert!(out.is_empty());
}
