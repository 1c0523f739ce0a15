use gradio::data::{
    collect_uploads, file_envelope, interpret_upload_response, marshal_inputs, UploadItem,
    UploadSource,
};
use gradio::{GradioError, JsonValue, PredictionInput};

fn envelope_fields(v: &JsonValue) -> (String, String, String) {
    let path = v.get("path").and_then(|p| p.as_str()).cloned().expect("path");
    let orig = v.get("orig_name").and_then(|p| p.as_str()).cloned().expect("orig_name");
    let marker = v
        .get("meta")
        .and_then(|m| m.get("_type"))
        .and_then(|t| t.as_str())
        .cloned()
        .expect("meta._type");
    (path, orig, marker)
}

#[test]
fn envelope_has_the_declared_wire_shape() {
    let v = file_envelope("/tmp/gradio/x.wav", "x.wav");
    let (path, orig, marker) = envelope_fields(&v);
    assert_eq!(path, "/tmp/gradio/x.wav");
    assert_eq!(orig, "x.wav");
    assert_eq!(marker, "gradio.FileData");
}

#[test]
fn values_pass_through_unchanged() {
    let inputs = vec![PredictionInput::from_value(JsonValue::Str("hi".to_owned()))];
    let out = marshal_inputs(&inputs, &vec![]).unwrap();
    assert_eq!(out.len(), 1);
    assert_eq!(out[0].as_str().unwrap(), "hi");
}

#[test]
fn file_slot_becomes_the_envelope_not_raw_bytes() {
    let inputs = vec![PredictionInput::from_file_data("song.wav", vec![1u8, 2, 3])];
    let out = marshal_inputs(&inputs, &vec!["/srv/upload/song.wav".to_owned()]).unwrap();
    assert_eq!(out.len(), 1);
    let (path, orig, marker) = envelope_fields(&out[0]);
    assert_eq!(path, "/srv/upload/song.wav");
    assert_eq!(orig, "song.wav");
    assert_eq!(marker, "gradio.FileData");
}

#[test]
fn nested_arrays_keep_order_and_depth() {
    let inputs = vec![PredictionInput::Array(vec![
        PredictionInput::from_value(JsonValue::Int(1)),
        PredictionInput::from_file_data("a.bin", vec![9u8]),
        PredictionInput::from_value(JsonValue::Int(2)),
    ])];
    let out = marshal_inputs(&inputs, &vec!["/srv/a.bin".to_owned()]).unwrap();
    assert_eq!(out.len(), 1);
    let items = match &out[0] {
        JsonValue::Arr(items) => items,
        other => panic!("expected an array slot, got {:?}", other),
    };
    assert_eq!(items.len(), 3);
    assert_eq!(items[0].as_i64().unwrap(), 1);
    let (path, _, _) = envelope_fields(&items[1]);
    assert_eq!(path, "/srv/a.bin");
    assert_eq!(items[2].as_i64().unwrap(), 2);
}

#[test]
fn wrong_path_count_is_an_upload_error() {
    let inputs = vec![PredictionInput::from_file_data("a.bin", vec![1u8])];
    let e = marshal_inputs(&inputs, &vec![]).unwrap_err();
    assert!(matches!(e, GradioError::Upload(_)));
    let e = marshal_inputs(
        &inputs,
        &vec!["/srv/a".to_owned(), "/srv/b".to_owned()],
    )
    .unwrap_err();
    assert!(matches!(e, GradioError::Upload(_)));
}

#[test]
fn file_path_uses_its_final_segment_as_name() {
    let inputs = vec![PredictionInput::from_file("/home/user/audio/voice.mp3")];
    let out = marshal_inputs(&inputs, &vec!["/srv/voice.mp3".to_owned()]).unwrap();
    let (_, orig, _) = envelope_fields(&out[0]);
    assert_eq!(orig, "voice.mp3");
}

#[test]
fn path_without_final_segment_is_an_upload_error() {
    let inputs = vec![PredictionInput::from_file("/home/user/audio/")];
    let e = marshal_inputs(&inputs, &vec!["/srv/x".to_owned()]).unwrap_err();
    assert!(matches!(e, GradioError::Upload(_)));
}

#[test]
fn upload_plan_lists_payloads_depth_first_with_guessed_types() {
    let inputs = vec![
        PredictionInput::from_value(JsonValue::Null),
        PredictionInput::Array(vec![
            PredictionInput::from_file("/data/report.txt"),
            PredictionInput::from_file_data("img.png", vec![7u8, 8]),
        ]),
    ];
    let items: Vec<UploadItem> = collect_uploads(&inputs).unwrap();
    assert_eq!(items.len(), 2);
    assert_eq!(items[0].filename, "report.txt");
    match &items[0].source {
        UploadSource::Path(p) => assert_eq!(p, "/data/report.txt"),
        other => panic!("expected a path source, got another variant: {:?}", other_kind(other)),
    }
    assert_eq!(items[0].mime, "text/plain");
    assert_eq!(items[1].filename, "img.png");
    match &items[1].source {
        UploadSource::Memory(d) => assert_eq!(d, &vec![7u8, 8]),
        other => panic!("expected a memory source, got another variant: {:?}", other_kind(other)),
    }
    assert_eq!(items[1].mime, "image/png");
}

fn other_kind(s: &UploadSource) -> &'static str {
    match s {
        UploadSource::Path(_) => "path",
        UploadSource::Memory(_) => "memory",
    }
}

#[test]
fn unknown_extension_falls_back_to_octet_stream() {
    let inputs = vec![PredictionInput::from_file_data("blob.weird-ext", vec![])];
    let items = collect_uploads(&inputs).unwrap();
    assert_eq!(items[0].mime, "application/octet-stream");
}

#[test]
fn upload_response_must_hold_exactly_one_path() {
    let one = JsonValue::Arr(vec![JsonValue::Str("/srv/x".to_owned())]);
    assert_eq!(interpret_upload_response(true, Some(&one)).unwrap(), "/srv/x");

    let none = JsonValue::Arr(vec![]);
    let e = interpret_upload_response(true, Some(&none)).unwrap_err();
    assert!(matches!(e, GradioError::Upload(_)));

    let two = JsonValue::Arr(vec![
        JsonValue::Str("/srv/x".to_owned()),
        JsonValue::Str("/srv/y".to_owned()),
    ]);
    let e = interpret_upload_response(true, Some(&two)).unwrap_err();
    assert!(matches!(e, GradioError::Upload(_)));

    let e = interpret_upload_response(false, Some(&one)).unwrap_err();
    assert!(matches!(e, GradioError::Upload(_)));

    let e = interpret_upload_response(true, None).unwrap_err();
    assert!(matches!(e, GradioError::Upload(_)));
}
