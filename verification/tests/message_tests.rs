use gradio::data::file_envelope;
use gradio::structs::{QueueDataMessage, QueueDataMessageOutput};
use gradio::{GradioError, JsonValue, PredictionOutput};

fn obj(fields: Vec<(&str, JsonValue)>) -> JsonValue {
    JsonValue::Obj(
        fields
            .into_iter()
            .map(|(k, v)| (k.to_owned(), v))
            .collect(),
    )
}

fn s(t: &str) -> JsonValue {
    JsonValue::Str(t.to_owned())
}

#[test]
fn estimation_message_classifies() {
    let body = obj(vec![
        ("msg", s("estimation")),
        ("event_id", s("ev1")),
        ("rank", JsonValue::Int(2)),
        ("queue_size", JsonValue::Int(5)),
        ("rank_eta", JsonValue::Num("8.5".to_owned())),
    ]);
    match QueueDataMessage::classify(&body) {
        QueueDataMessage::Estimation { event_id, rank, queue_size, rank_eta } => {
            assert_eq!(event_id, "ev1");
            assert_eq!(rank, 2);
            assert_eq!(queue_size, 5);
            assert!(rank_eta.is_some());
        },
        other => panic!("expected a queued-with-position message, got {:?}", other),
    }
}

#[test]
fn process_starts_and_heartbeat_classify() {
    let body = obj(vec![("msg", s("process_starts")), ("event_id", s("ev1"))]);
    assert!(matches!(
        QueueDataMessage::classify(&body),
        QueueDataMessage::ProcessStarts { .. }
    ));
    let hb = obj(vec![("msg", s("heartbeat"))]);
    assert!(matches!(QueueDataMessage::classify(&hb), QueueDataMessage::Heartbeat));
}

#[test]
fn progress_message_carries_its_tuples() {
    let body = obj(vec![
        ("msg", s("progress")),
        ("event_id", s("ev1")),
        (
            "progress_data",
            JsonValue::Arr(vec![obj(vec![
                ("index", JsonValue::Int(3)),
                ("length", JsonValue::Int(10)),
                ("unit", s("steps")),
            ])]),
        ),
    ]);
    match QueueDataMessage::classify(&body) {
        QueueDataMessage::Progress { progress_data, .. } => {
            assert_eq!(progress_data.len(), 1);
            assert_eq!(progress_data[0].index, 3);
            assert_eq!(progress_data[0].length, Some(10));
            assert_eq!(progress_data[0].unit, "steps");
        },
        other => panic!("expected a progress message, got {:?}", other),
    }
}

#[test]
fn log_message_classifies() {
    let body = obj(vec![
        ("msg", s("log")),
        ("event_id", s("ev1")),
        ("log", s("working")),
        ("level", s("info")),
    ]);
    match QueueDataMessage::classify(&body) {
        QueueDataMessage::Log { log, level, .. } => {
            assert_eq!(log, "working");
            assert_eq!(level.as_deref(), Some("info"));
        },
        other => panic!("expected a log message, got {:?}", other),
    }
}

#[test]
fn completed_success_message_classifies() {
    let body = obj(vec![
        ("msg", s("process_completed")),
        ("event_id", s("ev1")),
        (
            "output",
            obj(vec![
                ("data", JsonValue::Arr(vec![s("Hello Jacob")])),
                ("duration", JsonValue::Num("0.1".to_owned())),
            ]),
        ),
        ("success", JsonValue::Bool(true)),
    ]);
    match QueueDataMessage::classify(&body) {
        QueueDataMessage::ProcessCompleted { output, success, .. } => {
            assert!(success);
            match output {
                QueueDataMessageOutput::Success { data, .. } => {
                    assert_eq!(data.len(), 1);
                    assert_eq!(data[0].as_str().unwrap(), "Hello Jacob");
                },
                other => panic!("expected a success payload, got {:?}", other),
            }
        },
        other => panic!("expected a completion message, got {:?}", other),
    }
}

#[test]
fn completed_error_payload_classifies() {
    let body = obj(vec![
        ("msg", s("process_completed")),
        ("event_id", s("ev1")),
        ("output", obj(vec![("error", s("boom"))])),
        ("success", JsonValue::Bool(false)),
    ]);
    match QueueDataMessage::classify(&body) {
        QueueDataMessage::ProcessCompleted { output, .. } => match output {
            QueueDataMessageOutput::Error { error } => assert_eq!(error.as_deref(), Some("boom")),
            other => panic!("expected an error payload, got {:?}", other),
        },
        other => panic!("expected a completion message, got {:?}", other),
    }
}

#[test]
fn unexpected_error_message_classifies() {
    let body = obj(vec![("msg", s("unexpected_error")), ("message", s("oops"))]);
    match QueueDataMessage::classify(&body) {
        QueueDataMessage::UnexpectedError { event_id, message } => {
            assert!(event_id.is_none());
            assert_eq!(message.as_deref(), Some("oops"));
        },
        other => panic!("expected an unexpected-error message, got {:?}", other),
    }
}

#[test]
fn unrecognized_bodies_are_kept_whole_not_dropped() {
    let body = obj(vec![("msg", s("close_stream"))]);
    assert!(matches!(
        QueueDataMessage::classify(&body),
        QueueDataMessage::Unknown(_)
    ));
    let no_tag = obj(vec![("something", JsonValue::Int(1))]);
    assert!(matches!(
        QueueDataMessage::classify(&no_tag),
        QueueDataMessage::Unknown(_)
    ));
    let missing_field = obj(vec![("msg", s("estimation")), ("event_id", s("e"))]);
    assert!(matches!(
        QueueDataMessage::classify(&missing_field),
        QueueDataMessage::Unknown(_)
    ));
}

#[test]
fn envelope_shaped_output_is_always_a_file() {
    let env = file_envelope("/srv/x.wav", "x.wav");
    let out = PredictionOutput::decode(&env);
    assert!(out.is_file());
    assert!(!out.is_value());
    let fd = out.as_file().unwrap();
    assert_eq!(fd.path.as_deref(), Some("/srv/x.wav"));
    assert_eq!(fd.orig_name.as_deref(), Some("x.wav"));
    assert_eq!(fd.meta._type, "gradio.FileData");
}

#[test]
fn envelope_with_extra_unknown_fields_is_still_a_file() {
    let body = obj(vec![
        ("path", s("/srv/x.bin")),
        ("orig_name", s("x.bin")),
        ("meta", obj(vec![("_type", s("gradio.FileData"))])),
        ("url", s("https://host/file/x.bin")),
        ("size", JsonValue::Int(42)),
        ("some_future_field", JsonValue::Bool(true)),
    ]);
    let out = PredictionOutput::decode(&body);
    let fd = out.as_file().unwrap();
    assert_eq!(fd.url.as_deref(), Some("https://host/file/x.bin"));
    assert_eq!(fd.size, Some(42));
}

#[test]
fn plain_values_stay_values() {
    let out = PredictionOutput::decode(&s("Hello"));
    assert!(out.is_value());
    let v = out.as_value().unwrap();
    assert_eq!(v.as_str().unwrap(), "Hello");
}

#[test]
fn narrowing_to_the_wrong_variant_is_a_shape_mismatch() {
    let value = PredictionOutput::decode(&s("plain"));
    let e = value.as_file().unwrap_err();
    assert!(matches!(e, GradioError::OutputShapeMismatch(_)));

    let file = PredictionOutput::decode(&file_envelope("/srv/y", "y"));
    let e = file.as_value().unwrap_err();
    assert!(matches!(e, GradioError::OutputShapeMismatch(_)));
}

#[test]
fn suggested_extension_prefers_name_then_path_then_url() {
    let fd = PredictionOutput::decode(&file_envelope("/srv/song.tmp", "song.wav"))
        .as_file()
        .unwrap();
    assert_eq!(fd.suggest_extension(), "wav");

    let body = obj(vec![
        ("path", s("/srv/clip.mp4")),
        ("meta", obj(vec![("_type", s("gradio.FileData"))])),
    ]);
    let fd = PredictionOutput::decode(&body).as_file().unwrap();
    assert_eq!(fd.suggest_extension(), "mp4");

    let body = obj(vec![("meta", obj(vec![("_type", s("gradio.FileData"))]))]);
    let fd = PredictionOutput::decode(&body).as_file().unwrap();
    assert_eq!(fd.suggest_extension(), "bin");
}
