use gradio::client::{predict_outcome, predict_step, PredictStep};
use gradio::structs::QueueDataMessage;
use gradio::{GradioError, JsonValue};

fn obj(fields: Vec<(&str, JsonValue)>) -> JsonValue {
    JsonValue::Obj(fields.into_iter().map(|(k, v)| (k.to_owned(), v)).collect())
}

fn s(t: &str) -> JsonValue {
    JsonValue::Str(t.to_owned())
}

fn classify(body: JsonValue) -> QueueDataMessage {
    QueueDataMessage::classify(&body)
}

fn estimation() -> QueueDataMessage {
    classify(obj(vec![
        ("msg", s("estimation")),
        ("event_id", s("ev1")),
        ("rank", JsonValue::Int(0)),
        ("queue_size", JsonValue::Int(1)),
    ]))
}

fn process_starts() -> QueueDataMessage {
    classify(obj(vec![("msg", s("process_starts")), ("event_id", s("ev1"))]))
}

fn completed_with(data: Vec<JsonValue>) -> QueueDataMessage {
    classify(obj(vec![
        ("msg", s("process_completed")),
        ("event_id", s("ev1")),
        (
            "output",
            obj(vec![
                ("data", JsonValue::Arr(data)),
                ("duration", JsonValue::Num("0.2".to_owned())),
            ]),
        ),
        ("success", JsonValue::Bool(true)),
    ]))
}

#[test]
fn queued_then_processing_then_success_yields_the_single_value() {
    let msgs = vec![
        QueueDataMessage::Open,
        estimation(),
        process_starts(),
        completed_with(vec![s("Hello Jacob")]),
    ];
    let mut outs = predict_outcome(&msgs).unwrap();
    assert_eq!(outs.len(), 1);
    assert!(outs[0].is_value());
    let v = outs.remove(0).as_value().unwrap();
    assert_eq!(v.as_str().unwrap(), "Hello Jacob");
}

#[test]
fn stream_ending_without_a_terminal_message_is_a_protocol_error() {
    let msgs = vec![QueueDataMessage::Open, estimation(), process_starts()];
    let e = predict_outcome(&msgs).unwrap_err();
    match e {
        GradioError::Protocol(m) => assert_eq!(m, "Stream ended unexpectedly"),
        other => panic!("expected a protocol error, got {:?}", other),
    }
}

#[test]
fn completed_error_fails_with_the_server_message() {
    let msg = classify(obj(vec![
        ("msg", s("process_completed")),
        ("event_id", s("ev1")),
        ("output", obj(vec![("error", s("model exploded"))])),
        ("success", JsonValue::Bool(false)),
    ]));
    let e = predict_outcome(&vec![msg]).unwrap_err();
    match e {
        GradioError::RemoteExecution(m) => assert_eq!(m, "model exploded"),
        other => panic!("expected a remote execution error, got {:?}", other),
    }
}

#[test]
fn completed_error_without_text_uses_the_generic_fallback() {
    let msg = classify(obj(vec![
        ("msg", s("process_completed")),
        ("event_id", s("ev1")),
        ("output", obj(vec![])),
        ("success", JsonValue::Bool(false)),
    ]));
    let e = predict_outcome(&vec![msg]).unwrap_err();
    match e {
        GradioError::RemoteExecution(m) => assert_eq!(m, "Unknown error"),
        other => panic!("expected a remote execution error, got {:?}", other),
    }
}

#[test]
fn unexpected_server_error_fails_with_its_message() {
    let msg = classify(obj(vec![("msg", s("unexpected_error")), ("message", s("bad day"))]));
    let e = predict_outcome(&vec![estimation(), msg]).unwrap_err();
    match e {
        GradioError::RemoteExecution(m) => assert_eq!(m, "bad day"),
        other => panic!("expected a remote execution error, got {:?}", other),
    }
}

#[test]
fn unexpected_server_error_without_text_uses_the_generic_fallback() {
    let msg = classify(obj(vec![("msg", s("unexpected_error"))]));
    let e = predict_outcome(&vec![msg]).unwrap_err();
    match e {
        GradioError::RemoteExecution(m) => assert_eq!(m, "Unexpected error"),
        other => panic!("expected a remote execution error, got {:?}", other),
    }
}

#[test]
fn non_terminal_messages_are_drained_past() {
    assert!(matches!(predict_step(&QueueDataMessage::Open), PredictStep::KeepWaiting));
    assert!(matches!(predict_step(&estimation()), PredictStep::KeepWaiting));
    assert!(matches!(predict_step(&process_starts()), PredictStep::KeepWaiting));
    let unknown = classify(obj(vec![("msg", s("close_stream"))]));
    assert!(matches!(predict_step(&unknown), PredictStep::KeepWaiting));
}

#[test]
fn first_terminal_message_decides() {
    let msgs = vec![
        completed_with(vec![s("first")]),
        completed_with(vec![s("second")]),
    ];
    let mut outs = predict_outcome(&msgs).unwrap();
    assert_eq!(outs.len(), 1);
    let v = outs.remove(0).as_value().unwrap();
    assert_eq!(v.as_str().unwrap(), "first");
}

#[test]
fn file_shaped_outputs_come_back_as_files() {
    let env = gradio::data::file_envelope("/srv/out.wav", "out.wav");
    let msgs = vec![completed_with(vec![env, s("caption")])];
    let outs = predict_outcome(&msgs).unwrap();
    assert_eq!(outs.len(), 2);
    assert!(outs[0].is_file());
    assert!(outs[1].is_value());
}
