use gradio::stream::{
    cancel_url, data_url, interpret_join_response, join_payload, join_url, reset_url, NextAction,
    StreamEvent,
};
use gradio::structs::QueueDataMessage;
use gradio::{GradioError, JsonValue, PredictionStream};

fn obj(fields: Vec<(&str, JsonValue)>) -> JsonValue {
    JsonValue::Obj(fields.into_iter().map(|(k, v)| (k.to_owned(), v)).collect())
}

fn s(t: &str) -> JsonValue {
    JsonValue::Str(t.to_owned())
}

fn session() -> PredictionStream {
    PredictionStream::create("https://x", "hash0123ab".to_owned(), 4, "evA".to_owned())
}

fn message_event(body: JsonValue) -> StreamEvent {
    StreamEvent::Message { raw: "raw".to_owned(), parsed: Some(body) }
}

#[test]
fn join_payload_carries_index_data_and_session() {
    let p = join_payload(4, vec![s("hi")], "hash0123ab");
    assert_eq!(p.get("fn_index").unwrap().as_i64().unwrap(), 4);
    assert_eq!(
        p.get("session_hash").unwrap().as_str().unwrap(),
        "hash0123ab"
    );
    let data = p.get("data").unwrap().as_arr().unwrap();
    assert_eq!(data.len(), 1);
    assert_eq!(data[0].as_str().unwrap(), "hi");
}

#[test]
fn endpoint_urls_are_formed_under_the_api_root() {
    assert_eq!(join_url("https://x"), "https://x/queue/join");
    assert_eq!(
        data_url("https://x", "hash0123ab"),
        "https://x/queue/data?session_hash=hash0123ab"
    );
    assert_eq!(cancel_url("https://x"), "https://x/cancel");
    assert_eq!(reset_url("https://x"), "https://x/reset");
}

#[test]
fn join_response_yields_the_event_identifier() {
    let body = obj(vec![("event_id", s("ev9"))]);
    assert_eq!(interpret_join_response(true, Some(&body)).unwrap(), "ev9");
}

#[test]
fn rejected_join_is_a_queue_join_error() {
    let body = obj(vec![("event_id", s("ev9"))]);
    let e = interpret_join_response(false, Some(&body)).unwrap_err();
    assert!(matches!(e, GradioError::QueueJoin(_)));
    let e = interpret_join_response(true, None).unwrap_err();
    assert!(matches!(e, GradioError::QueueJoin(_)));
    let e = interpret_join_response(true, Some(&obj(vec![]))).unwrap_err();
    assert!(matches!(e, GradioError::QueueJoin(_)));
}

#[test]
fn stream_open_is_surfaced() {
    match session().handle_event(&StreamEvent::Opened) {
        NextAction::Surface(QueueDataMessage::Open) => {},
        other => panic!("expected the open marker, got {:?}", other),
    }
}

#[test]
fn messages_for_another_event_are_never_surfaced() {
    let body = obj(vec![("msg", s("process_starts")), ("event_id", s("evB"))]);
    match session().handle_event(&message_event(body)) {
        NextAction::Skip => {},
        other => panic!("a foreign message must be skipped, got {:?}", other),
    }
}

#[test]
fn messages_for_own_event_are_surfaced() {
    let body = obj(vec![("msg", s("process_starts")), ("event_id", s("evA"))]);
    match session().handle_event(&message_event(body)) {
        NextAction::Surface(QueueDataMessage::ProcessStarts { event_id, .. }) => {
            assert_eq!(event_id, "evA");
        },
        other => panic!("expected the message surfaced, got {:?}", other),
    }
}

#[test]
fn heartbeats_are_silently_skipped() {
    let body = obj(vec![("msg", s("heartbeat"))]);
    assert!(matches!(
        session().handle_event(&message_event(body)),
        NextAction::Skip
    ));
}

#[test]
fn unrecognized_messages_are_surfaced_as_data() {
    let body = obj(vec![("msg", s("brand_new_kind"))]);
    match session().handle_event(&message_event(body)) {
        NextAction::Surface(QueueDataMessage::Unknown(_)) => {},
        other => panic!("expected the unknown body surfaced, got {:?}", other),
    }
}

#[test]
fn malformed_body_is_a_protocol_error_naming_the_payload() {
    let ev = StreamEvent::Message { raw: "{not json".to_owned(), parsed: None };
    match session().handle_event(&ev) {
        NextAction::Fail(GradioError::Protocol(m)) => {
            assert_eq!(m, "Server Error: {not json");
        },
        other => panic!("expected a protocol failure, got {:?}", other),
    }
}

#[test]
fn transport_failure_is_a_stream_error() {
    let ev = StreamEvent::TransportError("connection reset".to_owned());
    match session().handle_event(&ev) {
        NextAction::Fail(GradioError::Stream(m)) => {
            assert_eq!(m, "Client Error: connection reset");
        },
        other => panic!("expected a stream failure, got {:?}", other),
    }
}

#[test]
fn stream_end_is_reported() {
    assert!(matches!(
        session().handle_event(&StreamEvent::Closed),
        NextAction::End
    ));
}

#[test]
fn cancel_payloads_name_the_invocation() {
    let st = session();
    let c = st.cancel_payload();
    assert_eq!(c.get("event_id").unwrap().as_str().unwrap(), "evA");
    assert_eq!(
        c.get("session_hash").unwrap().as_str().unwrap(),
        "hash0123ab"
    );
    assert_eq!(c.get("fn_index").unwrap().as_i64().unwrap(), 4);
    let r = st.reset_payload();
    assert_eq!(r.get("event_id").unwrap().as_str().unwrap(), "evA");
}

#[test]
fn cancel_succeeds_even_when_both_notifications_fail() {
    let mut st = session();
    let r = st.cancel(true, true);
    assert!(r.is_ok());
    assert!(st.closed);
    let mut st2 = session();
    assert!(st2.cancel(false, false).is_ok());
    assert!(st2.closed);
}

#[test]
fn session_hash_is_ten_alphanumerics() {
    let h = gradio::ids::new_session_hash();
    assert_eq!(h.len(), 10);
    assert!(h.chars().all(|c| c.is_ascii_alphanumeric()));
    let h2 = gradio::ids::new_session_hash();
    assert_eq!(h2.len(), 10);
}

#[test]
fn file_input_flows_into_the_join_payload_as_an_envelope() {
    let inputs = vec![gradio::PredictionInput::from_file_data("clip.wav", vec![1u8, 2])];
    let plan = gradio::data::collect_uploads(&inputs).unwrap();
    assert_eq!(plan.len(), 1, "the upload happens before the join");
    let server_paths = vec!["/srv/upload/clip.wav".to_owned()];
    let marshaled = gradio::data::marshal_inputs(&inputs, &server_paths).unwrap();
    let payload = join_payload(2, marshaled, "hash0123ab");
    let slot = &payload.get("data").unwrap().as_arr().unwrap()[0];
    assert!(slot.get("path").is_some(), "the slot is the envelope, not raw bytes");
    assert_eq!(slot.get("path").unwrap().as_str().unwrap(), "/srv/upload/clip.wav");
    assert_eq!(slot.get("orig_name").unwrap().as_str().unwrap(), "clip.wav");
    assert_eq!(
        slot.get("meta").unwrap().get("_type").unwrap().as_str().unwrap(),
        "gradio.FileData"
    );
}
