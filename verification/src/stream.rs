//! The queue session for one invocation: the join request, the handling of
//! the multiplexed event stream — every message filtered by the session's
//! own event identifier — and best-effort cancellation.

use vstd::prelude::*;

verus! {

broadcast use vstd::std_specs::vec::group_vec_axioms, vstd::seq::group_seq_axioms, vstd::string::group_string_axioms;

use crate::data::spec_json_views;
use crate::error::GradioError;
use crate::error::spec_message;
use crate::json::JsonValue;
use crate::json::JsonModel;
use crate::json::spec_str_field;
use crate::json::lemma_obj_model;
use crate::structs::QueueDataMessage;
use crate::structs::QueueJoinResponse;
use crate::structs::spec_message_matches;
use crate::structs::spec_message_event_id;
use crate::structs::spec_join_response_ok;
use crate::strutil::concat_str;
use crate::strutil::str_eq;
use vstd::string::StringExecFns;

/// The state of one queued invocation: where it runs, the identifiers that
/// scope its traffic, and whether its stream is locally closed.
#[derive(Debug)]
pub struct PredictionStream {
    pub api_root: String,
    pub session_hash: String,
    pub event_id: String,
    pub fn_index: i64,
    pub closed: bool,
}

/// The queue-join request body: `{fn_index, data, session_hash}`.
pub open spec fn spec_join_payload(
    fn_index: i64,
    data: Seq<JsonModel>,
    session_hash: Seq<char>,
) -> JsonModel {
    JsonModel::Obj(
        seq![
            ("fn_index"@, JsonModel::Int(fn_index)),
            ("data"@, JsonModel::Arr(data)),
            ("session_hash"@, JsonModel::Str(session_hash)),
        ],
    )
}

/// Build the queue-join request body from the marshaled inputs.
pub fn join_payload(fn_index: i64, data: Vec<JsonValue>, session_hash: &str) -> (r: JsonValue)
    ensures
        r@ == spec_join_payload(fn_index, spec_json_views(data@), session_hash@),
{
    let ghost data_views = spec_json_views(data@);
    let data_value = JsonValue::Arr(data);
    proof {
        crate::json::lemma_arr_model(data_value->Arr_0, data_views);
    }
    let mut fields: Vec<(String, JsonValue)> = Vec::new();
    fields.push(("fn_index".to_owned(), JsonValue::Int(fn_index)));
    fields.push(("data".to_owned(), data_value));
    fields.push(("session_hash".to_owned(), JsonValue::Str(session_hash.to_owned())));
    let r = JsonValue::Obj(fields);
    proof {
        lemma_obj_model(
            fields,
            seq![
                ("fn_index"@, JsonModel::Int(fn_index)),
                ("data"@, JsonModel::Arr(data_views)),
                ("session_hash"@, JsonModel::Str(session_hash@)),
            ],
        );
    }
    r
}

/// The queue-join endpoint under an API root.
pub fn join_url(api_root: &str) -> (r: String)
    ensures
        r@ == api_root@ + "/"@ + "queue/join"@,
{
    crate::strutil::path_join(api_root, "queue/join")
}

/// The event-stream endpoint under an API root, scoped by the session
/// identifier.
pub fn data_url(api_root: &str, session_hash: &str) -> (r: String)
    ensures
        r@ == api_root@ + "/"@ + "queue/data?session_hash="@ + session_hash@,
{
    let mut s: String = api_root.to_owned();
    s.append("/");
    s.append("queue/data?session_hash=");
    s.append(session_hash);
    proof {
        assert(s@ =~= api_root@ + "/"@ + "queue/data?session_hash="@ + session_hash@);
    }
    s
}

/// The cancel endpoint under an API root.
pub fn cancel_url(api_root: &str) -> (r: String)
    ensures
        r@ == api_root@ + "/"@ + "cancel"@,
{
    crate::strutil::path_join(api_root, "cancel")
}

/// The reset endpoint under an API root.
pub fn reset_url(api_root: &str) -> (r: String)
    ensures
        r@ == api_root@ + "/"@ + "reset"@,
{
    crate::strutil::path_join(api_root, "reset")
}

/// Interpret the queue-join response: a non-success status or a body
/// without an event identifier rejects the join; otherwise the event
/// identifier scopes the rest of the invocation.
pub fn interpret_join_response(status_ok: bool, body: Option<&JsonValue>) -> (r: Result<
    String,
    GradioError,
>)
    ensures
        match r {
            Ok(event_id) => {
                &&& status_ok
                &&& body matches Some(b) && spec_str_field(b@, "event_id"@) == Some(event_id@)
            },
            Err(e) => {
                &&& e is QueueJoin
                &&& (!status_ok || body is None || (body matches Some(b) && !spec_join_response_ok(
                    b@,
                )))
            },
        },
{
    if !status_ok {
        return Err(GradioError::QueueJoin("Cannot join task queue".to_owned()));
    }
    match body {
        None => Err(GradioError::QueueJoin("Cannot join task queue".to_owned())),
        Some(v) => match QueueJoinResponse::from_json(v) {
            Some(j) => Ok(j.event_id),
            None => Err(GradioError::QueueJoin("Cannot join task queue".to_owned())),
        },
    }
}

/// One observation on the event-stream connection, as the transport hands
/// it over: the stream opened, a message arrived (with its body parsed
/// when the raw text was well-formed JSON), the transport failed, or the
/// stream ended.
#[derive(Debug)]
pub enum StreamEvent {
    Opened,
    Message { raw: String, parsed: Option<JsonValue> },
    TransportError(String),
    Closed,
}

/// What the session does with one observation.
#[derive(Debug)]
pub enum NextAction {
    /// Consume silently and read the next observation.
    Skip,
    /// Surface this message to the caller.
    Surface(QueueDataMessage),
    /// The stream failed for this invocation.
    Fail(GradioError),
    /// The stream ended.
    End,
}

/// How a well-formed message body is handled by a session bound to `own`:
/// heartbeats are consumed silently; unrecognized bodies are surfaced
/// whole; a body tagged with another invocation's identifier is consumed
/// silently and never surfaced; everything tagged with `own`, and a server
/// error without an identifier, is surfaced as its classified message.
pub open spec fn spec_handle_message(r: NextAction, m: JsonModel, own: Seq<char>) -> bool {
    &&& (crate::structs::spec_heartbeat_shape(m) ==> r is Skip)
    &&& (crate::structs::spec_unrecognized(m) ==> (r matches NextAction::Surface(msg) && msg
        matches QueueDataMessage::Unknown(u) && u@ == m))
    &&& (r matches NextAction::Surface(msg) ==> (!(msg is Unknown) ==> spec_message_matches(
        msg,
        m,
    )))
    &&& (r matches NextAction::Surface(msg) ==> (spec_message_event_id(msg) is None
        || spec_message_event_id(msg) == Some(own)))
    &&& (!crate::structs::spec_heartbeat_shape(m) ==> ({
        ||| r is Surface
        ||| (exists|msg: QueueDataMessage|
            spec_message_matches(msg, m) && (spec_message_event_id(msg) matches Some(id) && id
                != own))
    }))
    &&& (r is Skip || r is Surface)
}

impl PredictionStream {
    /// Assemble the session for one joined invocation; its stream starts
    /// open.
    pub fn create(api_root: &str, session_hash: String, fn_index: i64, event_id: String) -> (r:
        PredictionStream)
        ensures
            r.api_root@ == api_root@,
            r.session_hash == session_hash,
            r.fn_index == fn_index,
            r.event_id == event_id,
            !r.closed,
    {
        PredictionStream {
            api_root: api_root.to_owned(),
            session_hash,
            event_id,
            fn_index,
            closed: false,
        }
    }

    /// Handle one observation from the stream. The stream-opened event is
    /// surfaced; a transport failure is a fatal stream error; a malformed
    /// body is a fatal protocol error naming the raw payload; the end of
    /// the stream is reported as such; a well-formed body is classified
    /// and filtered by this session's event identifier.
    pub fn handle_event(&self, ev: &StreamEvent) -> (r: NextAction)
        ensures
            match *ev {
                StreamEvent::Opened => r matches NextAction::Surface(msg) && msg is Open,
                StreamEvent::Closed => r is End,
                StreamEvent::TransportError(t) => r matches NextAction::Fail(e) && e is Stream
                    && spec_message(e) == "Client Error: "@ + t@,
                StreamEvent::Message { raw, parsed } => match parsed {
                    None => r matches NextAction::Fail(e) && e is Protocol && spec_message(e)
                        == "Server Error: "@ + raw@,
                    Some(v) => spec_handle_message(r, v@, self.event_id@),
                },
            },
    {
        match ev {
            StreamEvent::Opened => NextAction::Surface(QueueDataMessage::Open),
            StreamEvent::Closed => NextAction::End,
            StreamEvent::TransportError(t) => NextAction::Fail(
                GradioError::Stream(concat_str("Client Error: ", t.as_str())),
            ),
            StreamEvent::Message { raw, parsed } => match parsed {
                None => NextAction::Fail(
                    GradioError::Protocol(concat_str("Server Error: ", raw.as_str())),
                ),
                Some(v) => {
                    proof {
                        crate::structs::lemma_tag_lengths();
                    }
                    let msg = QueueDataMessage::classify(v);
                    match msg.event_id() {
                        Some(id) => {
                            if str_eq(id.as_str(), self.event_id.as_str()) {
                                NextAction::Surface(msg)
                            } else {
                                proof {
                                    assert(spec_message_matches(msg, v@) && (spec_message_event_id(
                                        msg,
                                    ) matches Some(b) && b != self.event_id@));
                                }
                                NextAction::Skip
                            }
                        },
                        None => {
                            if matches!(msg, QueueDataMessage::Heartbeat) {
                                NextAction::Skip
                            } else {
                                NextAction::Surface(msg)
                            }
                        },
                    }
                },
            },
        }
    }

    /// The cancel request body for this invocation.
    pub fn cancel_payload(&self) -> (r: JsonValue)
        ensures
            r@ == JsonModel::Obj(
                seq![
                    ("event_id"@, JsonModel::Str(self.event_id@)),
                    ("session_hash"@, JsonModel::Str(self.session_hash@)),
                    ("fn_index"@, JsonModel::Int(self.fn_index)),
                ],
            ),
    {
        let mut fields: Vec<(String, JsonValue)> = Vec::new();
        fields.push(("event_id".to_owned(), JsonValue::Str(self.event_id.clone())));
        fields.push(("session_hash".to_owned(), JsonValue::Str(self.session_hash.clone())));
        fields.push(("fn_index".to_owned(), JsonValue::Int(self.fn_index)));
        let r = JsonValue::Obj(fields);
        proof {
            lemma_obj_model(
                fields,
                seq![
                    ("event_id"@, JsonModel::Str(self.event_id@)),
                    ("session_hash"@, JsonModel::Str(self.session_hash@)),
                    ("fn_index"@, JsonModel::Int(self.fn_index)),
                ],
            );
        }
        r
    }

    /// The reset request body for this invocation.
    pub fn reset_payload(&self) -> (r: JsonValue)
        ensures
            r@ == JsonModel::Obj(seq![("event_id"@, JsonModel::Str(self.event_id@))]),
    {
        let mut fields: Vec<(String, JsonValue)> = Vec::new();
        fields.push(("event_id".to_owned(), JsonValue::Str(self.event_id.clone())));
        let r = JsonValue::Obj(fields);
        proof {
            lemma_obj_model(fields, seq![("event_id"@, JsonModel::Str(self.event_id@))]);
        }
        r
    }

    /// Record a cancellation: the local stream is closed — the one
    /// guaranteed effect — and the outcomes of the two best-effort server
    /// notifications are taken and swallowed, so cancellation succeeds
    /// whether or not either notification could be delivered.
    pub fn cancel(&mut self, cancel_notify_failed: bool, reset_notify_failed: bool) -> (r: Result<
        (),
        GradioError,
    >)
        ensures
            r is Ok,
            final(self).closed,
            final(self).api_root == old(self).api_root,
            final(self).session_hash == old(self).session_hash,
            final(self).event_id == old(self).event_id,
            final(self).fn_index == old(self).fn_index,
    {
        self.closed = true;
        Ok(())
    }
}

/// A session bound to one event identifier never surfaces a message tagged
/// with a different identifier: whatever else arrives on the shared
/// stream, a surfaced message either carries no identifier at all or
/// carries the session's own.
pub proof fn lemma_stream_demultiplexes(
    r: NextAction,
    m: JsonModel,
    own: Seq<char>,
    other: Seq<char>,
)
    requires
        spec_handle_message(r, m, own),
        other != own,
    ensures
        r matches NextAction::Surface(msg) ==> spec_message_event_id(msg) != Some(other),
{
}

} // verus!
