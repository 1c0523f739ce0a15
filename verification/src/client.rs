//! The client: its construction parts, capability negotiation, route
//! resolution against the negotiated route table, and the decisions of the
//! high-level predict drain over the stream's messages.

use vstd::prelude::*;

verus! {

broadcast use vstd::std_specs::vec::group_vec_axioms, vstd::seq::group_seq_axioms, vstd::string::group_string_axioms;

use crate::data::PredictionOutput;
use crate::data::spec_output_decode_matches;
use crate::error::GradioError;
use crate::error::spec_message;
use crate::json::JsonValue;
use crate::structs::AppConfig;
use crate::structs::ApiInfo;
use crate::structs::Dependency;
use crate::structs::EndpointInfo;
use crate::structs::QueueDataMessage;
use crate::structs::QueueDataMessageOutput;
use crate::structs::UNSET_ROUTE_ID;
use crate::structs::spec_app_config_ok;
use crate::structs::spec_app_config_matches;
use crate::structs::spec_api_info_ok;
use crate::structs::spec_api_info_matches;
use crate::strutil::concat_str;
use crate::strutil::path_join;
use crate::strutil::str_eq;
use crate::strutil::str_starts_with;
use crate::strutil::trim_leading_slashes;
use crate::strutil::spec_trim_leading_slashes;
use vstd::string::StringExecFns;

/// Options for constructing a client: a bearer token applied to every
/// request, or a username and password for the login exchange.
pub struct ClientOptions {
    pub hf_token: Option<String>,
    pub auth: Option<(String, String)>,
}

impl ClientOptions {
    /// Options carrying a bearer token.
    pub fn with_hf_token(hf_token: String) -> (r: ClientOptions)
        ensures
            r.hf_token matches Some(t) && t == hf_token,
            r.auth is None,
    {
        ClientOptions { hf_token: Some(hf_token), auth: None }
    }

    /// Options carrying login credentials.
    pub fn with_auth(username: String, password: String) -> (r: ClientOptions)
        ensures
            r.hf_token is None,
            r.auth matches Some(a) && a.0 == username && a.1 == password,
    {
        ClientOptions { hf_token: None, auth: Some((username, password)) }
    }
}

impl Default for ClientOptions {
    /// Options with neither token nor credentials.
    fn default() -> (r: Self)
        ensures
            r.hf_token is None,
            r.auth is None,
    {
        ClientOptions { hf_token: None, auth: None }
    }
}

/// One connected client: its session identifier, the resolved API root,
/// the optional logical space id, and the negotiated configuration and
/// capability schema. Immutable once assembled.
pub struct Client {
    pub session_hash: String,
    pub jwt: Option<String>,
    pub api_root: String,
    pub space_id: Option<String>,
    pub config: AppConfig,
    pub api_info: ApiInfo,
}

impl Client {
    /// Assemble a client from its negotiated parts.
    pub fn from_parts(
        session_hash: String,
        api_root: String,
        space_id: Option<String>,
        config: AppConfig,
        api_info: ApiInfo,
    ) -> (r: Client)
        ensures
            r.session_hash == session_hash,
            r.jwt is None,
            r.api_root == api_root,
            r.space_id == space_id,
            r.config == config,
            r.api_info == api_info,
    {
        Client { session_hash, jwt: None, api_root, space_id, config, api_info }
    }

    /// The negotiated configuration.
    pub fn view_config(&self) -> (r: &AppConfig)
        ensures
            *r == self.config,
    {
        &self.config
    }

    /// The negotiated capability schema.
    pub fn view_api(&self) -> (r: &ApiInfo)
        ensures
            *r == self.api_info,
    {
        &self.api_info
    }
}

/// The configuration endpoint under an API root.
pub fn config_url(api_root: &str) -> (r: String)
    ensures
        r@ == api_root@ + "/"@ + "config"@,
{
    path_join(api_root, "config")
}

/// The capability-schema endpoint under an API root.
pub fn api_info_url(api_root: &str) -> (r: String)
    ensures
        r@ == api_root@ + "/"@ + "info"@,
{
    path_join(api_root, "info")
}

/// The login endpoint under an API root.
pub fn login_url(api_root: &str) -> (r: String)
    ensures
        r@ == api_root@ + "/"@ + "login"@,
{
    path_join(api_root, "login")
}

/// The upload endpoint under an API root.
pub fn upload_url(api_root: &str) -> (r: String)
    ensures
        r@ == api_root@ + "/"@ + "upload"@,
{
    path_join(api_root, "upload")
}

/// Interpret the login response: only a success status authenticates.
pub fn interpret_login_response(status_ok: bool) -> (r: Result<(), GradioError>)
    ensures
        match r {
            Ok(unit) => status_ok,
            Err(e) => !status_ok && e is Authentication && spec_message(e) == "Login failed"@,
        },
{
    if status_ok {
        Ok(())
    } else {
        Err(GradioError::Authentication("Login failed".to_owned()))
    }
}

/// Interpret the configuration response: a non-success status or a body
/// that does not decode as a configuration is a fatal configuration fetch
/// error.
pub fn interpret_config_response(status_ok: bool, body: Option<&JsonValue>) -> (r: Result<
    AppConfig,
    GradioError,
>)
    ensures
        match r {
            Ok(c) => {
                &&& status_ok
                &&& body matches Some(b) && spec_app_config_ok(b@) && spec_app_config_matches(
                    c,
                    b@,
                )
            },
            Err(e) => {
                &&& e is ConfigFetch
                &&& (!status_ok || body is None || (body matches Some(b) && !spec_app_config_ok(
                    b@,
                )))
            },
        },
{
    if !status_ok {
        return Err(GradioError::ConfigFetch("Could not resolve app config".to_owned()));
    }
    match body {
        None => Err(GradioError::ConfigFetch("Could not resolve app config".to_owned())),
        Some(v) => match AppConfig::from_json(v) {
            Some(c) => Ok(c),
            None => Err(GradioError::ConfigFetch("Could not resolve app config".to_owned())),
        },
    }
}

/// Interpret the capability-schema response: a non-success status or a
/// body that does not decode as a schema is a fatal capability fetch
/// error, distinct from a configuration fetch error.
pub fn interpret_api_info_response(status_ok: bool, body: Option<&JsonValue>) -> (r: Result<
    ApiInfo,
    GradioError,
>)
    ensures
        match r {
            Ok(a) => {
                &&& status_ok
                &&& body matches Some(b) && spec_api_info_ok(b@) && spec_api_info_matches(a, b@)
            },
            Err(e) => {
                &&& e is CapabilityFetch
                &&& (!status_ok || body is None || (body matches Some(b) && !spec_api_info_ok(b@)))
            },
        },
{
    if !status_ok {
        return Err(GradioError::CapabilityFetch("Could not get API info".to_owned()));
    }
    match body {
        None => Err(GradioError::CapabilityFetch("Could not get API info".to_owned())),
        Some(v) => match ApiInfo::from_json(v) {
            Some(a) => Ok(a),
            None => Err(GradioError::CapabilityFetch("Could not get API info".to_owned())),
        },
    }
}

/// Whether the service's declared protocol version is one this client was
/// validated against. A version outside the set only warrants a warning;
/// it never blocks operation.
pub fn version_supported(version: &str) -> (r: bool)
    ensures
        r == ("4."@.is_prefix_of(version@) || "5."@.is_prefix_of(version@)),
{
    str_starts_with(version, "4.") || str_starts_with(version, "5.")
}

/// The API root with the configuration's declared path prefix appended,
/// when it declares one.
pub fn apply_api_prefix(api_root: &str, config: &AppConfig) -> (r: String)
    ensures
        match config.api_prefix {
            Some(p) => r@ == api_root@ + p@,
            None => r@ == api_root@,
        },
{
    match &config.api_prefix {
        Some(p) => concat_str(api_root, p.as_str()),
        None => api_root.to_owned(),
    }
}

/// The first route table entry named `name`, searching from position `i`.
pub open spec fn spec_find_route(deps: Seq<Dependency>, name: Seq<char>, i: int) -> Option<int>
    decreases deps.len() - i,
{
    if i < 0 || i >= deps.len() {
        None
    } else if deps[i].api_name@ == name {
        Some(i)
    } else {
        spec_find_route(deps, name, i + 1)
    }
}

/// The execution index that the route named `name` resolves to: the
/// matched entry's declared id, except that the unset sentinel is replaced
/// by the entry's zero-based position in the table.
pub open spec fn spec_resolved_index(deps: Seq<Dependency>, name: Seq<char>) -> Option<int> {
    match spec_find_route(deps, name, 0) {
        Some(i) => Some(
            if deps[i].id == UNSET_ROUTE_ID {
                i
            } else {
                deps[i].id as int
            },
        ),
        None => None,
    }
}

/// Resolve a route name — its leading slashes stripped — to its numeric
/// execution index in the configuration's route table; an absent name is a
/// route-not-found error.
#[verifier::loop_isolation(false)]
pub fn resolve_fn_index(config: &AppConfig, route: &str) -> (r: Result<i64, GradioError>)
    requires
        config.dependencies@.len() <= i64::MAX,
    ensures
        ({
            let name = spec_trim_leading_slashes(route@);
            match r {
                Ok(idx) => spec_resolved_index(config.dependencies@, name) == Some(idx as int),
                Err(e) => e is RouteNotFound && spec_resolved_index(config.dependencies@, name)
                    is None,
            }
        }),
{
    let name = trim_leading_slashes(route);
    let deps = &config.dependencies;
    let mut i: usize = 0;
    while i < deps.len()
        invariant
            i <= deps@.len(),
            spec_find_route(deps@, name@, 0) == spec_find_route(deps@, name@, i as int),
        decreases deps@.len() - i,
    {
        if str_eq(deps[i].api_name.as_str(), name) {
            if deps[i].id == UNSET_ROUTE_ID {
                return Ok(i as i64);
            } else {
                return Ok(deps[i].id);
            }
        }
        i += 1;
    }
    Err(GradioError::RouteNotFound("Invalid route".to_owned()))
}

/// A route found at position `i` lies in the table and bears the name.
proof fn lemma_find_route_bounds(deps: Seq<Dependency>, name: Seq<char>, j: int)
    requires
        spec_find_route(deps, name, j) is Some,
    ensures
        spec_find_route(deps, name, j) matches Some(i) && j <= i < deps.len() && deps[i].api_name@
            == name,
    decreases deps.len() - j,
{
    if !(j < 0 || j >= deps.len()) && deps[j].api_name@ != name {
        lemma_find_route_bounds(deps, name, j + 1);
    }
}

/// A route whose declared id is the unset sentinel resolves to its
/// zero-based position among the declared routes — never to the sentinel
/// value itself.
pub proof fn lemma_unset_id_resolves_to_position(deps: Seq<Dependency>, name: Seq<char>)
    requires
        spec_find_route(deps, name, 0) matches Some(i) && deps[i].id == UNSET_ROUTE_ID,
    ensures
        spec_find_route(deps, name, 0) matches Some(i) && spec_resolved_index(deps, name) == Some(
            i,
        ) && i >= 0 && i != UNSET_ROUTE_ID as int,
{
    lemma_find_route_bounds(deps, name, 0);
}

impl EndpointInfo {
    /// Check that the caller supplied a value for every declared
    /// parameter; fewer values than parameters is a count mismatch error.
    pub fn check_parameter_count(&self, supplied: usize) -> (r: Result<(), GradioError>)
        ensures
            match r {
                Ok(unit) => supplied >= self.parameters@.len(),
                Err(e) => e is ParameterCountMismatch && supplied < self.parameters@.len(),
            },
    {
        if supplied < self.parameters.len() {
            Err(
                GradioError::ParameterCountMismatch(
                    "Fewer values than declared parameters".to_owned(),
                ),
            )
        } else {
            Ok(())
        }
    }
}

/// What the predict drain does after one surfaced message.
pub enum PredictStep {
    /// Not a terminal message: keep draining.
    KeepWaiting,
    /// The invocation completed: the decoded outputs, in order.
    Finished(Vec<PredictionOutput>),
    /// The invocation failed on the server.
    Failed(GradioError),
}

/// `r` is the drain's decision on `msg`: a successful completion yields
/// every output element classified in order; a completion carrying an
/// error, and an unexpected server error, fail with the server's message
/// or a generic fallback; every other message is drained past.
pub open spec fn spec_predict_step_matches(r: PredictStep, msg: QueueDataMessage) -> bool {
    match msg {
        QueueDataMessage::ProcessCompleted { event_id, output, success } => match output {
            QueueDataMessageOutput::Success { data, duration } => r matches PredictStep::Finished(
                outs,
            ) && outs@.len() == data@.len() && (forall|i: int|
                #![trigger outs@[i]]
                #![trigger data@[i]]
                0 <= i < data@.len() ==> spec_output_decode_matches(outs@[i], data@[i]@)),
            QueueDataMessageOutput::Error { error } => r matches PredictStep::Failed(e) && e
                is RemoteExecution && spec_message(e) == (match error {
                Some(t) => t@,
                None => "Unknown error"@,
            }),
        },
        QueueDataMessage::UnexpectedError { event_id, message } => r matches PredictStep::Failed(
            e,
        ) && e is RemoteExecution && spec_message(e) == (match message {
            Some(t) => t@,
            None => "Unexpected error"@,
        }),
        _ => r is KeepWaiting,
    }
}

/// Decide what one surfaced message means for the predict drain.
#[verifier::loop_isolation(false)]
pub fn predict_step(msg: &QueueDataMessage) -> (r: PredictStep)
    ensures
        spec_predict_step_matches(r, *msg),
{
    match msg {
        QueueDataMessage::ProcessCompleted { event_id, output, success } => match output {
            QueueDataMessageOutput::Success { data, duration } => {
                let mut outs: Vec<PredictionOutput> = Vec::new();
                let mut i: usize = 0;
                while i < data.len()
                    invariant
                        i <= data@.len(),
                        outs@.len() == i,
                        forall|j: int|
                            #![trigger outs@[j]]
                            #![trigger data@[j]]
                            0 <= j < i ==> spec_output_decode_matches(outs@[j], data@[j]@),
                    decreases data@.len() - i,
                {
                    outs.push(PredictionOutput::decode(&data[i]));
                    i += 1;
                }
                PredictStep::Finished(outs)
            },
            QueueDataMessageOutput::Error { error } => {
                let text: String = match error {
                    Some(t) => t.clone(),
                    None => "Unknown error".to_owned(),
                };
                PredictStep::Failed(GradioError::RemoteExecution(text))
            },
        },
        QueueDataMessage::UnexpectedError { event_id, message } => {
            let text: String = match message {
                Some(t) => t.clone(),
                None => "Unexpected error".to_owned(),
            };
            PredictStep::Failed(GradioError::RemoteExecution(text))
        },
        _ => PredictStep::KeepWaiting,
    }
}

/// A message that ends the drain: a completion, or an unexpected server
/// error.
pub open spec fn spec_is_terminal(msg: QueueDataMessage) -> bool {
    msg is ProcessCompleted || msg is UnexpectedError
}

/// The position of the first terminal message of `s` at or after `i`.
pub open spec fn spec_first_terminal(s: Seq<QueueDataMessage>, i: int) -> Option<int>
    decreases s.len() - i,
{
    if i < 0 || i >= s.len() {
        None
    } else if spec_is_terminal(s[i]) {
        Some(i)
    } else {
        spec_first_terminal(s, i + 1)
    }
}

/// Drain a finished sequence of surfaced messages: every non-terminal
/// message is ignored; the first terminal message decides the outcome; a
/// sequence with no terminal message at all is a protocol error — a
/// well-behaved server always ends an invocation with success or failure.
#[verifier::loop_isolation(false)]
pub fn predict_outcome(msgs: &Vec<QueueDataMessage>) -> (r: Result<
    Vec<PredictionOutput>,
    GradioError,
>)
    ensures
        match spec_first_terminal(msgs@, 0) {
            Some(t) => match r {
                Ok(outs) => spec_predict_step_matches(PredictStep::Finished(outs), msgs@[t]),
                Err(e) => spec_predict_step_matches(PredictStep::Failed(e), msgs@[t]),
            },
            None => r matches Err(e) && e is Protocol && spec_message(e)
                == "Stream ended unexpectedly"@,
        },
{
    let mut i: usize = 0;
    while i < msgs.len()
        invariant
            i <= msgs@.len(),
            spec_first_terminal(msgs@, 0) == spec_first_terminal(msgs@, i as int),
        decreases msgs@.len() - i,
    {
        match predict_step(&msgs[i]) {
            PredictStep::KeepWaiting => {},
            PredictStep::Finished(outs) => {
                proof {
                    assert(spec_is_terminal(msgs@[i as int]));
                }
                return Ok(outs);
            },
            PredictStep::Failed(e) => {
                proof {
                    assert(spec_is_terminal(msgs@[i as int]));
                }
                return Err(e);
            },
        }
        i += 1;
    }
    Err(GradioError::Protocol("Stream ended unexpectedly".to_owned()))
}

} // verus!
