use vstd::prelude::*;

verus! {

/// The failure taxonomy of the client. Every operation surfaces one of these
/// distinct, inspectable kinds; none is retried automatically and none is
/// silently downgraded to a default value.
#[derive(Clone, Debug)]
pub enum GradioError {
    /// The application reference could not be resolved to a reachable host.
    Resolution(String),
    /// The login exchange was rejected.
    Authentication(String),
    /// The configuration endpoint was unreachable or its payload malformed.
    ConfigFetch(String),
    /// The capability-schema endpoint was unreachable or its payload malformed.
    CapabilityFetch(String),
    /// The space is paused, in an unrecognized stage, or took too long to wake.
    SpaceUnavailable(String),
    /// The upload endpoint was unreachable or returned an unexpected number of paths.
    Upload(String),
    /// The requested route name is not declared by the application.
    RouteNotFound(String),
    /// The caller supplied fewer values than the route declares parameters.
    ParameterCountMismatch(String),
    /// The queue-join request was rejected.
    QueueJoin(String),
    /// The event-stream transport failed.
    Stream(String),
    /// A message body was malformed, or the stream ended without a terminal message.
    Protocol(String),
    /// The server reported a completed-but-failed invocation.
    RemoteExecution(String),
    /// A decoded output was narrowed to the wrong variant.
    OutputShapeMismatch(String),
}

/// The text carried by an error, whatever its kind.
pub open spec fn spec_message(e: GradioError) -> Seq<char> {
    match e {
        GradioError::Resolution(m) => m@,
        GradioError::Authentication(m) => m@,
        GradioError::ConfigFetch(m) => m@,
        GradioError::CapabilityFetch(m) => m@,
        GradioError::SpaceUnavailable(m) => m@,
        GradioError::Upload(m) => m@,
        GradioError::RouteNotFound(m) => m@,
        GradioError::ParameterCountMismatch(m) => m@,
        GradioError::QueueJoin(m) => m@,
        GradioError::Stream(m) => m@,
        GradioError::Protocol(m) => m@,
        GradioError::RemoteExecution(m) => m@,
        GradioError::OutputShapeMismatch(m) => m@,
    }
}

impl GradioError {
    /// The human-readable text carried by this error.
    pub fn message(&self) -> (r: &String)
        ensures
            r@ == spec_message(*self),
    {
        match self {
            GradioError::Resolution(m) => m,
            GradioError::Authentication(m) => m,
            GradioError::ConfigFetch(m) => m,
            GradioError::CapabilityFetch(m) => m,
            GradioError::SpaceUnavailable(m) => m,
            GradioError::Upload(m) => m,
            GradioError::RouteNotFound(m) => m,
            GradioError::ParameterCountMismatch(m) => m,
            GradioError::QueueJoin(m) => m,
            GradioError::Stream(m) => m,
            GradioError::Protocol(m) => m,
            GradioError::RemoteExecution(m) => m,
            GradioError::OutputShapeMismatch(m) => m,
        }
    }
}

} // verus!
