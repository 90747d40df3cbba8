//! The error taxonomy shared by every operation: a status that classifies the
//! failure by its cause, a human-readable message, and an ordered breadcrumb
//! trail of the logical operations the error passed through.

use vstd::prelude::*;
use vstd::std_specs::convert::FromSpec;

verus! {

/// Classification of a failure, each variant mapped to an HTTP-equivalent
/// status code and a stable machine-readable code.
#[derive(Debug, Clone, Copy, PartialEq, Eq, Structural)]
pub enum WatchErrorStatus {
    /// Local persistence or infrastructure failure.
    Store,
    /// The addressed resource does not exist.
    NotFound,
    /// Caller-supplied data failed validation.
    InvalidInput,
    /// Authentication failed.
    Unauthorized,
    /// Serialization or deserialization failed.
    Serialization,
    /// An upstream or downstream HTTP call failed.
    ExternalApi,
    /// The resource already exists.
    Conflict,
}

impl WatchErrorStatus {
    /// The HTTP status code this classification maps to.
    pub open spec fn spec_status_code(self) -> u16 {
        match self {
            WatchErrorStatus::InvalidInput => 400,
            WatchErrorStatus::Serialization => 400,
            WatchErrorStatus::Unauthorized => 401,
            WatchErrorStatus::NotFound => 404,
            WatchErrorStatus::Conflict => 409,
            WatchErrorStatus::Store => 500,
            WatchErrorStatus::ExternalApi => 502,
        }
    }

    /// The machine-readable code of this classification.
    pub open spec fn spec_error_code(self) -> Seq<char> {
        match self {
            WatchErrorStatus::InvalidInput => "INVALID_INPUT"@,
            WatchErrorStatus::Serialization => "JSON_PARSE_ERROR"@,
            WatchErrorStatus::Unauthorized => "UNAUTHORIZED"@,
            WatchErrorStatus::NotFound => "RESOURCE_NOT_FOUND"@,
            WatchErrorStatus::Conflict => "RESOURCE_CONFLICT"@,
            WatchErrorStatus::Store => "INTERNAL_STORE_ERROR"@,
            WatchErrorStatus::ExternalApi => "UPSTREAM_ERROR"@,
        }
    }

    pub fn status_code(&self) -> (code: u16)
        ensures
            code == self.spec_status_code(),
    {
        match self {
            WatchErrorStatus::InvalidInput | WatchErrorStatus::Serialization => 400,
            WatchErrorStatus::Unauthorized => 401,
            WatchErrorStatus::NotFound => 404,
            WatchErrorStatus::Conflict => 409,
            WatchErrorStatus::Store => 500,
            WatchErrorStatus::ExternalApi => 502,
        }
    }

    pub fn error_code(&self) -> (code: &'static str)
        ensures
            code@ == self.spec_error_code(),
    {
        match self {
            WatchErrorStatus::InvalidInput => "INVALID_INPUT",
            WatchErrorStatus::Serialization => "JSON_PARSE_ERROR",
            WatchErrorStatus::Unauthorized => "UNAUTHORIZED",
            WatchErrorStatus::NotFound => "RESOURCE_NOT_FOUND",
            WatchErrorStatus::Conflict => "RESOURCE_CONFLICT",
            WatchErrorStatus::Store => "INTERNAL_STORE_ERROR",
            WatchErrorStatus::ExternalApi => "UPSTREAM_ERROR",
        }
    }
}

/// One breadcrumb of an error's trail: the logical operation that the error
/// passed through, and an optional detail such as a storage key.
#[derive(Debug, Clone)]
pub struct ErrorSpan {
    pub operation: String,
    pub detail: Option<String>,
}

impl ErrorSpan {
    pub fn new(operation: String) -> (span: ErrorSpan)
        ensures
            span.operation == operation,
            span.detail is None,
    {
        ErrorSpan { operation, detail: None }
    }

    pub fn with_detail(operation: String, detail: String) -> (span: ErrorSpan)
        ensures
            span.operation == operation,
            span.detail == Some(detail),
    {
        ErrorSpan { operation, detail: Some(detail) }
    }
}

/// An application error: a classification, a message, and the breadcrumb
/// trail appended by each layer the error passed through.
///
/// No captured cause object is carried: a cause is folded into the message
/// and the trail, which is also all that survives the wire — the
/// [`ErrorResponse`] round trip loses nothing this type holds.
#[derive(Debug, Clone)]
pub struct WatchError {
    pub status: WatchErrorStatus,
    pub message: String,
    pub spans: Vec<ErrorSpan>,
}

impl WatchError {
    pub fn new(status: WatchErrorStatus, message: String) -> (e: WatchError)
        ensures
            e.status == status,
            e.message == message,
            e.spans@ == Seq::<ErrorSpan>::empty(),
    {
        WatchError { status, message, spans: Vec::new() }
    }

    pub fn store(message: String) -> (e: WatchError)
        ensures
            e.status == WatchErrorStatus::Store,
            e.message == message,
            e.spans@ == Seq::<ErrorSpan>::empty(),
    {
        WatchError::new(WatchErrorStatus::Store, message)
    }

    pub fn not_found(message: String) -> (e: WatchError)
        ensures
            e.status == WatchErrorStatus::NotFound,
            e.message == message,
            e.spans@ == Seq::<ErrorSpan>::empty(),
    {
        WatchError::new(WatchErrorStatus::NotFound, message)
    }

    pub fn invalid_input(message: String) -> (e: WatchError)
        ensures
            e.status == WatchErrorStatus::InvalidInput,
            e.message == message,
            e.spans@ == Seq::<ErrorSpan>::empty(),
    {
        WatchError::new(WatchErrorStatus::InvalidInput, message)
    }

    pub fn unauthorized(message: String) -> (e: WatchError)
        ensures
            e.status == WatchErrorStatus::Unauthorized,
            e.message == message,
            e.spans@ == Seq::<ErrorSpan>::empty(),
    {
        WatchError::new(WatchErrorStatus::Unauthorized, message)
    }

    pub fn serialization(message: String) -> (e: WatchError)
        ensures
            e.status == WatchErrorStatus::Serialization,
            e.message == message,
            e.spans@ == Seq::<ErrorSpan>::empty(),
    {
        WatchError::new(WatchErrorStatus::Serialization, message)
    }

    pub fn external_api(message: String) -> (e: WatchError)
        ensures
            e.status == WatchErrorStatus::ExternalApi,
            e.message == message,
            e.spans@ == Seq::<ErrorSpan>::empty(),
    {
        WatchError::new(WatchErrorStatus::ExternalApi, message)
    }

    pub fn conflict(message: String) -> (e: WatchError)
        ensures
            e.status == WatchErrorStatus::Conflict,
            e.message == message,
            e.spans@ == Seq::<ErrorSpan>::empty(),
    {
        WatchError::new(WatchErrorStatus::Conflict, message)
    }

    /// Append a breadcrumb naming the operation the error passed through.
    pub fn in_op(self, operation: String) -> (e: WatchError)
        ensures
            e.status == self.status,
            e.message == self.message,
            e.spans@.len() == self.spans@.len() + 1,
            e.spans@.subrange(0, self.spans@.len() as int) == self.spans@,
            e.spans@.last().operation == operation,
            e.spans@.last().detail is None,
    {
        let mut e = self;
        e.spans.push(ErrorSpan::new(operation));
        e
    }

    /// Append a breadcrumb with an operation name and a detail.
    pub fn in_op_with(self, operation: String, detail: String) -> (e: WatchError)
        ensures
            e.status == self.status,
            e.message == self.message,
            e.spans@.len() == self.spans@.len() + 1,
            e.spans@.subrange(0, self.spans@.len() as int) == self.spans@,
            e.spans@.last().operation == operation,
            e.spans@.last().detail == Some(detail),
    {
        let mut e = self;
        e.spans.push(ErrorSpan::with_detail(operation, detail));
        e
    }

    pub fn status_code(&self) -> (code: u16)
        ensures
            code == self.status.spec_status_code(),
    {
        self.status.status_code()
    }

    pub fn error_code(&self) -> (code: &'static str)
        ensures
            code@ == self.status.spec_error_code(),
    {
        self.status.error_code()
    }

    pub fn message(&self) -> (m: &String)
        ensures
            m == self.message,
    {
        &self.message
    }

    pub fn spans(&self) -> (s: &Vec<ErrorSpan>)
        ensures
            s == self.spans,
    {
        &self.spans
    }
}

/// The wire form of an error: what crosses the command transport between
/// actors, so that the remote classification, message, and trail can be
/// reconstructed on the caller's side instead of collapsing to a string.
#[derive(Debug, Clone)]
pub struct ErrorResponse {
    pub status: WatchErrorStatus,
    pub message: String,
    pub spans: Vec<ErrorSpan>,
}

impl ErrorResponse {
    pub fn new(status: WatchErrorStatus, message: String) -> (r: ErrorResponse)
        ensures
            r.status == status,
            r.message == message,
            r.spans@ == Seq::<ErrorSpan>::empty(),
    {
        ErrorResponse { status, message, spans: Vec::new() }
    }

    pub fn status_code(&self) -> (code: u16)
        ensures
            code == self.status.spec_status_code(),
    {
        self.status.status_code()
    }

    pub fn error_code(&self) -> (code: &'static str)
        ensures
            code@ == self.status.spec_error_code(),
    {
        self.status.error_code()
    }
}

impl From<WatchError> for ErrorResponse {
    fn from(e: WatchError) -> (r: ErrorResponse) {
        ErrorResponse { status: e.status, message: e.message, spans: e.spans }
    }
}

impl vstd::std_specs::convert::FromSpecImpl<WatchError> for ErrorResponse {
    open spec fn obeys_from_spec() -> bool {
        true
    }

    open spec fn from_spec(e: WatchError) -> ErrorResponse {
        ErrorResponse { status: e.status, message: e.message, spans: e.spans }
    }
}

impl From<ErrorResponse> for WatchError {
    fn from(r: ErrorResponse) -> (e: WatchError) {
        WatchError { status: r.status, message: r.message, spans: r.spans }
    }
}

impl vstd::std_specs::convert::FromSpecImpl<ErrorResponse> for WatchError {
    open spec fn obeys_from_spec() -> bool {
        true
    }

    open spec fn from_spec(r: ErrorResponse) -> WatchError {
        WatchError { status: r.status, message: r.message, spans: r.spans }
    }
}

/// An error sent across the transport and reconstructed keeps its
/// classification, message, and breadcrumb trail: nothing about the failure
/// is lost to the wire round trip.
pub proof fn lemma_error_wire_round_trip(e: WatchError)
    ensures
        WatchError::from_spec(ErrorResponse::from_spec(e)) == e,
{
}

pub type WatchResult<T> = Result<T, WatchError>;

} // verus!
