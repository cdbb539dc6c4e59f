use vstd::prelude::*;

verus! {

/// The classes of failure that a request can end in.
#[derive(Clone, Copy, Debug, PartialEq, Eq, Structural)]
pub enum ErrorKind {
    /// The payload did not decode; raised before authentication.
    MalformedPayload,
    /// Missing, invalid or deactivated credentials.
    AuthenticationFailure,
    /// A business rule or a mandatory field failed.
    ValidationError,
    /// No eligible connector could carry the payout.
    ConnectorSelectionFailure,
    /// A collaborator failed unexpectedly.
    InternalError,
}

/// Transport status of each error kind.
pub open spec fn error_status(kind: ErrorKind) -> u16 {
    match kind {
        ErrorKind::MalformedPayload => 400,
        ErrorKind::ValidationError => 400,
        ErrorKind::AuthenticationFailure => 401,
        ErrorKind::ConnectorSelectionFailure => 500,
        ErrorKind::InternalError => 500,
    }
}

/// Whether the client is shown the failure's detail; server-side failures
/// keep it in the trace and show an opaque message.
pub open spec fn detail_is_public(kind: ErrorKind) -> bool {
    error_status(kind) < 500
}

/// The message shown to clients for server-side failures.
pub open spec fn opaque_message() -> Seq<char> {
    "Something went wrong"@
}

impl ErrorKind {
    pub fn status(&self) -> (r: u16)
        ensures
            r == error_status(*self),
    {
        match self {
            ErrorKind::MalformedPayload => 400,
            ErrorKind::ValidationError => 400,
            ErrorKind::AuthenticationFailure => 401,
            ErrorKind::ConnectorSelectionFailure => 500,
            ErrorKind::InternalError => 500,
        }
    }
}

/// What a request ends in: the handler's payload, or a failure with its detail.
pub enum OperationResult<T> {
    Success(T),
    Failure(ErrorKind, String),
}

/// The body of a response envelope.
pub enum Body<T> {
    Payload(T),
    Error { kind: ErrorKind, message: String },
}

/// The uniform response of every endpoint: a transport status and a body.
pub struct Envelope<T> {
    pub status: u16,
    pub body: Body<T>,
}

/// The envelope that an operation result maps to.
pub open spec fn envelope_status<T>(r: OperationResult<T>) -> u16 {
    match r {
        OperationResult::Success(_) => 200,
        OperationResult::Failure(kind, _) => error_status(kind),
    }
}

/// The body that an operation result maps to: the payload unchanged, or the
/// error with its detail where the detail is public.
pub open spec fn envelope_body_matches<T>(r: OperationResult<T>, b: Body<T>) -> bool {
    match r {
        OperationResult::Success(p) => b == Body::<T>::Payload(p),
        OperationResult::Failure(kind, detail) => match b {
            Body::Payload(_) => false,
            Body::Error { kind: k, message } => k == kind && message@ == (if detail_is_public(kind) {
                detail@
            } else {
                opaque_message()
            }),
        },
    }
}

/// Maps an operation result to its envelope. Business errors pass through
/// with their kind unchanged.
pub fn to_envelope<T>(r: OperationResult<T>) -> (e: Envelope<T>)
    ensures
        e.status == envelope_status(r),
        envelope_body_matches(r, e.body),
{
    match r {
        OperationResult::Success(p) => Envelope { status: 200, body: Body::Payload(p) },
        OperationResult::Failure(kind, detail) => {
            let status = kind.status();
            let message = if status < 500 {
                detail
            } else {
                "Something went wrong".to_owned()
            };
            Envelope { status, body: Body::Error { kind, message } }
        },
    }
}

} // verus!
