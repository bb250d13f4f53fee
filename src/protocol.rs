//! The daemon's request and response vocabulary, as plain values.
use vstd::prelude::*;

verus! {

/// Kind of a prompt that the daemon asks the front-end to show.
#[derive(Clone, Copy, Debug, PartialEq, Eq, Structural)]
pub enum AuthMessageType {
    /// A question whose answer is shown while typed.
    Visible,
    /// A question whose answer is hidden while typed.
    Secret,
    /// An informational message; no answer is expected.
    Info,
    /// An error message; no answer is expected.
    Error,
}

impl AuthMessageType {
    /// Visible and secret prompts wait for an answer from the user.
    pub open spec fn spec_expects_answer(self) -> bool {
        self is Visible || self is Secret
    }

    pub fn expects_answer(self) -> (r: bool)
        ensures
            r == self.spec_expects_answer(),
    {
        match self {
            AuthMessageType::Visible | AuthMessageType::Secret => true,
            AuthMessageType::Info | AuthMessageType::Error => false,
        }
    }
}

/// Classification of an error reported by the daemon.
#[derive(Clone, Copy, Debug, PartialEq, Eq, Structural)]
pub enum ErrorType {
    /// Any failure other than rejected credentials.
    Error,
    /// The credentials were rejected.
    AuthError,
}

/// A request sent to the daemon.
#[derive(Clone, Debug, PartialEq, Eq)]
pub enum DaemonRequest {
    CreateSession { username: String },
    PostAuthMessageResponse { response: Option<String> },
    StartSession { cmd: Vec<String>, env: Vec<String> },
    CancelSession,
}

/// A response received from the daemon.
#[derive(Clone, Debug, PartialEq, Eq)]
pub enum DaemonResponse {
    Success,
    Error { error_type: ErrorType, description: String },
    AuthMessage { auth_message_type: AuthMessageType, auth_message: String },
}

/// Which request was sent, without its payload.
#[derive(Clone, Copy, Debug, PartialEq, Eq, Structural)]
pub enum RequestKind {
    CreateSession,
    PostResponse,
    StartSession,
    CancelSession,
}

impl DaemonRequest {
    pub open spec fn spec_kind(&self) -> RequestKind {
        match self {
            DaemonRequest::CreateSession { .. } => RequestKind::CreateSession,
            DaemonRequest::PostAuthMessageResponse { .. } => RequestKind::PostResponse,
            DaemonRequest::StartSession { .. } => RequestKind::StartSession,
            DaemonRequest::CancelSession => RequestKind::CancelSession,
        }
    }

    /// The kind of this request.
    pub fn kind(&self) -> (r: RequestKind)
        ensures
            r == self.spec_kind(),
    {
        match self {
            DaemonRequest::CreateSession { .. } => RequestKind::CreateSession,
            DaemonRequest::PostAuthMessageResponse { .. } => RequestKind::PostResponse,
            DaemonRequest::StartSession { .. } => RequestKind::StartSession,
            DaemonRequest::CancelSession => RequestKind::CancelSession,
        }
    }
}

} // verus!
