//! The browser-facing message vocabulary and its conversion to and from the
//! daemon's vocabulary.
use crate::environ::{forward_environment, spec_forwarded};
use crate::machine::{model_on_caller, AuthMachine, CallerInput, Event, SessionStartSpec, Step};
use crate::protocol::{AuthMessageType, DaemonRequest, DaemonResponse};
use crate::retry::FailureClass;
use vstd::prelude::*;

verus! {

/// A message on the browser connection.
#[derive(Clone, Debug, PartialEq, Eq)]
pub enum WsMessage {
    /// Client to server: start a login for this user.
    AuthRequest { username: String },
    /// Client to server: the answer to the last prompt.
    AuthResponse { response: String },
    /// Client to server: start the session with this command and environment.
    StartSession { cmd: Vec<String>, env: Vec<String> },
    /// Server to client: a prompt, its kind in upper case.
    AuthPrompt { message: String, message_type: String },
    /// Server to client: the credentials were accepted.
    AuthSuccess,
    /// Server to client: the attempt failed.
    AuthError { reason: String },
}

/// Errors of the bridge.
#[derive(Clone, Debug, PartialEq, Eq)]
pub enum IpcError {
    /// The daemon's socket could not be reached or broke.
    Connection(String),
    /// A client message could not be read or written.
    Serialization(String),
    /// A message arrived that the exchange does not allow.
    Protocol(String),
    /// The browser connection failed.
    WebSocket(String),
    /// A daemon frame could not be read or written.
    IpcProtocol(String),
}

impl IpcError {
    pub open spec fn spec_class(&self) -> FailureClass {
        match self {
            IpcError::Connection(_) => FailureClass::Connection,
            IpcError::Serialization(_) => FailureClass::Serialization,
            IpcError::Protocol(_) => FailureClass::Protocol,
            IpcError::WebSocket(_) => FailureClass::Connection,
            IpcError::IpcProtocol(_) => FailureClass::Serialization,
        }
    }

    /// The retry class of this error.
    pub fn class(&self) -> (r: FailureClass)
        ensures
            r == self.spec_class(),
    {
        match self {
            IpcError::Connection(_) => FailureClass::Connection,
            IpcError::Serialization(_) => FailureClass::Serialization,
            IpcError::Protocol(_) => FailureClass::Protocol,
            IpcError::WebSocket(_) => FailureClass::Connection,
            IpcError::IpcProtocol(_) => FailureClass::Serialization,
        }
    }
}

/// The upper-case tag of a prompt kind.
pub open spec fn spec_message_type_tag(t: AuthMessageType) -> Seq<char> {
    match t {
        AuthMessageType::Visible => "VISIBLE"@,
        AuthMessageType::Secret => "SECRET"@,
        AuthMessageType::Info => "INFO"@,
        AuthMessageType::Error => "ERROR"@,
    }
}

/// The prompt kind that an upper-case tag names, if any.
pub open spec fn spec_parse_message_type(s: Seq<char>) -> Option<AuthMessageType> {
    if s == "VISIBLE"@ {
        Some(AuthMessageType::Visible)
    } else if s == "SECRET"@ {
        Some(AuthMessageType::Secret)
    } else if s == "INFO"@ {
        Some(AuthMessageType::Info)
    } else if s == "ERROR"@ {
        Some(AuthMessageType::Error)
    } else {
        None
    }
}

pub fn message_type_tag(t: AuthMessageType) -> (r: String)
    ensures
        r@ == spec_message_type_tag(t),
{
    match t {
        AuthMessageType::Visible => String::from_str("VISIBLE"),
        AuthMessageType::Secret => String::from_str("SECRET"),
        AuthMessageType::Info => String::from_str("INFO"),
        AuthMessageType::Error => String::from_str("ERROR"),
    }
}

pub fn parse_message_type(s: &String) -> (r: Option<AuthMessageType>)
    ensures
        r == spec_parse_message_type(s@),
{
    if *s == String::from_str("VISIBLE") {
        Some(AuthMessageType::Visible)
    } else if *s == String::from_str("SECRET") {
        Some(AuthMessageType::Secret)
    } else if *s == String::from_str("INFO") {
        Some(AuthMessageType::Info)
    } else if *s == String::from_str("ERROR") {
        Some(AuthMessageType::Error)
    } else {
        None
    }
}

/// Whether a message is one that clients send.
pub open spec fn spec_is_client_message(msg: WsMessage) -> bool {
    msg is AuthRequest || msg is AuthResponse || msg is StartSession
}

/// `q` is the daemon request that the client message `msg` stands for. The
/// environment of a start request keeps only the entries whose name is on
/// `allow`, in their order; the command is kept as it is.
pub open spec fn spec_request_for(msg: WsMessage, allow: Seq<String>, q: DaemonRequest) -> bool {
    match msg {
        WsMessage::AuthRequest { username } => q == DaemonRequest::CreateSession { username },
        WsMessage::AuthResponse { response } => q == DaemonRequest::PostAuthMessageResponse {
            response: Some(response),
        },
        WsMessage::StartSession { cmd, env } => q matches DaemonRequest::StartSession {
            cmd: c,
            env: e,
        } && c == cmd && e@ == spec_forwarded(allow, env@),
        _ => false,
    }
}

/// Converts a client message to the daemon request it stands for; the
/// environment of a start request is cut down to the allow-list.
pub fn ws_to_ipc(msg: WsMessage, allow: &Vec<String>) -> (r: Result<DaemonRequest, IpcError>)
    ensures
        r is Ok <==> spec_is_client_message(msg),
        r matches Ok(q) ==> spec_request_for(msg, allow@, q),
        r is Err ==> r->Err_0 is Protocol,
{
    match msg {
        WsMessage::AuthRequest { username } => Ok(DaemonRequest::CreateSession { username }),
        WsMessage::AuthResponse { response } => Ok(
            DaemonRequest::PostAuthMessageResponse { response: Some(response) },
        ),
        WsMessage::StartSession { cmd, env } => Ok(
            DaemonRequest::StartSession { cmd, env: forward_environment(allow, &env) },
        ),
        _ => Err(IpcError::Protocol(String::from_str("not a client message"))),
    }
}

/// `msg` is the client-facing form of the daemon response `resp`.
pub open spec fn renders_response(resp: DaemonResponse, msg: WsMessage) -> bool {
    match resp {
        DaemonResponse::AuthMessage { auth_message_type, auth_message } => msg matches WsMessage::AuthPrompt {
            message,
            message_type,
        } && message == auth_message && message_type@ == spec_message_type_tag(auth_message_type),
        DaemonResponse::Success => msg is AuthSuccess,
        DaemonResponse::Error { error_type, description } => msg == WsMessage::AuthError {
            reason: description,
        },
    }
}

/// Converts a daemon response to the message the client is sent.
pub fn ipc_to_ws(resp: DaemonResponse) -> (r: WsMessage)
    ensures
        renders_response(resp, r),
{
    match resp {
        DaemonResponse::AuthMessage { auth_message_type, auth_message } => WsMessage::AuthPrompt {
            message_type: message_type_tag(auth_message_type),
            message: auth_message,
        },
        DaemonResponse::Success => WsMessage::AuthSuccess,
        DaemonResponse::Error { error_type: _, description } => WsMessage::AuthError {
            reason: description,
        },
    }
}

impl WsMessage {
    pub open spec fn spec_type_tag(&self) -> Seq<char> {
        match self {
            WsMessage::AuthRequest { .. } => "AUTH_REQUEST"@,
            WsMessage::AuthResponse { .. } => "AUTH_RESPONSE"@,
            WsMessage::StartSession { .. } => "START_SESSION"@,
            WsMessage::AuthPrompt { .. } => "AUTH_PROMPT"@,
            WsMessage::AuthSuccess => "AUTH_SUCCESS"@,
            WsMessage::AuthError { .. } => "AUTH_ERROR"@,
        }
    }

    /// The value of the `type` field that tags this message on the wire.
    pub fn type_tag(&self) -> (r: String)
        ensures
            r@ == self.spec_type_tag(),
    {
        match self {
            WsMessage::AuthRequest { .. } => String::from_str("AUTH_REQUEST"),
            WsMessage::AuthResponse { .. } => String::from_str("AUTH_RESPONSE"),
            WsMessage::StartSession { .. } => String::from_str("START_SESSION"),
            WsMessage::AuthPrompt { .. } => String::from_str("AUTH_PROMPT"),
            WsMessage::AuthSuccess => String::from_str("AUTH_SUCCESS"),
            WsMessage::AuthError { .. } => String::from_str("AUTH_ERROR"),
        }
    }
}

/// Whether the machine takes this client message in its present state.
pub open spec fn spec_accepts(m: AuthMachine, msg: WsMessage) -> bool {
    &&& m.spec_pending() is None
    &&& match msg {
        WsMessage::AuthRequest { .. } => m.spec_state() is Unauthenticated || m.spec_state() is Failed,
        WsMessage::AuthResponse { .. } => m.spec_state() is AwaitingPromptResponse,
        WsMessage::StartSession { .. } => m.spec_state() is Authenticated,
        _ => false,
    }
}

/// The front-end input that a client message is.
pub open spec fn spec_caller_input(msg: WsMessage) -> CallerInput {
    match msg {
        WsMessage::AuthResponse { .. } => CallerInput::Respond,
        WsMessage::StartSession { .. } => CallerInput::Start,
        _ => CallerInput::Begin,
    }
}

/// Feeds a client message to the machine and returns the daemon request to
/// send. The environment of a start request is cut down to `allow`. A
/// message that the present state does not allow, or one that only the
/// server sends, is refused with a protocol error and changes nothing.
pub fn on_client_message(m: &mut AuthMachine, msg: WsMessage, allow: &Vec<String>) -> (r: Result<
    DaemonRequest,
    IpcError,
>)
    requires
        old(m).wf(),
    ensures
        final(m).wf(),
        r is Ok <==> spec_accepts(*old(m), msg),
        r is Ok ==> {
            &&& final(m).spec_model() == model_on_caller(old(m).spec_model(), spec_caller_input(msg))
            &&& final(m).same_launch(old(m))
            &&& final(m).spec_retry_count() == old(m).spec_retry_count()
            &&& spec_request_for(msg, allow@, r->Ok_0)
            &&& final(m).spec_pending() == Some(r->Ok_0.spec_kind())
            &&& final(m).spec_username() == (if msg is AuthRequest {
                msg->username@
            } else {
                old(m).spec_username()
            })
        },
        r is Err ==> r->Err_0 is Protocol && *final(m) == *old(m),
{
    let sent = match msg {
        WsMessage::AuthRequest { username } => m.begin(username),
        WsMessage::AuthResponse { response } => m.respond(Some(response)),
        WsMessage::StartSession { cmd, env } => m.start_session(
            SessionStartSpec { command: cmd, environment: forward_environment(allow, &env) },
        ),
        _ => None,
    };
    match sent {
        Some(q) => Ok(q),
        None => Err(IpcError::Protocol(String::from_str("message not allowed at this point"))),
    }
}

/// How the bridge goes on after a step.
#[derive(Clone, Copy, Debug, PartialEq, Eq, Structural)]
pub enum Completion {
    /// Keep serving the connection.
    Continue,
    /// The session is live: this front-end's work is done.
    SessionLive,
    /// The daemon broke the exchange: nothing sensible can follow.
    Fatal,
}

/// What the bridge does after a daemon response: a request for the daemon
/// (sent first), a message for the client, and whether to go on.
pub struct BridgeAction {
    pub to_daemon: Option<DaemonRequest>,
    pub to_client: Option<WsMessage>,
    pub completion: Completion,
}

/// The client-facing form of a machine event.
pub open spec fn renders_event(e: Event, msg: WsMessage) -> bool {
    match e {
        Event::Prompt { kind, text } => msg matches WsMessage::AuthPrompt { message, message_type }
            && message == text && message_type@ == spec_message_type_tag(kind),
        Event::Authenticated => msg is AuthSuccess,
        Event::SessionStarted => msg is AuthSuccess,
        Event::AuthFailed { reason } => msg == WsMessage::AuthError { reason },
        Event::Failed { reason } => msg == WsMessage::AuthError { reason },
        Event::ProtocolViolation => msg is AuthError,
    }
}

pub open spec fn spec_completion(e: Option<Event>) -> Completion {
    match e {
        Some(Event::SessionStarted) => Completion::SessionLive,
        Some(Event::ProtocolViolation) => Completion::Fatal,
        _ => Completion::Continue,
    }
}

/// Converts a machine event to the message the client is sent.
pub fn event_to_ws(e: Event) -> (r: WsMessage)
    ensures
        renders_event(e, r),
{
    match e {
        Event::Prompt { kind, text } => WsMessage::AuthPrompt {
            message: text,
            message_type: message_type_tag(kind),
        },
        Event::Authenticated => WsMessage::AuthSuccess,
        Event::SessionStarted => WsMessage::AuthSuccess,
        Event::AuthFailed { reason } => WsMessage::AuthError { reason },
        Event::Failed { reason } => WsMessage::AuthError { reason },
        Event::ProtocolViolation => WsMessage::AuthError {
            reason: String::from_str("unexpected response from the daemon"),
        },
    }
}

/// Turns a machine step into the bridge's action.
pub fn bridge_action(step: Step) -> (r: BridgeAction)
    ensures
        r.to_daemon == step.request,
        r.completion == spec_completion(step.event),
        step.event is None ==> r.to_client is None,
        step.event matches Some(e) ==> r.to_client matches Some(msg) && renders_event(e, msg),
{
    let completion = match &step.event {
        Some(Event::SessionStarted) => Completion::SessionLive,
        Some(Event::ProtocolViolation) => Completion::Fatal,
        _ => Completion::Continue,
    };
    let to_client = match step.event {
        Some(e) => Some(event_to_ws(e)),
        None => None,
    };
    BridgeAction { to_daemon: step.request, to_client, completion }
}

/// A client's answer to a prompt reaches the daemon as that same answer.
pub proof fn lemma_answer_round_trip(response: String, allow: Seq<String>, q: DaemonRequest)
    requires
        spec_request_for(WsMessage::AuthResponse { response }, allow, q),
    ensures
        q matches DaemonRequest::PostAuthMessageResponse { response: answer } && answer == Some(
            response,
        ),
{
}

/// A daemon prompt sent to the client can be read back: the tag names the
/// prompt's kind and the text is the prompt's text.
pub proof fn lemma_prompt_round_trip(t: AuthMessageType, text: String, msg: WsMessage)
    requires
        renders_response(DaemonResponse::AuthMessage { auth_message_type: t, auth_message: text }, msg),
    ensures
        msg matches WsMessage::AuthPrompt { message, message_type } && message == text
            && spec_parse_message_type(message_type@) == Some(t),
{
    reveal_strlit("VISIBLE");
    reveal_strlit("SECRET");
    reveal_strlit("INFO");
    reveal_strlit("ERROR");
    assert("VISIBLE"@[0] != "SECRET"@[0]);
    assert("VISIBLE"@[0] != "INFO"@[0]);
    assert("VISIBLE"@[0] != "ERROR"@[0]);
    assert("SECRET"@[0] != "INFO"@[0]);
    assert("SECRET"@[0] != "ERROR"@[0]);
    assert("INFO"@[0] != "ERROR"@[0]);
}

} // verus!
