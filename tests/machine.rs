use greetd_bridge::{
    AuthMachine, AuthMessageType, AuthState, DaemonRequest, DaemonResponse, ErrorType, Event,
    FailureClass, RequestKind, SessionStartSpec,
};

fn s(v: &str) -> String {
    v.to_string()
}

fn strings(v: &[&str]) -> Vec<String> {
    v.iter().map(|x| x.to_string()).collect()
}

#[test]
fn begin_sends_create_session() {
    let mut m = AuthMachine::new();
    let q = m.begin(s("alice"));
    assert_eq!(q, Some(DaemonRequest::CreateSession { username: s("alice") }));
    assert_eq!(m.pending(), Some(RequestKind::CreateSession));
    assert_eq!(m.state(), AuthState::Unauthenticated);
    assert_eq!(m.username(), "alice");
}

#[test]
fn no_second_request_while_one_is_outstanding() {
    let mut m = AuthMachine::new();
    assert!(m.begin(s("alice")).is_some());
    assert_eq!(m.begin(s("bob")), None);
    assert_eq!(m.respond(Some(s("pw"))), None);
    assert_eq!(m.username(), "alice");
    let step = m.on_response(DaemonResponse::AuthMessage {
        auth_message_type: AuthMessageType::Secret,
        auth_message: s("Password:"),
    });
    assert_eq!(step.request, None);
    assert_eq!(m.pending(), None);
    assert_eq!(m.state(), AuthState::AwaitingPromptResponse);
    assert_eq!(
        m.respond(Some(s("pw"))),
        Some(DaemonRequest::PostAuthMessageResponse { response: Some(s("pw")) })
    );
    assert_eq!(m.respond(Some(s("again"))), None);
    assert_eq!(m.pending(), Some(RequestKind::PostResponse));
}

#[test]
fn success_after_create_session_starts_session() {
    let launch = SessionStartSpec {
        command: strings(&["sway"]),
        environment: strings(&["LANG=C"]),
    };
    let mut m = AuthMachine::with_launch(launch);
    m.begin(s("alice")).unwrap();
    let step = m.on_response(DaemonResponse::Success);
    assert_eq!(
        step.request,
        Some(DaemonRequest::StartSession { cmd: strings(&["sway"]), env: strings(&["LANG=C"]) })
    );
    assert_eq!(step.event, None);
    assert_eq!(m.state(), AuthState::Starting);
    assert_eq!(m.pending(), Some(RequestKind::StartSession));
    let done = m.on_response(DaemonResponse::Success);
    assert_eq!(done.request, None);
    assert_eq!(done.event, Some(Event::SessionStarted));
    assert_eq!(m.state(), AuthState::Terminated);
}

#[test]
fn success_without_launch_waits_for_start_spec() {
    let mut m = AuthMachine::new();
    m.begin(s("alice")).unwrap();
    let step = m.on_response(DaemonResponse::Success);
    assert_eq!(step.request, None);
    assert_eq!(step.event, Some(Event::Authenticated));
    assert_eq!(m.state(), AuthState::Authenticated);
    let q = m.start_session(SessionStartSpec { command: strings(&["bash"]), environment: vec![] });
    assert_eq!(q, Some(DaemonRequest::StartSession { cmd: strings(&["bash"]), env: vec![] }));
    assert_eq!(m.state(), AuthState::Starting);
}

#[test]
fn info_prompt_is_acknowledged_without_answer() {
    let mut m = AuthMachine::new();
    m.begin(s("alice")).unwrap();
    let step = m.on_response(DaemonResponse::AuthMessage {
        auth_message_type: AuthMessageType::Info,
        auth_message: s("Welcome"),
    });
    assert_eq!(step.request, Some(DaemonRequest::PostAuthMessageResponse { response: None }));
    assert_eq!(
        step.event,
        Some(Event::Prompt { kind: AuthMessageType::Info, text: s("Welcome") })
    );
    assert_eq!(m.state(), AuthState::Unauthenticated);
    assert_eq!(m.pending(), Some(RequestKind::PostResponse));
}

#[test]
fn auth_error_cancels_and_returns_to_unauthenticated() {
    let mut m = AuthMachine::new();
    m.begin(s("alice")).unwrap();
    m.on_response(DaemonResponse::AuthMessage {
        auth_message_type: AuthMessageType::Secret,
        auth_message: s("Password:"),
    });
    m.respond(Some(s("wrong"))).unwrap();
    let step = m.on_response(DaemonResponse::Error {
        error_type: ErrorType::AuthError,
        description: s("invalid credentials"),
    });
    assert_eq!(step.request, Some(DaemonRequest::CancelSession));
    assert_eq!(step.event, Some(Event::AuthFailed { reason: s("invalid credentials") }));
    assert_eq!(m.state(), AuthState::Unauthenticated);
    assert_eq!(m.retry_count(), 1);
    let after = m.on_response(DaemonResponse::Success);
    assert_eq!(after.request, None);
    assert_eq!(after.event, None);
    assert_eq!(m.pending(), None);
    assert!(m.begin(s("alice")).is_some());
}

#[test]
fn generic_error_cancels_and_fails() {
    let mut m = AuthMachine::new();
    m.begin(s("alice")).unwrap();
    let step = m.on_response(DaemonResponse::Error {
        error_type: ErrorType::Error,
        description: s("no such user"),
    });
    assert_eq!(step.request, Some(DaemonRequest::CancelSession));
    assert_eq!(step.event, Some(Event::Failed { reason: s("no such user") }));
    assert_eq!(m.state(), AuthState::Failed);
    assert!(m.state().is_final());
    assert_eq!(step.event.unwrap().failure_class(), Some(FailureClass::Daemon));
}

#[test]
fn unexpected_success_is_a_protocol_violation() {
    let mut m = AuthMachine::new();
    let step = m.on_response(DaemonResponse::Success);
    assert_eq!(step.request, None);
    assert_eq!(step.event, Some(Event::ProtocolViolation));
    assert_eq!(m.state(), AuthState::Failed);
}

#[test]
fn prompt_after_start_request_is_a_protocol_violation() {
    let mut m = AuthMachine::new();
    m.begin(s("alice")).unwrap();
    m.on_response(DaemonResponse::Success);
    m.start_session(SessionStartSpec { command: strings(&["sh"]), environment: vec![] }).unwrap();
    let step = m.on_response(DaemonResponse::AuthMessage {
        auth_message_type: AuthMessageType::Visible,
        auth_message: s("Login:"),
    });
    assert_eq!(step.event, Some(Event::ProtocolViolation));
    assert_eq!(m.state(), AuthState::Failed);
}

#[test]
fn request_kinds() {
    assert_eq!(DaemonRequest::CancelSession.kind(), RequestKind::CancelSession);
    assert_eq!(
        DaemonRequest::PostAuthMessageResponse { response: None }.kind(),
        RequestKind::PostResponse
    );
    assert!(AuthMessageType::Visible.expects_answer());
    assert!(!AuthMessageType::Error.expects_answer());
}
