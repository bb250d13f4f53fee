use greetd_bridge::{
    bridge_action, event_to_ws, ipc_to_ws, message_type_tag, on_client_message, parse_message_type,
    ws_to_ipc, AuthMachine, AuthMessageType, AuthState, Completion, DaemonRequest, DaemonResponse,
    ErrorType, Event, FailureClass, IpcError, WsMessage,
};

fn s(v: &str) -> String {
    v.to_string()
}

fn allow() -> Vec<String> {
    vec![s("LANG"), s("PATH")]
}

#[test]
fn secret_prompt_becomes_auth_prompt() {
    let mut m = AuthMachine::new();
    let q = on_client_message(&mut m, WsMessage::AuthRequest { username: s("alice") }, &allow());
    assert_eq!(q, Ok(DaemonRequest::CreateSession { username: s("alice") }));
    let step = m.on_response(DaemonResponse::AuthMessage {
        auth_message_type: AuthMessageType::Secret,
        auth_message: s("Password:"),
    });
    let action = bridge_action(step);
    let msg = action.to_client.unwrap();
    assert_eq!(msg.type_tag(), "AUTH_PROMPT");
    assert_eq!(
        msg,
        WsMessage::AuthPrompt { message: s("Password:"), message_type: s("SECRET") }
    );
    assert_eq!(action.to_daemon, None);
    assert_eq!(action.completion, Completion::Continue);
}

#[test]
fn invalid_credentials_become_auth_error() {
    let mut m = AuthMachine::new();
    on_client_message(&mut m, WsMessage::AuthRequest { username: s("alice") }, &allow()).unwrap();
    let step = m.on_response(DaemonResponse::Error {
        error_type: ErrorType::AuthError,
        description: s("invalid credentials"),
    });
    let action = bridge_action(step);
    assert_eq!(action.to_daemon, Some(DaemonRequest::CancelSession));
    let msg = action.to_client.unwrap();
    assert_eq!(msg.type_tag(), "AUTH_ERROR");
    assert_eq!(msg, WsMessage::AuthError { reason: s("invalid credentials") });
    assert_eq!(m.state(), AuthState::Unauthenticated);
    assert_eq!(Event::AuthFailed { reason: s("x") }.failure_class(), Some(FailureClass::Authentication));
}

#[test]
fn session_start_ends_the_bridge() {
    let mut m = AuthMachine::new();
    on_client_message(&mut m, WsMessage::AuthRequest { username: s("alice") }, &allow()).unwrap();
    let a = bridge_action(m.on_response(DaemonResponse::Success));
    assert_eq!(a.to_client, Some(WsMessage::AuthSuccess));
    let q = on_client_message(
        &mut m,
        WsMessage::StartSession { cmd: vec![s("sway")], env: vec![s("LANG=C")] },
        &allow(),
    );
    assert_eq!(q, Ok(DaemonRequest::StartSession { cmd: vec![s("sway")], env: vec![s("LANG=C")] }));
    let done = bridge_action(m.on_response(DaemonResponse::Success));
    assert_eq!(done.completion, Completion::SessionLive);
    assert_eq!(done.to_client, Some(WsMessage::AuthSuccess));
}

#[test]
fn protocol_violation_is_fatal() {
    let mut m = AuthMachine::new();
    let a = bridge_action(m.on_response(DaemonResponse::Success));
    assert_eq!(a.completion, Completion::Fatal);
    assert!(matches!(a.to_client, Some(WsMessage::AuthError { .. })));
}

#[test]
fn out_of_turn_client_message_is_refused() {
    let mut m = AuthMachine::new();
    let r = on_client_message(&mut m, WsMessage::AuthResponse { response: s("pw") }, &allow());
    assert!(matches!(r, Err(IpcError::Protocol(_))));
    let r = on_client_message(&mut m, WsMessage::AuthSuccess, &allow());
    assert!(matches!(r, Err(IpcError::Protocol(_))));
    assert_eq!(m.state(), AuthState::Unauthenticated);
    assert_eq!(m.pending(), None);
}

#[test]
fn answer_round_trip() {
    let q = ws_to_ipc(WsMessage::AuthResponse { response: s("hunter2") }, &allow());
    match q {
        Ok(DaemonRequest::PostAuthMessageResponse { response }) => {
            assert_eq!(response, Some(s("hunter2")))
        }
        _ => panic!("expected an answer request"),
    }
}

#[test]
fn prompt_round_trip() {
    for (t, tag) in [
        (AuthMessageType::Visible, "VISIBLE"),
        (AuthMessageType::Secret, "SECRET"),
        (AuthMessageType::Info, "INFO"),
        (AuthMessageType::Error, "ERROR"),
    ] {
        let msg = ipc_to_ws(DaemonResponse::AuthMessage {
            auth_message_type: t,
            auth_message: s("text"),
        });
        match msg {
            WsMessage::AuthPrompt { message, message_type } => {
                assert_eq!(message, "text");
                assert_eq!(message_type, tag);
                assert_eq!(parse_message_type(&message_type), Some(t));
            }
            _ => panic!("expected a prompt"),
        }
        assert_eq!(message_type_tag(t), tag);
    }
    assert_eq!(parse_message_type(&s("secret")), None);
}

#[test]
fn ws_to_ipc_translates_client_messages() {
    assert_eq!(
        ws_to_ipc(WsMessage::AuthRequest { username: s("bob") }, &allow()),
        Ok(DaemonRequest::CreateSession { username: s("bob") })
    );
    assert_eq!(
        ws_to_ipc(WsMessage::StartSession { cmd: vec![s("sh")], env: vec![] }, &allow()),
        Ok(DaemonRequest::StartSession { cmd: vec![s("sh")], env: vec![] })
    );
    assert!(matches!(ws_to_ipc(WsMessage::AuthSuccess, &allow()), Err(IpcError::Protocol(_))));
}

#[test]
fn ipc_to_ws_translates_responses() {
    assert_eq!(ipc_to_ws(DaemonResponse::Success), WsMessage::AuthSuccess);
    assert_eq!(
        ipc_to_ws(DaemonResponse::Error { error_type: ErrorType::Error, description: s("boom") }),
        WsMessage::AuthError { reason: s("boom") }
    );
    assert_eq!(
        event_to_ws(Event::Failed { reason: s("boom") }),
        WsMessage::AuthError { reason: s("boom") }
    );
}

#[test]
fn error_classes() {
    assert_eq!(IpcError::Connection(s("x")).class(), FailureClass::Connection);
    assert_eq!(IpcError::Serialization(s("x")).class(), FailureClass::Serialization);
    assert_eq!(IpcError::Protocol(s("x")).class(), FailureClass::Protocol);
    assert_eq!(IpcError::WebSocket(s("x")).class(), FailureClass::Connection);
    assert_eq!(IpcError::IpcProtocol(s("x")).class(), FailureClass::Serialization);
}

#[test]
fn message_type_tags() {
    assert_eq!(WsMessage::AuthRequest { username: s("a") }.type_tag(), "AUTH_REQUEST");
    assert_eq!(WsMessage::AuthResponse { response: s("a") }.type_tag(), "AUTH_RESPONSE");
    assert_eq!(WsMessage::StartSession { cmd: vec![], env: vec![] }.type_tag(), "START_SESSION");
    assert_eq!(WsMessage::AuthSuccess.type_tag(), "AUTH_SUCCESS");
}

#[test]
fn browser_start_environment_is_filtered() {
    let env = vec![s("LANG=C"), s("PATH=/bin"), s("SECRET_TOKEN=x")];
    assert_eq!(
        ws_to_ipc(WsMessage::StartSession { cmd: vec![s("sway")], env: env.clone() }, &allow()),
        Ok(DaemonRequest::StartSession {
            cmd: vec![s("sway")],
            env: vec![s("LANG=C"), s("PATH=/bin")]
        })
    );
    let mut m = AuthMachine::new();
    on_client_message(&mut m, WsMessage::AuthRequest { username: s("alice") }, &allow()).unwrap();
    m.on_response(DaemonResponse::Success);
    let q = on_client_message(&mut m, WsMessage::StartSession { cmd: vec![s("sway")], env }, &allow());
    assert_eq!(
        q,
        Ok(DaemonRequest::StartSession {
            cmd: vec![s("sway")],
            env: vec![s("LANG=C"), s("PATH=/bin")]
        })
    );
    assert_eq!(
        ws_to_ipc(WsMessage::StartSession { cmd: vec![], env: vec![s("SECRET_TOKEN=x")] }, &allow()),
        Ok(DaemonRequest::StartSession { cmd: vec![], env: vec![] })
    );
}

#[test]
fn new_login_after_rejection_once_cancel_is_answered() {
    let mut m = AuthMachine::new();
    on_client_message(&mut m, WsMessage::AuthRequest { username: s("alice") }, &allow()).unwrap();
    m.on_response(DaemonResponse::Error {
        error_type: ErrorType::AuthError,
        description: s("invalid credentials"),
    });
    let early = on_client_message(&mut m, WsMessage::AuthRequest { username: s("bob") }, &allow());
    assert!(matches!(early, Err(IpcError::Protocol(_))));
    m.on_response(DaemonResponse::Success);
    let q = on_client_message(&mut m, WsMessage::AuthRequest { username: s("bob") }, &allow());
    assert_eq!(q, Ok(DaemonRequest::CreateSession { username: s("bob") }));
    assert_eq!(m.username(), "bob");
}
