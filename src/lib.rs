//! Authentication bridge for a greetd-style login daemon.
//!
//! The library holds the logic: the daemon's request/response vocabulary, the
//! authentication state machine that decides which request comes next, the
//! browser-facing message vocabulary and its conversions, the retry policy,
//! environment forwarding and the escaping used by the login page.

mod environ;
mod machine;
mod message;
mod page;
mod protocol;
mod retry;

pub use environ::{
    env_key, forward_environment, is_allowed, resolve_command, session_start_spec,
};
pub use machine::{
    lemma_auth_error_cancels_first, lemma_requests_alternate, lemma_sent_kind_derivable, AuthMachine, AuthState, CallerInput, Event, Input, MachineModel,
    ResponseShape, SessionStartSpec, Step,
};
pub use message::{
    bridge_action, event_to_ws, ipc_to_ws, lemma_answer_round_trip, lemma_prompt_round_trip,
    message_type_tag, on_client_message, parse_message_type, ws_to_ipc, BridgeAction, Completion,
    IpcError, WsMessage,
};
pub use page::{html_escape, render_page};
pub use protocol::{AuthMessageType, DaemonRequest, DaemonResponse, ErrorType, RequestKind};
pub use retry::{
    backoff_delay, lemma_backoff_starts_at_base, lemma_backoff_strictly_increasing,
    should_retry_immediately, Backoff, FailureClass, RetryDecision, RetryState,
};
