//! The authentication state machine: one login attempt against the daemon.
//!
//! The machine never talks to the daemon itself. Each method returns the
//! request to send, if any; the front-end sends it, waits for the response and
//! hands that back through `on_response`. At most one request is outstanding
//! at any time: it is recorded as the pending request kind.
use crate::protocol::{AuthMessageType, DaemonRequest, DaemonResponse, ErrorType, RequestKind};
use crate::retry::FailureClass;
use vstd::prelude::*;

verus! {

/// Where a login attempt stands.
#[derive(Clone, Copy, Debug, PartialEq, Eq, Structural)]
pub enum AuthState {
    /// No credentials accepted yet.
    Unauthenticated,
    /// A prompt was shown and the user's answer is awaited.
    AwaitingPromptResponse,
    /// The daemon accepted the credentials; the session is not started yet.
    Authenticated,
    /// A start-session request is outstanding.
    Starting,
    /// The session was started: final success.
    Terminated,
    /// A fatal failure: final.
    Failed,
}

impl AuthState {
    pub open spec fn spec_is_final(self) -> bool {
        self is Terminated || self is Failed
    }

    pub fn is_final(self) -> (r: bool)
        ensures
            r == self.spec_is_final(),
    {
        match self {
            AuthState::Terminated | AuthState::Failed => true,
            _ => false,
        }
    }
}

/// The command and environment a started session runs with.
#[derive(Clone, Debug, PartialEq, Eq)]
pub struct SessionStartSpec {
    pub command: Vec<String>,
    pub environment: Vec<String>,
}

/// What the front-end is told after a daemon response.
#[derive(Clone, Debug, PartialEq, Eq)]
pub enum Event {
    /// A prompt of any kind; visible and secret ones wait for an answer.
    Prompt { kind: AuthMessageType, text: String },
    /// Credentials accepted; a start spec is awaited from the front-end.
    Authenticated,
    /// The session is live.
    SessionStarted,
    /// The daemon rejected the credentials; a new attempt may follow.
    AuthFailed { reason: String },
    /// The daemon reported another error; the attempt is over.
    Failed { reason: String },
    /// The daemon answered when no answer was expected.
    ProtocolViolation,
}

impl Event {
    pub open spec fn spec_failure_class(&self) -> Option<FailureClass> {
        match self {
            Event::AuthFailed { .. } => Some(FailureClass::Authentication),
            Event::Failed { .. } => Some(FailureClass::Daemon),
            Event::ProtocolViolation => Some(FailureClass::Protocol),
            _ => None,
        }
    }

    /// The retry class of an event that ends an attempt; `None` for the others.
    pub fn failure_class(&self) -> (r: Option<FailureClass>)
        ensures
            r == self.spec_failure_class(),
    {
        match self {
            Event::AuthFailed { .. } => Some(FailureClass::Authentication),
            Event::Failed { .. } => Some(FailureClass::Daemon),
            Event::ProtocolViolation => Some(FailureClass::Protocol),
            _ => None,
        }
    }
}

/// What the machine's control flow reads of a daemon response.
#[derive(Clone, Copy, Debug, PartialEq, Eq, Structural)]
pub enum ResponseShape {
    Success,
    AuthError,
    OtherError,
    /// A visible or secret prompt.
    Question,
    /// An info or error prompt.
    Notice,
}

pub open spec fn spec_shape(r: DaemonResponse) -> ResponseShape {
    match r {
        DaemonResponse::Success => ResponseShape::Success,
        DaemonResponse::Error { error_type: ErrorType::AuthError, .. } => ResponseShape::AuthError,
        DaemonResponse::Error { error_type: ErrorType::Error, .. } => ResponseShape::OtherError,
        DaemonResponse::AuthMessage { auth_message_type, .. } => if auth_message_type.spec_expects_answer() {
            ResponseShape::Question
        } else {
            ResponseShape::Notice
        },
    }
}

/// An input from the front-end.
#[derive(Clone, Copy, Debug, PartialEq, Eq, Structural)]
pub enum CallerInput {
    Begin,
    Respond,
    Start,
}

/// The part of the machine that decides which request may go out.
pub struct MachineModel {
    pub state: AuthState,
    pub pending: Option<RequestKind>,
    pub auto_start: bool,
}

/// Whether the machine takes a front-end input in this state.
pub open spec fn model_accepts(m: MachineModel, c: CallerInput) -> bool {
    &&& m.pending is None
    &&& match c {
        CallerInput::Begin => m.state is Unauthenticated || m.state is Failed,
        CallerInput::Respond => m.state is AwaitingPromptResponse,
        CallerInput::Start => m.state is Authenticated,
    }
}

/// The model after a front-end input; a refused input changes nothing.
pub open spec fn model_on_caller(m: MachineModel, c: CallerInput) -> MachineModel {
    if !model_accepts(m, c) {
        m
    } else {
        match c {
            CallerInput::Begin => MachineModel {
                state: AuthState::Unauthenticated,
                pending: Some(RequestKind::CreateSession),
                ..m
            },
            CallerInput::Respond => MachineModel { pending: Some(RequestKind::PostResponse), ..m },
            CallerInput::Start => MachineModel {
                state: AuthState::Starting,
                pending: Some(RequestKind::StartSession),
                ..m
            },
        }
    }
}

/// The model after a daemon response. The new pending kind is the kind of
/// the request sent in reply, if one is.
pub open spec fn model_on_response(m: MachineModel, r: ResponseShape) -> MachineModel {
    match m.pending {
        None => MachineModel {
            state: if m.state is Terminated {
                AuthState::Terminated
            } else {
                AuthState::Failed
            },
            ..m
        },
        Some(RequestKind::CancelSession) => MachineModel { pending: None, ..m },
        Some(k) => match r {
            ResponseShape::Question => if k == RequestKind::StartSession {
                MachineModel { state: AuthState::Failed, pending: None, ..m }
            } else {
                MachineModel { state: AuthState::AwaitingPromptResponse, pending: None, ..m }
            },
            ResponseShape::Notice => if k == RequestKind::StartSession {
                MachineModel { state: AuthState::Failed, pending: None, ..m }
            } else {
                MachineModel { pending: Some(RequestKind::PostResponse), ..m }
            },
            ResponseShape::Success => if k == RequestKind::StartSession {
                MachineModel { state: AuthState::Terminated, pending: None, ..m }
            } else if m.auto_start {
                MachineModel {
                    state: AuthState::Starting,
                    pending: Some(RequestKind::StartSession),
                    ..m
                }
            } else {
                MachineModel { state: AuthState::Authenticated, pending: None, ..m }
            },
            ResponseShape::AuthError => MachineModel {
                state: AuthState::Unauthenticated,
                pending: Some(RequestKind::CancelSession),
                ..m
            },
            ResponseShape::OtherError => MachineModel {
                state: AuthState::Failed,
                pending: Some(RequestKind::CancelSession),
                ..m
            },
        },
    }
}

/// One input to the machine: from the front-end or from the daemon.
#[derive(Clone, Copy, Debug, PartialEq, Eq, Structural)]
pub enum Input {
    Caller(CallerInput),
    Daemon(ResponseShape),
}

pub open spec fn model_input(m: MachineModel, i: Input) -> MachineModel {
    match i {
        Input::Caller(c) => model_on_caller(m, c),
        Input::Daemon(r) => model_on_response(m, r),
    }
}

/// Every daemon response in `inputs` answers an outstanding request.
pub open spec fn valid_inputs(m: MachineModel, inputs: Seq<Input>) -> bool
    decreases inputs.len(),
{
    inputs.len() == 0 || ((inputs[0] is Daemon ==> m.pending is Some) && valid_inputs(
        model_input(m, inputs[0]),
        inputs.drop_first(),
    ))
}

/// The traffic on the daemon connection that `inputs` cause, in order:
/// `true` for a request sent, `false` for a response received.
pub open spec fn wire_trace(m: MachineModel, inputs: Seq<Input>) -> Seq<bool>
    decreases inputs.len(),
{
    if inputs.len() == 0 {
        Seq::empty()
    } else {
        let next = model_input(m, inputs[0]);
        let here = match inputs[0] {
            Input::Caller(c) => if model_accepts(m, c) {
                seq![true]
            } else {
                Seq::empty()
            },
            Input::Daemon(_) => if next.pending is Some {
                seq![false, true]
            } else {
                seq![false]
            },
        };
        here + wire_trace(next, inputs.drop_first())
    }
}

/// Sends and receives alternate, starting with a request outstanding or not.
pub open spec fn alternates(t: Seq<bool>, outstanding: bool) -> bool
    decreases t.len(),
{
    t.len() == 0 || (t[0] != outstanding && alternates(t.drop_first(), t[0]))
}

/// For every sequence of inputs in which the daemon only answers outstanding
/// requests, the machine never sends two requests without a response between
/// them, and never expects a response without having sent a request.
pub proof fn lemma_requests_alternate(m: MachineModel, inputs: Seq<Input>)
    requires
        valid_inputs(m, inputs),
    ensures
        alternates(wire_trace(m, inputs), m.pending is Some),
    decreases inputs.len(),
{
    if inputs.len() > 0 {
        let next = model_input(m, inputs[0]);
        let rest = wire_trace(next, inputs.drop_first());
        lemma_requests_alternate(next, inputs.drop_first());
        let t = wire_trace(m, inputs);
        match inputs[0] {
            Input::Caller(c) => {
                if model_accepts(m, c) {
                    assert(t =~= seq![true] + rest);
                    assert(t.drop_first() =~= rest);
                    assert(next.pending is Some);
                } else {
                    assert(t =~= rest);
                }
            },
            Input::Daemon(_) => {
                assert(m.pending is Some);
                if next.pending is Some {
                    assert(t =~= seq![false, true] + rest);
                    assert(t.drop_first() =~= seq![true] + rest);
                    assert(t.drop_first().drop_first() =~= rest);
                    assert(alternates(t.drop_first(), false));
                } else {
                    assert(t =~= seq![false] + rest);
                    assert(t.drop_first() =~= rest);
                }
            },
        }
    }
}

/// Whether input `i` makes the machine send a request.
pub open spec fn model_sends(m: MachineModel, i: Input) -> bool {
    match i {
        Input::Caller(c) => model_accepts(m, c),
        Input::Daemon(_) => model_input(m, i).pending is Some,
    }
}

/// The request kinds that an input may cause in a state: a create request
/// only when a login begins with no session under way; an answer only for a
/// prompt that asked for one, or as the acknowledgment of an info or error
/// prompt; a start request only once authenticated, or at once on the
/// daemon's success when the machine holds a launch spec; a cancel request
/// only in reply to an error about the outstanding create, answer or start
/// request.
pub open spec fn derivable(m: MachineModel, i: Input, k: RequestKind) -> bool {
    let answering = m.pending == Some(RequestKind::CreateSession) || m.pending == Some(
        RequestKind::PostResponse,
    );
    match k {
        RequestKind::CreateSession => i == Input::Caller(CallerInput::Begin) && m.pending is None && (
        m.state is Unauthenticated || m.state is Failed),
        RequestKind::PostResponse => (i == Input::Caller(CallerInput::Respond) && m.pending is None
            && m.state is AwaitingPromptResponse) || (i == Input::Daemon(ResponseShape::Notice)
            && answering),
        RequestKind::StartSession => (i == Input::Caller(CallerInput::Start) && m.pending is None
            && m.state is Authenticated) || (i == Input::Daemon(ResponseShape::Success) && answering
            && m.auto_start),
        RequestKind::CancelSession => (i == Input::Daemon(ResponseShape::AuthError) || i
            == Input::Daemon(ResponseShape::OtherError)) && (answering || m.pending == Some(
            RequestKind::StartSession,
        )),
    }
}

/// Every request the machine sends is of a kind that its state and the input
/// just received allow, and it becomes the outstanding request.
pub proof fn lemma_sent_kind_derivable(m: MachineModel, i: Input)
    requires
        model_sends(m, i),
    ensures
        model_input(m, i).pending is Some,
        derivable(m, i, model_input(m, i).pending->0),
{
}

/// Rejected credentials: the machine asks to cancel the session and returns
/// to unauthenticated; no new login is taken until the cancel is answered,
/// and once it is, whatever the answer, a new login is taken.
pub proof fn lemma_auth_error_cancels_first(m: MachineModel, cancel_answer: ResponseShape)
    requires
        m.pending is Some,
        m.pending != Some(RequestKind::CancelSession),
    ensures
        model_on_response(m, ResponseShape::AuthError).state is Unauthenticated,
        model_on_response(m, ResponseShape::AuthError).pending == Some(RequestKind::CancelSession),
        !model_accepts(model_on_response(m, ResponseShape::AuthError), CallerInput::Begin),
        model_accepts(
            model_on_response(model_on_response(m, ResponseShape::AuthError), cancel_answer),
            CallerInput::Begin,
        ),
{
}

/// The outcome of one daemon response: what to send next, what to report.
pub struct Step {
    pub request: Option<DaemonRequest>,
    pub event: Option<Event>,
}

/// Copies a list of strings.
fn clone_strings(v: &Vec<String>) -> (r: Vec<String>)
    ensures
        r@ == v@,
{
    let r = v.clone();
    assert(r@ =~= v@);
    r
}

/// One login attempt: its user, its state, the request awaiting an answer,
/// and how many times the credentials were rejected in a row.
pub struct AuthMachine {
    username: String,
    state: AuthState,
    pending: Option<RequestKind>,
    retry_count: u64,
    launch: Option<SessionStartSpec>,
}

impl AuthMachine {
    pub closed spec fn spec_username(&self) -> Seq<char> {
        self.username@
    }

    pub closed spec fn spec_state(&self) -> AuthState {
        self.state
    }

    pub closed spec fn spec_pending(&self) -> Option<RequestKind> {
        self.pending
    }

    pub closed spec fn spec_retry_count(&self) -> nat {
        self.retry_count as nat
    }

    /// Whether the machine starts the session by itself once authenticated.
    pub closed spec fn spec_auto_start(&self) -> bool {
        self.launch is Some
    }

    pub closed spec fn spec_launch_command(&self) -> Seq<String> {
        match self.launch {
            Some(s) => s.command@,
            None => Seq::empty(),
        }
    }

    pub closed spec fn spec_launch_environment(&self) -> Seq<String> {
        match self.launch {
            Some(s) => s.environment@,
            None => Seq::empty(),
        }
    }

    pub open spec fn spec_model(&self) -> MachineModel {
        MachineModel {
            state: self.spec_state(),
            pending: self.spec_pending(),
            auto_start: self.spec_auto_start(),
        }
    }

    /// Which request kinds may be outstanding in which state.
    pub open spec fn wf(&self) -> bool {
        let st = self.spec_state();
        let p = self.spec_pending();
        &&& (st is Starting <==> p == Some(RequestKind::StartSession))
        &&& (st is Authenticated || st is Terminated) ==> p is None
        &&& p == Some(RequestKind::CreateSession) ==> st is Unauthenticated
        &&& p == Some(RequestKind::PostResponse) ==> (st is Unauthenticated
            || st is AwaitingPromptResponse)
        &&& p == Some(RequestKind::CancelSession) ==> (st is Unauthenticated || st is Failed)
    }

    /// Fields that no daemon response changes.
    pub open spec fn same_config(&self, other: &AuthMachine) -> bool {
        &&& self.spec_username() == other.spec_username()
        &&& self.same_launch(other)
    }

    /// The launch configuration, which no step changes.
    pub open spec fn same_launch(&self, other: &AuthMachine) -> bool {
        &&& self.spec_auto_start() == other.spec_auto_start()
        &&& self.spec_launch_command() == other.spec_launch_command()
        &&& self.spec_launch_environment() == other.spec_launch_environment()
    }

    /// A machine that waits for the front-end to supply the start spec.
    pub fn new() -> (r: AuthMachine)
        ensures
            r.wf(),
            r.spec_state() is Unauthenticated,
            r.spec_pending() is None,
            r.spec_retry_count() == 0,
            r.spec_username().len() == 0,
            !r.spec_auto_start(),
    {
        AuthMachine {
            username: String::new(),
            state: AuthState::Unauthenticated,
            pending: None,
            retry_count: 0,
            launch: None,
        }
    }

    /// A machine that starts the session with `launch` as soon as the
    /// credentials are accepted.
    pub fn with_launch(launch: SessionStartSpec) -> (r: AuthMachine)
        ensures
            r.wf(),
            r.spec_state() is Unauthenticated,
            r.spec_pending() is None,
            r.spec_retry_count() == 0,
            r.spec_username().len() == 0,
            r.spec_auto_start(),
            r.spec_launch_command() == launch.command@,
            r.spec_launch_environment() == launch.environment@,
    {
        AuthMachine {
            username: String::new(),
            state: AuthState::Unauthenticated,
            pending: None,
            retry_count: 0,
            launch: Some(launch),
        }
    }

    pub fn state(&self) -> (r: AuthState)
        ensures
            r == self.spec_state(),
    {
        self.state
    }

    pub fn pending(&self) -> (r: Option<RequestKind>)
        ensures
            r == self.spec_pending(),
    {
        self.pending
    }

    pub fn retry_count(&self) -> (r: u64)
        ensures
            r == self.spec_retry_count(),
    {
        self.retry_count
    }

    pub fn username(&self) -> (r: &String)
        ensures
            r@ == self.spec_username(),
    {
        &self.username
    }

    /// Starts a session for `username`. Accepted only when nothing is
    /// outstanding and no session is under way: unauthenticated, or after a
    /// failed session, which this one replaces. Otherwise nothing changes and
    /// `None` comes back.
    pub fn begin(&mut self, username: String) -> (r: Option<DaemonRequest>)
        requires
            old(self).wf(),
        ensures
            final(self).wf(),
            final(self).spec_model() == model_on_caller(old(self).spec_model(), CallerInput::Begin),
            r is Some <==> ((old(self).spec_state() is Unauthenticated || old(self).spec_state() is Failed)
                && old(self).spec_pending() is None),
            r is Some ==> {
                &&& r == Some(DaemonRequest::CreateSession { username })
                &&& final(self).spec_username() == username@
                &&& final(self).spec_state() is Unauthenticated
                &&& final(self).spec_pending() == Some(RequestKind::CreateSession)
                &&& final(self).spec_retry_count() == old(self).spec_retry_count()
                &&& final(self).same_launch(old(self))
            },
            r is None ==> *final(self) == *old(self),
    {
        match (self.state, self.pending) {
            (AuthState::Unauthenticated, None) | (AuthState::Failed, None) => {
                let sent = username.clone();
                self.state = AuthState::Unauthenticated;
                self.username = username;
                self.pending = Some(RequestKind::CreateSession);
                Some(DaemonRequest::CreateSession { username: sent })
            },
            _ => None,
        }
    }

    /// Answers the prompt that was shown. Accepted only while a prompt is
    /// awaiting its answer and nothing is outstanding.
    pub fn respond(&mut self, response: Option<String>) -> (r: Option<DaemonRequest>)
        requires
            old(self).wf(),
        ensures
            final(self).wf(),
            final(self).same_config(old(self)),
            final(self).spec_model() == model_on_caller(old(self).spec_model(), CallerInput::Respond),
            final(self).spec_state() == old(self).spec_state(),
            final(self).spec_retry_count() == old(self).spec_retry_count(),
            r is Some <==> (old(self).spec_state() is AwaitingPromptResponse
                && old(self).spec_pending() is None),
            r is Some ==> r == Some(DaemonRequest::PostAuthMessageResponse { response })
                && final(self).spec_pending() == Some(RequestKind::PostResponse),
            r is None ==> *final(self) == *old(self),
    {
        match (self.state, self.pending) {
            (AuthState::AwaitingPromptResponse, None) => {
                self.pending = Some(RequestKind::PostResponse);
                Some(DaemonRequest::PostAuthMessageResponse { response })
            },
            _ => None,
        }
    }

    /// Starts the authenticated session with a spec chosen by the front-end.
    /// Accepted only once authenticated.
    pub fn start_session(&mut self, spec: SessionStartSpec) -> (r: Option<DaemonRequest>)
        requires
            old(self).wf(),
        ensures
            final(self).wf(),
            final(self).same_config(old(self)),
            final(self).spec_model() == model_on_caller(old(self).spec_model(), CallerInput::Start),
            final(self).spec_retry_count() == old(self).spec_retry_count(),
            r is Some <==> (old(self).spec_state() is Authenticated && old(self).spec_pending() is None),
            r is Some ==> r == Some(DaemonRequest::StartSession { cmd: spec.command, env: spec.environment })
                && final(self).spec_state() is Starting
                && final(self).spec_pending() == Some(RequestKind::StartSession),
            r is None ==> *final(self) == *old(self),
    {
        match (self.state, self.pending) {
            (AuthState::Authenticated, None) => {
                self.state = AuthState::Starting;
                self.pending = Some(RequestKind::StartSession);
                Some(DaemonRequest::StartSession { cmd: spec.command, env: spec.environment })
            },
            _ => None,
        }
    }
    /// Handles the daemon's answer to the outstanding request.
    ///
    /// - No request outstanding: a protocol violation; the attempt fails.
    /// - Answer to a cancel request: ignored.
    /// - Visible or secret prompt: shown; the user's answer is awaited.
    /// - Info or error prompt: shown; acknowledged at once with an empty answer.
    /// - Success of a create or answer request: authenticated; with a launch
    ///   spec the session is started at once, else the front-end is told.
    /// - Success of a start request: the session is live.
    /// - Rejected credentials: the session is cancelled and the machine
    ///   returns to unauthenticated, counting the rejection.
    /// - Any other error: the session is cancelled and the attempt fails.
    /// A prompt in answer to a start request is a protocol violation too.
    pub fn on_response(&mut self, resp: DaemonResponse) -> (s: Step)
        requires
            old(self).wf(),
        ensures
            final(self).wf(),
            final(self).same_config(old(self)),
            final(self).spec_model() == model_on_response(old(self).spec_model(), spec_shape(resp)),
            // a request goes out only in answer to the outstanding one, and becomes the outstanding one
            s.request is Some ==> old(self).spec_pending() is Some
                && old(self).spec_pending() != Some(RequestKind::CancelSession)
                && final(self).spec_pending() == Some(s.request->0.spec_kind()),
            s.request is None ==> final(self).spec_pending() is None,
            old(self).spec_pending() is None ==> {
                &&& final(self).spec_state() == (if old(self).spec_state() is Terminated {
                    AuthState::Terminated
                } else {
                    AuthState::Failed
                })
                &&& s.request is None
                &&& s.event == Some(Event::ProtocolViolation)
                &&& final(self).spec_retry_count() == old(self).spec_retry_count()
            },
            old(self).spec_pending() == Some(RequestKind::CancelSession) ==> {
                &&& final(self).spec_state() == old(self).spec_state()
                &&& s.request is None
                &&& s.event is None
                &&& final(self).spec_retry_count() == old(self).spec_retry_count()
            },
            old(self).spec_pending() is Some && old(self).spec_pending() != Some(RequestKind::CancelSession)
                ==> match resp {
                DaemonResponse::AuthMessage { auth_message_type: t, auth_message: text } => if old(
                    self,
                ).spec_pending() == Some(RequestKind::StartSession) {
                    &&& final(self).spec_state() is Failed
                    &&& s.request is None
                    &&& s.event == Some(Event::ProtocolViolation)
                    &&& final(self).spec_retry_count() == old(self).spec_retry_count()
                } else if t.spec_expects_answer() {
                    &&& final(self).spec_state() is AwaitingPromptResponse
                    &&& s.request is None
                    &&& s.event == Some(Event::Prompt { kind: t, text })
                    &&& final(self).spec_retry_count() == 0
                } else {
                    &&& final(self).spec_state() == old(self).spec_state()
                    &&& s.request == Some(DaemonRequest::PostAuthMessageResponse { response: None })
                    &&& s.event == Some(Event::Prompt { kind: t, text })
                    &&& final(self).spec_retry_count() == 0
                },
                DaemonResponse::Success => if old(self).spec_pending() == Some(RequestKind::StartSession) {
                    &&& final(self).spec_state() is Terminated
                    &&& s.request is None
                    &&& s.event == Some(Event::SessionStarted)
                    &&& final(self).spec_retry_count() == 0
                } else if old(self).spec_auto_start() {
                    &&& final(self).spec_state() is Starting
                    &&& s.request matches Some(DaemonRequest::StartSession { cmd, env })
                    &&& cmd@ == old(self).spec_launch_command()
                    &&& env@ == old(self).spec_launch_environment()
                    &&& s.event is None
                    &&& final(self).spec_retry_count() == 0
                } else {
                    &&& final(self).spec_state() is Authenticated
                    &&& s.request is None
                    &&& s.event == Some(Event::Authenticated)
                    &&& final(self).spec_retry_count() == 0
                },
                DaemonResponse::Error { error_type: ErrorType::AuthError, description } => {
                    &&& final(self).spec_state() is Unauthenticated
                    &&& s.request == Some(DaemonRequest::CancelSession)
                    &&& s.event == Some(Event::AuthFailed { reason: description })
                    &&& final(self).spec_retry_count() == (if old(self).spec_retry_count() < u64::MAX {
                        old(self).spec_retry_count() + 1
                    } else {
                        old(self).spec_retry_count()
                    })
                },
                DaemonResponse::Error { error_type: ErrorType::Error, description } => {
                    &&& final(self).spec_state() is Failed
                    &&& s.request == Some(DaemonRequest::CancelSession)
                    &&& s.event == Some(Event::Failed { reason: description })
                    &&& final(self).spec_retry_count() == old(self).spec_retry_count()
                },
            },
    {
        let answered = match self.pending {
            None => {
                if !self.state.is_final() {
                    self.state = AuthState::Failed;
                }
                return Step { request: None, event: Some(Event::ProtocolViolation) };
            },
            Some(RequestKind::CancelSession) => {
                self.pending = None;
                return Step { request: None, event: None };
            },
            Some(k) => k,
        };
        match resp {
            DaemonResponse::AuthMessage { auth_message_type, auth_message } => {
                if answered == RequestKind::StartSession {
                    self.state = AuthState::Failed;
                    self.pending = None;
                    Step { request: None, event: Some(Event::ProtocolViolation) }
                } else if auth_message_type.expects_answer() {
                    self.state = AuthState::AwaitingPromptResponse;
                    self.pending = None;
                    self.retry_count = 0;
                    Step {
                        request: None,
                        event: Some(Event::Prompt { kind: auth_message_type, text: auth_message }),
                    }
                } else {
                    self.pending = Some(RequestKind::PostResponse);
                    self.retry_count = 0;
                    Step {
                        request: Some(DaemonRequest::PostAuthMessageResponse { response: None }),
                        event: Some(Event::Prompt { kind: auth_message_type, text: auth_message }),
                    }
                }
            },
            DaemonResponse::Success => {
                self.retry_count = 0;
                if answered == RequestKind::StartSession {
                    self.state = AuthState::Terminated;
                    self.pending = None;
                    Step { request: None, event: Some(Event::SessionStarted) }
                } else {
                    match &self.launch {
                        Some(spec) => {
                            let cmd = clone_strings(&spec.command);
                            let env = clone_strings(&spec.environment);
                            self.state = AuthState::Starting;
                            self.pending = Some(RequestKind::StartSession);
                            Step { request: Some(DaemonRequest::StartSession { cmd, env }), event: None }
                        },
                        None => {
                            self.state = AuthState::Authenticated;
                            self.pending = None;
                            Step { request: None, event: Some(Event::Authenticated) }
                        },
                    }
                }
            },
            DaemonResponse::Error { error_type, description } => {
                self.pending = Some(RequestKind::CancelSession);
                match error_type {
                    ErrorType::AuthError => {
                        self.state = AuthState::Unauthenticated;
                        if self.retry_count < u64::MAX {
                            self.retry_count = self.retry_count + 1;
                        }
                        Step {
                            request: Some(DaemonRequest::CancelSession),
                            event: Some(Event::AuthFailed { reason: description }),
                        }
                    },
                    ErrorType::Error => {
                        self.state = AuthState::Failed;
                        Step {
                            request: Some(DaemonRequest::CancelSession),
                            event: Some(Event::Failed { reason: description }),
                        }
                    },
                }
            },
        }
    }
}

} // verus!
