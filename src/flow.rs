use vstd::prelude::*;
use vstd::string::*;

use crate::connection::{auth_config_invalid, policy_of, ExecutionResult, SSH};
use crate::error::{kind_label, ErrorKind};
use crate::formatter::format_spec;
use crate::parser::{CommandGroupView, ServerCommands, ServerConnectView};
use crate::session::{lemma_missing_key_fails_before_network, session_after, session_begin, SessionState};

verus! {

/// The text that the operator is shown about the operation in progress.
/// It is only ever replaced as a whole, never edited in place.
pub struct StatusChannel {
    text: String,
}

impl View for StatusChannel {
    type V = Seq<char>;

    closed spec fn view(&self) -> Seq<char> {
        self.text@
    }
}

impl StatusChannel {
    pub fn new(text: String) -> (r: StatusChannel)
        ensures
            r@ == text@,
    {
        StatusChannel { text }
    }

    pub fn text(&self) -> (r: &str)
        ensures
            r@ == self@,
    {
        self.text.as_str()
    }

    /// Replaces the whole text.
    pub fn replace(&mut self, text: String)
        ensures
            final(self)@ == text@,
    {
        self.text = text;
    }
}

/// Where the operation in flight stands.
#[derive(Debug, Clone, Copy, PartialEq, Eq, Structural)]
pub enum FlowPhase {
    Idle,
    Connecting,
    Authenticating,
    Executing,
    Reporting,
}

/// The work that the caller is to do next for the operation in flight.
#[derive(Debug, Clone, Copy, PartialEq, Eq, Structural)]
pub enum FlowAction {
    /// Open a transport connection to the target's address.
    OpenTransport,
    /// Run the remote-session handshake.
    Handshake,
    /// Authenticate in the way that the target declares.
    Authenticate,
    /// Run the command line on the session.
    Execute,
    /// Release the session and everything opened for it.
    Release,
    /// Nothing.
    Nothing,
}

/// The outcome of the work last asked for.
#[derive(Debug, PartialEq, Eq)]
pub enum FlowEvent {
    /// The transport, handshake or authentication step succeeded.
    StepSucceeded,
    /// The transport, handshake or authentication step failed, as described.
    StepFailed(String),
    /// The command line ran; this is what it produced.
    Executed(ExecutionResult),
    /// No execution channel could be opened, or the line not submitted.
    ExecFailed(String),
    /// The session has been released.
    Released,
}

/// A trigger that came while another operation was in flight.
#[derive(Debug, Clone, Copy, PartialEq, Eq, Structural)]
pub struct Busy;

pub struct OrchestratorView {
    pub phase: FlowPhase,
    pub session: SessionState,
    pub status: Seq<char>,
    pub target: Option<ServerConnectView>,
    pub line: Seq<char>,
}

/// Drives one operation at a time from a trigger to its report, and keeps
/// the status text that the display shows.
pub struct Orchestrator {
    phase: FlowPhase,
    session: SessionState,
    status: StatusChannel,
    target: Option<SSH>,
    line: String,
}

impl View for Orchestrator {
    type V = OrchestratorView;

    closed spec fn view(&self) -> OrchestratorView {
        OrchestratorView {
            phase: self.phase,
            session: self.session,
            status: self.status@,
            target: match self.target {
                Some(t) => Some(t@),
                None => None,
            },
            line: self.line@,
        }
    }
}

pub open spec fn initiating_message() -> Seq<char> {
    "Iniciando conexão com o servidor"@
}

pub open spec fn executing_message() -> Seq<char> {
    "Executando comandos no servidor..."@
}

pub open spec fn output_message(output: Seq<char>) -> Seq<char> {
    "Saída do comando: "@ + output
}

pub open spec fn failure_message(kind: ErrorKind, detail: Seq<char>) -> Seq<char> {
    "Não foi possivel concluir a operação, "@ + kind_label(kind) + ": "@ + detail
}

pub open spec fn missing_key_detail() -> Seq<char> {
    "chave privada não informada"@
}

pub open spec fn empty_group_detail() -> Seq<char> {
    "grupo de comandos vazio"@
}

/// The phases and session states that go together.
pub open spec fn flow_wf(s: OrchestratorView) -> bool {
    match s.phase {
        FlowPhase::Idle => s.target is None,
        FlowPhase::Connecting => s.target is Some && (s.session is Disconnected
            || s.session is TransportOpen),
        FlowPhase::Authenticating => s.target is Some && s.session is Handshaken,
        FlowPhase::Executing | FlowPhase::Reporting => s.target is Some && s.session is Authenticated,
    }
}

/// Back to idle after a failure of class `kind`, described by `detail`.
pub open spec fn failed_state(kind: ErrorKind, detail: Seq<char>) -> OrchestratorView {
    OrchestratorView {
        phase: FlowPhase::Idle,
        session: SessionState::Failed(kind),
        status: failure_message(kind, detail),
        target: None,
        line: Seq::empty(),
    }
}

/// What a trigger on target `t` and command group `g` does in state `s`.
pub open spec fn trigger_spec(s: OrchestratorView, t: ServerConnectView, g: CommandGroupView) -> (
    OrchestratorView,
    Result<FlowAction, Busy>,
) {
    if s.phase != FlowPhase::Idle {
        (s, Err(Busy))
    } else if auth_config_invalid(t) {
        (failed_state(ErrorKind::ConfigInvalid, missing_key_detail()), Ok(FlowAction::Nothing))
    } else if g.steps.len() == 0 {
        (failed_state(ErrorKind::ConfigInvalid, empty_group_detail()), Ok(FlowAction::Nothing))
    } else {
        (
            OrchestratorView {
                phase: FlowPhase::Connecting,
                session: SessionState::Disconnected,
                status: initiating_message(),
                target: Some(t),
                line: format_spec(g.steps, policy_of(t.kind)),
            },
            Ok(FlowAction::OpenTransport),
        )
    }
}

/// What event `e` does in state `s`. An event that does not fit the phase
/// changes nothing.
pub open spec fn event_spec(s: OrchestratorView, e: FlowEvent) -> (OrchestratorView, FlowAction) {
    match (s.phase, e) {
        (FlowPhase::Connecting, FlowEvent::StepSucceeded) | (
            FlowPhase::Authenticating,
            FlowEvent::StepSucceeded,
        ) => {
            let n = session_after(s.session, true);
            match n {
                SessionState::TransportOpen => (
                    OrchestratorView { session: n, ..s },
                    FlowAction::Handshake,
                ),
                SessionState::Handshaken => (
                    OrchestratorView { phase: FlowPhase::Authenticating, session: n, ..s },
                    FlowAction::Authenticate,
                ),
                SessionState::Authenticated => (
                    OrchestratorView {
                        phase: FlowPhase::Executing,
                        session: n,
                        status: executing_message(),
                        ..s
                    },
                    FlowAction::Execute,
                ),
                _ => (s, FlowAction::Nothing),
            }
        },
        (FlowPhase::Connecting, FlowEvent::StepFailed(detail)) | (
            FlowPhase::Authenticating,
            FlowEvent::StepFailed(detail),
        ) => match session_after(s.session, false) {
            SessionState::Failed(kind) => (failed_state(kind, detail@), FlowAction::Release),
            _ => (s, FlowAction::Nothing),
        },
        (FlowPhase::Executing, FlowEvent::Executed(result)) => (
            OrchestratorView {
                phase: FlowPhase::Reporting,
                status: output_message(result@.output),
                ..s
            },
            FlowAction::Release,
        ),
        (FlowPhase::Executing, FlowEvent::ExecFailed(detail)) => (
            failed_state(ErrorKind::ExecError, detail@),
            FlowAction::Release,
        ),
        (FlowPhase::Reporting, FlowEvent::Released) => (
            OrchestratorView {
                phase: FlowPhase::Idle,
                target: None,
                line: Seq::empty(),
                ..s
            },
            FlowAction::Nothing,
        ),
        _ => (s, FlowAction::Nothing),
    }
}

/// The status text for a failure of class `kind`, described by `detail`.
fn failure_text(kind: ErrorKind, detail: &str) -> (r: String)
    ensures
        r@ == failure_message(kind, detail@),
{
    let mut text = "Não foi possivel concluir a operação, ".to_owned();
    text.append(kind.label());
    text.append(": ");
    text.append(detail);
    text
}

impl Orchestrator {
    /// An idle orchestrator with an empty status text.
    pub fn new() -> (r: Orchestrator)
        ensures
            r@ == (OrchestratorView {
                phase: FlowPhase::Idle,
                session: SessionState::Disconnected,
                status: Seq::empty(),
                target: None,
                line: Seq::empty(),
            }),
            flow_wf(r@),
    {
        Orchestrator {
            phase: FlowPhase::Idle,
            session: SessionState::Disconnected,
            status: StatusChannel::new(String::new()),
            target: None,
            line: String::new(),
        }
    }

    pub fn phase(&self) -> (r: FlowPhase)
        ensures
            r == self@.phase,
    {
        self.phase
    }

    pub fn session(&self) -> (r: SessionState)
        ensures
            r == self@.session,
    {
        self.session
    }

    /// The status text that the display shows now.
    pub fn status(&self) -> (r: &str)
        ensures
            r@ == self@.status,
    {
        self.status.text()
    }

    /// An operation is in flight.
    pub fn is_busy(&self) -> (r: bool)
        ensures
            r == (self@.phase != FlowPhase::Idle),
    {
        self.phase != FlowPhase::Idle
    }

    /// The target of the operation in flight.
    pub fn target(&self) -> (r: Option<&SSH>)
        ensures
            match r {
                Some(t) => self@.target == Some(t@),
                None => self@.target is None,
            },
    {
        self.target.as_ref()
    }

    /// The command line of the operation in flight.
    pub fn command_line(&self) -> (r: &str)
        ensures
            r@ == self@.line,
    {
        self.line.as_str()
    }

    fn fail(&mut self, kind: ErrorKind, detail: &str)
        ensures
            final(self)@ == failed_state(kind, detail@),
    {
        self.phase = FlowPhase::Idle;
        self.session = SessionState::Failed(kind);
        self.status.replace(failure_text(kind, detail));
        self.target = None;
        self.line = String::new();
    }

    /// Starts an operation that runs `group` on `target`. While another
    /// operation is in flight the trigger is refused and nothing changes.
    pub fn trigger(&mut self, target: &SSH, group: &ServerCommands) -> (r: Result<FlowAction, Busy>)
        ensures
            (final(self)@, r) == trigger_spec(old(self)@, target@, group@),
    {
        if self.phase != FlowPhase::Idle {
            return Err(Busy);
        }
        if target.auth_method().is_err() {
            self.fail(ErrorKind::ConfigInvalid, "chave privada não informada");
            return Ok(FlowAction::Nothing);
        }
        match target.formatted_commands(group) {
            Err(_) => {
                self.fail(ErrorKind::ConfigInvalid, "grupo de comandos vazio");
                Ok(FlowAction::Nothing)
            },
            Ok(line) => {
                self.phase = FlowPhase::Connecting;
                self.session = SessionState::Disconnected;
                self.status.replace("Iniciando conexão com o servidor".to_owned());
                self.target = Some(target.clone());
                self.line = line;
                Ok(FlowAction::OpenTransport)
            },
        }
    }

    /// Takes in the outcome of the work last asked for and says what to do next.
    pub fn on_event(&mut self, event: FlowEvent) -> (r: FlowAction)
        ensures
            (final(self)@, r) == event_spec(old(self)@, event),
    {
        let establishing = self.phase == FlowPhase::Connecting || self.phase
            == FlowPhase::Authenticating;
        match event {
            FlowEvent::StepSucceeded => {
                if !establishing {
                    return FlowAction::Nothing;
                }
                let next = self.session.advance(true);
                match next {
                    SessionState::TransportOpen => {
                        self.session = next;
                        FlowAction::Handshake
                    },
                    SessionState::Handshaken => {
                        self.session = next;
                        self.phase = FlowPhase::Authenticating;
                        FlowAction::Authenticate
                    },
                    SessionState::Authenticated => {
                        self.session = next;
                        self.phase = FlowPhase::Executing;
                        self.status.replace("Executando comandos no servidor...".to_owned());
                        FlowAction::Execute
                    },
                    _ => FlowAction::Nothing,
                }
            },
            FlowEvent::StepFailed(detail) => {
                if !establishing {
                    return FlowAction::Nothing;
                }
                match self.session.advance(false) {
                    SessionState::Failed(kind) => {
                        self.fail(kind, detail.as_str());
                        FlowAction::Release
                    },
                    _ => FlowAction::Nothing,
                }
            },
            FlowEvent::Executed(result) => {
                if self.phase != FlowPhase::Executing {
                    return FlowAction::Nothing;
                }
                let mut text = "Saída do comando: ".to_owned();
                text.append(result.output());
                self.phase = FlowPhase::Reporting;
                self.status.replace(text);
                FlowAction::Release
            },
            FlowEvent::ExecFailed(detail) => {
                if self.phase != FlowPhase::Executing {
                    return FlowAction::Nothing;
                }
                self.fail(ErrorKind::ExecError, detail.as_str());
                FlowAction::Release
            },
            FlowEvent::Released => {
                if self.phase != FlowPhase::Reporting {
                    return FlowAction::Nothing;
                }
                self.phase = FlowPhase::Idle;
                self.target = None;
                self.line = String::new();
                FlowAction::Nothing
            },
        }
    }
}

/// While an operation is in flight, a further trigger is refused and leaves
/// the status text, and all else, as it was: two operations never write to
/// the status text in turn.
pub proof fn lemma_busy_trigger_refused(
    s: OrchestratorView,
    t: ServerConnectView,
    g: CommandGroupView,
)
    requires
        s.phase != FlowPhase::Idle,
    ensures
        trigger_spec(s, t, g) == (s, Err::<FlowAction, Busy>(Busy)),
{
}

/// Once idle, no event (a late one of an earlier operation) changes the
/// status text or anything else.
pub proof fn lemma_idle_ignores_events(s: OrchestratorView, e: FlowEvent)
    requires
        s.phase == FlowPhase::Idle,
    ensures
        event_spec(s, e) == (s, FlowAction::Nothing),
{
}

/// Triggers and events keep phases and session states together.
pub proof fn lemma_flow_wf_preserved(
    s: OrchestratorView,
    t: ServerConnectView,
    g: CommandGroupView,
    e: FlowEvent,
)
    requires
        flow_wf(s),
    ensures
        flow_wf(trigger_spec(s, t, g).0),
        flow_wf(event_spec(s, e).0),
{
}

/// A trigger on a key-file target without a key path ends the operation at
/// once with `ConfigInvalid`, and asks for no network work.
pub proof fn lemma_missing_key_trigger_fails(s: OrchestratorView, t: ServerConnectView, g: CommandGroupView)
    requires
        s.phase == FlowPhase::Idle,
        t.kind == crate::parser::ConnectionType::SSH_KEY,
        t.location is None,
    ensures
        trigger_spec(s, t, g) == (
            failed_state(ErrorKind::ConfigInvalid, missing_key_detail()),
            Ok::<FlowAction, Busy>(FlowAction::Nothing),
        ),
        trigger_spec(s, t, g).0.session == session_begin(t),
{
    lemma_missing_key_fails_before_network(t);
}

/// An operation whose transport, handshake and authentication succeed and
/// whose command line runs ends with the captured output in the status text;
/// once the session is released the orchestrator is idle again.
pub proof fn lemma_successful_run_reports_output(
    s: OrchestratorView,
    t: ServerConnectView,
    g: CommandGroupView,
    result: ExecutionResult,
)
    requires
        s.phase == FlowPhase::Idle,
        !auth_config_invalid(t),
        g.steps.len() > 0,
    ensures
        ({
            let s1 = trigger_spec(s, t, g).0;
            let s2 = event_spec(s1, FlowEvent::StepSucceeded).0;
            let s3 = event_spec(s2, FlowEvent::StepSucceeded).0;
            let (s4, a4) = event_spec(s3, FlowEvent::StepSucceeded);
            let (s5, a5) = event_spec(s4, FlowEvent::Executed(result));
            let (s6, a6) = event_spec(s5, FlowEvent::Released);
            &&& a4 == FlowAction::Execute
            &&& s4.line == format_spec(g.steps, policy_of(t.kind))
            &&& s5.status == output_message(result@.output)
            &&& a5 == FlowAction::Release
            &&& s6.phase == FlowPhase::Idle
            &&& s6.status == output_message(result@.output)
            &&& a6 == FlowAction::Nothing
        }),
{
}

/// A target whose address cannot be reached ends the operation with a
/// `NetworkUnreachable` status, back in idle, with the release of what was
/// opened asked for.
pub proof fn lemma_unreachable_reports_failure(
    s: OrchestratorView,
    t: ServerConnectView,
    g: CommandGroupView,
    detail: String,
)
    requires
        s.phase == FlowPhase::Idle,
        !auth_config_invalid(t),
        g.steps.len() > 0,
    ensures
        ({
            let (s1, a1) = trigger_spec(s, t, g);
            let (s2, a2) = event_spec(s1, FlowEvent::StepFailed(detail));
            &&& a1 == Ok::<FlowAction, Busy>(FlowAction::OpenTransport)
            &&& s2 == failed_state(ErrorKind::NetworkUnreachable, detail@)
            &&& s2.phase == FlowPhase::Idle
            &&& s2.target is None
            &&& a2 == FlowAction::Release
        }),
{
}

} // verus!
