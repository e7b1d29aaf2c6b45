use ssh_console::connection::{AuthMethod, ExecutionResult, SSH};
use ssh_console::error::ErrorKind;
use ssh_console::flow::{Busy, FlowAction, FlowEvent, FlowPhase, Orchestrator, StatusChannel};
use ssh_console::parser::{ConnectionType, ServerCommands, ServerConnect};
use ssh_console::session::{SessionState, SessionStep};
use ssh_console::view::MainView;

fn target(kind: ConnectionType, location: Option<&str>, password: Option<&str>) -> SSH {
    SSH::new(&ServerConnect::new(
        kind,
        String::from("ubuntu"),
        String::from("192.0.2.10:22"),
        location.map(String::from),
        password.map(String::from),
    ))
}

fn echo_group() -> ServerCommands {
    ServerCommands::new(String::from("hello"), vec![String::from("echo hi")])
}

#[test]
fn auth_method_follows_the_target() {
    assert_eq!(
        target(ConnectionType::SSH, None, Some("pw")).auth_method(),
        Ok(AuthMethod::Password { user: String::from("ubuntu"), password: String::from("pw") })
    );
    assert_eq!(
        target(ConnectionType::SSH, None, None).auth_method(),
        Ok(AuthMethod::Agent { user: String::from("ubuntu") })
    );
    assert_eq!(
        target(ConnectionType::SSH_KEY, Some("/id"), Some("phrase")).auth_method(),
        Ok(AuthMethod::KeyFile {
            user: String::from("ubuntu"),
            key_path: String::from("/id"),
            passphrase: Some(String::from("phrase")),
        })
    );
    assert_eq!(
        target(ConnectionType::SSH_KEY, None, Some("phrase")).auth_method(),
        Err(ErrorKind::ConfigInvalid)
    );
}

#[test]
fn target_keeps_the_catalogue_values() {
    let t = target(ConnectionType::SSH_KEY, Some("/id"), None);
    assert_eq!(t.address(), "192.0.2.10:22");
    assert_eq!(t.type_connection(), ConnectionType::SSH_KEY);
    assert_eq!(t.clone(), t);
}

#[test]
fn missing_key_fails_before_any_network_step() {
    let state = SessionState::begin(&target(ConnectionType::SSH_KEY, None, None));
    assert_eq!(state, SessionState::Failed(ErrorKind::ConfigInvalid));
    assert_eq!(state.pending(), SessionStep::Abort(ErrorKind::ConfigInvalid));
    assert!(state.is_terminal());
}

#[test]
fn session_walks_through_its_states() {
    let mut state = SessionState::begin(&target(ConnectionType::SSH, None, Some("pw")));
    assert_eq!(state.pending(), SessionStep::OpenTransport);
    state = state.advance(true);
    assert_eq!(state.pending(), SessionStep::Handshake);
    state = state.advance(true);
    assert_eq!(state.pending(), SessionStep::Authenticate);
    state = state.advance(true);
    assert_eq!(state, SessionState::Authenticated);
    assert_eq!(state.pending(), SessionStep::Ready);
    assert_eq!(state.advance(false), SessionState::Authenticated);
}

#[test]
fn session_failures_are_classified() {
    let start = SessionState::Disconnected;
    assert_eq!(start.advance(false), SessionState::Failed(ErrorKind::NetworkUnreachable));
    assert_eq!(
        SessionState::TransportOpen.advance(false),
        SessionState::Failed(ErrorKind::HandshakeFailed)
    );
    assert_eq!(
        SessionState::Handshaken.advance(false),
        SessionState::Failed(ErrorKind::AuthRejected)
    );
    assert!(!SessionState::Handshaken.is_terminal());
}

#[test]
fn missing_key_trigger_reports_config_invalid() {
    let mut flow = Orchestrator::new();
    let r = flow.trigger(&target(ConnectionType::SSH_KEY, None, None), &echo_group());
    assert_eq!(r, Ok(FlowAction::Nothing));
    assert_eq!(flow.phase(), FlowPhase::Idle);
    assert_eq!(flow.session(), SessionState::Failed(ErrorKind::ConfigInvalid));
    assert_eq!(
        flow.status(),
        "Não foi possivel concluir a operação, ConfigInvalid: chave privada não informada"
    );
    assert!(flow.target().is_none());
}

#[test]
fn empty_group_trigger_reports_config_invalid() {
    let mut flow = Orchestrator::new();
    let empty = ServerCommands::new(String::from("none"), vec![]);
    let r = flow.trigger(&target(ConnectionType::SSH, None, Some("pw")), &empty);
    assert_eq!(r, Ok(FlowAction::Nothing));
    assert!(!flow.is_busy());
    assert_eq!(
        flow.status(),
        "Não foi possivel concluir a operação, ConfigInvalid: grupo de comandos vazio"
    );
}

#[test]
fn second_trigger_while_busy_is_refused() {
    let mut flow = Orchestrator::new();
    let t = target(ConnectionType::SSH, None, Some("pw"));
    assert_eq!(flow.trigger(&t, &echo_group()), Ok(FlowAction::OpenTransport));
    assert_eq!(flow.status(), "Iniciando conexão com o servidor");
    let other = ServerCommands::new(String::from("other"), vec![String::from("ls")]);
    assert_eq!(flow.trigger(&t, &other), Err(Busy));
    assert_eq!(flow.status(), "Iniciando conexão com o servidor");
    assert_eq!(flow.command_line(), "echo hi");

    assert_eq!(flow.on_event(FlowEvent::StepSucceeded), FlowAction::Handshake);
    assert_eq!(flow.on_event(FlowEvent::StepSucceeded), FlowAction::Authenticate);
    assert_eq!(flow.on_event(FlowEvent::StepSucceeded), FlowAction::Execute);
    assert_eq!(flow.phase(), FlowPhase::Executing);
    assert_eq!(flow.trigger(&t, &other), Err(Busy));
    assert_eq!(flow.status(), "Executando comandos no servidor...");
    assert_eq!(flow.command_line(), "echo hi");
}

#[test]
fn password_target_runs_and_reports_output() {
    let mut flow = Orchestrator::new();
    let t = target(ConnectionType::SSH, None, Some("secret"));
    assert_eq!(flow.trigger(&t, &echo_group()), Ok(FlowAction::OpenTransport));
    assert_eq!(flow.phase(), FlowPhase::Connecting);
    assert_eq!(flow.target(), Some(&t));
    assert_eq!(flow.on_event(FlowEvent::StepSucceeded), FlowAction::Handshake);
    assert_eq!(flow.on_event(FlowEvent::StepSucceeded), FlowAction::Authenticate);
    assert_eq!(flow.phase(), FlowPhase::Authenticating);
    assert_eq!(flow.on_event(FlowEvent::StepSucceeded), FlowAction::Execute);
    let result = ExecutionResult::new(String::from("hi\n"), Some(0));
    assert_eq!(result.exit_status(), Some(0));
    assert_eq!(flow.on_event(FlowEvent::Executed(result)), FlowAction::Release);
    assert_eq!(flow.phase(), FlowPhase::Reporting);
    assert_eq!(flow.status(), "Saída do comando: hi\n");
    assert!(flow.status().contains("hi\n"));
    assert_eq!(flow.on_event(FlowEvent::Released), FlowAction::Nothing);
    assert_eq!(flow.phase(), FlowPhase::Idle);
    assert_eq!(flow.status(), "Saída do comando: hi\n");
    assert!(flow.target().is_none());
}

#[test]
fn unreachable_target_ends_idle_with_network_failure() {
    let mut flow = Orchestrator::new();
    let t = target(ConnectionType::SSH, None, Some("secret"));
    assert_eq!(flow.trigger(&t, &echo_group()), Ok(FlowAction::OpenTransport));
    let action = flow.on_event(FlowEvent::StepFailed(String::from("connection refused")));
    assert_eq!(action, FlowAction::Release);
    assert_eq!(flow.phase(), FlowPhase::Idle);
    assert_eq!(flow.session(), SessionState::Failed(ErrorKind::NetworkUnreachable));
    assert_eq!(
        flow.status(),
        "Não foi possivel concluir a operação, NetworkUnreachable: connection refused"
    );
    assert!(flow.target().is_none());
    assert_eq!(flow.command_line(), "");
    // a fresh trigger starts a wholly new attempt
    assert_eq!(flow.trigger(&t, &echo_group()), Ok(FlowAction::OpenTransport));
}

#[test]
fn handshake_and_auth_failures_are_reported() {
    let t = target(ConnectionType::SSH_KEY, Some("/id"), None);
    let group = ServerCommands::new(String::from("g"), vec![String::from("sudo su -c"), String::from("ls")]);

    let mut flow = Orchestrator::new();
    flow.trigger(&t, &group).unwrap();
    assert_eq!(flow.command_line(), "sudo su -c 'ls'");
    flow.on_event(FlowEvent::StepSucceeded);
    flow.on_event(FlowEvent::StepFailed(String::from("bad banner")));
    assert_eq!(flow.status(), "Não foi possivel concluir a operação, HandshakeFailed: bad banner");

    let mut flow = Orchestrator::new();
    flow.trigger(&t, &group).unwrap();
    flow.on_event(FlowEvent::StepSucceeded);
    flow.on_event(FlowEvent::StepSucceeded);
    assert_eq!(flow.on_event(FlowEvent::StepFailed(String::from("denied"))), FlowAction::Release);
    assert_eq!(flow.status(), "Não foi possivel concluir a operação, AuthRejected: denied");
    assert_eq!(flow.session(), SessionState::Failed(ErrorKind::AuthRejected));
}

#[test]
fn exec_failure_is_reported() {
    let mut flow = Orchestrator::new();
    let t = target(ConnectionType::SSH, None, None);
    flow.trigger(&t, &echo_group()).unwrap();
    for _ in 0..3 {
        flow.on_event(FlowEvent::StepSucceeded);
    }
    let action = flow.on_event(FlowEvent::ExecFailed(String::from("channel closed")));
    assert_eq!(action, FlowAction::Release);
    assert_eq!(flow.phase(), FlowPhase::Idle);
    assert_eq!(flow.status(), "Não foi possivel concluir a operação, ExecError: channel closed");
}

#[test]
fn read_failure_is_kept_as_text() {
    let result = ExecutionResult::read_failure("stream reset");
    assert_eq!(result.output(), "Erro ao executar comando: stream reset");
    assert_eq!(result.exit_status(), None);

    let mut flow = Orchestrator::new();
    flow.trigger(&target(ConnectionType::SSH, None, None), &echo_group()).unwrap();
    for _ in 0..3 {
        flow.on_event(FlowEvent::StepSucceeded);
    }
    assert_eq!(flow.on_event(FlowEvent::Executed(result)), FlowAction::Release);
    assert_eq!(flow.status(), "Saída do comando: Erro ao executar comando: stream reset");
}

#[test]
fn events_out_of_phase_change_nothing() {
    let mut flow = Orchestrator::new();
    assert_eq!(flow.on_event(FlowEvent::StepSucceeded), FlowAction::Nothing);
    assert_eq!(flow.on_event(FlowEvent::Released), FlowAction::Nothing);
    assert_eq!(flow.phase(), FlowPhase::Idle);
    assert_eq!(flow.status(), "");

    flow.trigger(&target(ConnectionType::SSH, None, None), &echo_group()).unwrap();
    let late = ExecutionResult::new(String::from("stale"), Some(1));
    assert_eq!(flow.on_event(FlowEvent::Executed(late)), FlowAction::Nothing);
    assert_eq!(flow.on_event(FlowEvent::ExecFailed(String::from("x"))), FlowAction::Nothing);
    assert_eq!(flow.status(), "Iniciando conexão com o servidor");
    assert_eq!(flow.phase(), FlowPhase::Connecting);
}

#[test]
fn status_channel_replaces_whole_text() {
    let mut channel = StatusChannel::new(String::from("first"));
    assert_eq!(channel.text(), "first");
    channel.replace(String::from("second line\nthird"));
    assert_eq!(channel.text(), "second line\nthird");
}

#[test]
fn error_kinds_have_labels() {
    assert_eq!(ErrorKind::ConfigInvalid.label(), "ConfigInvalid");
    assert_eq!(ErrorKind::NetworkUnreachable.label(), "NetworkUnreachable");
    assert_eq!(ErrorKind::HandshakeFailed.label(), "HandshakeFailed");
    assert_eq!(ErrorKind::AuthRejected.label(), "AuthRejected");
    assert_eq!(ErrorKind::ExecError.label(), "ExecError");
}

#[test]
fn main_view_borrows_the_loop_state() {
    let mut selected = 2usize;
    let mut info = String::from("info");
    let mut focus = String::from("sidebar");
    let view = MainView::new(&mut selected, &mut info, focus.as_mut_str());
    assert_eq!(view.selected_index(), 2);
    assert_eq!(view.input_info(), "info");
    assert_eq!(view.focused_block(), "sidebar");
    drop(view);
    assert_eq!(selected, 2);
    assert_eq!(info, "info");
}
