use wifi_connect::command::{AccessPointInfo, NetworkCommand, NetworkCommandResponse};
use wifi_connect::errors::ErrorKind;
use wifi_connect::handler::{
    process_network_commands, AuthOutcome, HandlerAction, HandlerEvent, NetworkCommandHandler, Phase,
};

fn ap(ssid: &str, strength: u32, slot: usize) -> AccessPointInfo {
    AccessPointInfo { ssid: ssid.to_string(), strength, slot }
}

fn ready(aps: Vec<AccessPointInfo>) -> NetworkCommandHandler {
    let mut h = NetworkCommandHandler::new();
    assert_eq!(process_network_commands(&mut h, HandlerEvent::Ready(aps)), HandlerAction::AwaitCommand);
    h
}

fn command(h: &mut NetworkCommandHandler, c: NetworkCommand) -> HandlerAction {
    process_network_commands(h, HandlerEvent::Command(c))
}

fn connect(h: &mut NetworkCommandHandler, ssid: &str) -> HandlerAction {
    command(h, NetworkCommand::Connect { ssid: ssid.to_string(), passphrase: "secret".to_string() })
}

#[test]
fn connect_succeeds_whatever_connectivity_is_reached() {
    for reached in [true, false] {
        let mut h = ready(vec![]);
        assert_eq!(connect(&mut h, "home"), HandlerAction::DeleteProfilesFor { ssid: "home".to_string() });
        assert_eq!(process_network_commands(&mut h, HandlerEvent::ProfilesCleared), HandlerAction::RefreshAccessPoints);
        let seen = vec![ap("work", 10, 0), ap("home", 80, 2)];
        assert_eq!(
            process_network_commands(&mut h, HandlerEvent::AccessPointsRefreshed(seen)),
            HandlerAction::Authenticate { slot: 2, passphrase: "secret".to_string() }
        );
        assert_eq!(
            process_network_commands(&mut h, HandlerEvent::AuthResult(AuthOutcome::Activated)),
            HandlerAction::AwaitConnectivity { timeout_secs: 20 }
        );
        assert_eq!(
            process_network_commands(&mut h, HandlerEvent::ConnectivityChecked(reached)),
            HandlerAction::RefreshAccessPoints
        );
        let latest = vec![ap("home", 90, 0)];
        assert_eq!(
            process_network_commands(&mut h, HandlerEvent::AccessPointsRefreshed(latest)),
            HandlerAction::ConnectDone { connected: true }
        );
        assert!(matches!(h.phase, Phase::Idle));
        assert_eq!(h.access_points, vec![ap("home", 90, 0)]);
    }
}

#[test]
fn connect_to_vanished_network_never_authenticates() {
    let mut h = ready(vec![ap("home", 50, 0)]);
    let mut actions = vec![connect(&mut h, "home")];
    actions.push(process_network_commands(&mut h, HandlerEvent::ProfilesCleared));
    actions.push(process_network_commands(&mut h, HandlerEvent::AccessPointsRefreshed(vec![ap("work", 30, 0)])));
    actions.push(process_network_commands(&mut h, HandlerEvent::AccessPointsRefreshed(vec![ap("other", 5, 1)])));
    assert!(actions.iter().all(|a| !matches!(a, HandlerAction::Authenticate { .. })));
    assert_eq!(actions[2], HandlerAction::RefreshAccessPoints);
    assert_eq!(actions[3], HandlerAction::ConnectDone { connected: false });
    assert_eq!(h.access_points, vec![ap("other", 5, 1)]);
}

#[test]
fn connect_not_activated_deletes_new_connection() {
    let mut h = ready(vec![]);
    connect(&mut h, "home");
    process_network_commands(&mut h, HandlerEvent::ProfilesCleared);
    process_network_commands(&mut h, HandlerEvent::AccessPointsRefreshed(vec![ap("home", 60, 4)]));
    assert_eq!(
        process_network_commands(&mut h, HandlerEvent::AuthResult(AuthOutcome::NotActivated)),
        HandlerAction::DeleteNewConnection
    );
    assert_eq!(process_network_commands(&mut h, HandlerEvent::ConnectionDeleted), HandlerAction::RefreshAccessPoints);
    assert_eq!(
        process_network_commands(&mut h, HandlerEvent::AccessPointsRefreshed(vec![])),
        HandlerAction::ConnectDone { connected: false }
    );
}

#[test]
fn failed_authentication_reports_not_connected() {
    let mut h = ready(vec![]);
    connect(&mut h, "home");
    process_network_commands(&mut h, HandlerEvent::ProfilesCleared);
    process_network_commands(&mut h, HandlerEvent::AccessPointsRefreshed(vec![ap("home", 60, 0)]));
    assert_eq!(
        process_network_commands(&mut h, HandlerEvent::AuthResult(AuthOutcome::Failed)),
        HandlerAction::RefreshAccessPoints
    );
    assert_eq!(
        process_network_commands(&mut h, HandlerEvent::AccessPointsRefreshed(vec![])),
        HandlerAction::ConnectDone { connected: false }
    );
}

#[test]
fn timeout_before_activation_terminates() {
    let mut h = ready(vec![]);
    assert_eq!(command(&mut h, NetworkCommand::Timeout), HandlerAction::Shutdown(Ok(())));
    assert!(matches!(h.phase, Phase::Terminated));
}

#[test]
fn timeout_after_activation_is_ignored() {
    let mut h = ready(vec![ap("a", 1, 0), ap("b", 2, 1)]);
    assert_eq!(
        command(&mut h, NetworkCommand::Activate),
        HandlerAction::Respond(NetworkCommandResponse::AccessPointsSsids(vec!["a".to_string(), "b".to_string()]))
    );
    assert_eq!(process_network_commands(&mut h, HandlerEvent::ResponseSent(true)), HandlerAction::AwaitCommand);
    assert!(h.activated);
    assert_eq!(command(&mut h, NetworkCommand::Timeout), HandlerAction::AwaitCommand);
    assert!(matches!(h.phase, Phase::Idle));
}

#[test]
fn exit_terminates_either_way() {
    let mut h = ready(vec![]);
    assert_eq!(command(&mut h, NetworkCommand::Exit), HandlerAction::Shutdown(Ok(())));
    let mut h = ready(vec![]);
    command(&mut h, NetworkCommand::Activate);
    process_network_commands(&mut h, HandlerEvent::ResponseSent(true));
    assert_eq!(command(&mut h, NetworkCommand::Exit), HandlerAction::Shutdown(Ok(())));
}

fn shutdown_count(h: &mut NetworkCommandHandler, events: Vec<HandlerEvent>) -> usize {
    let mut n = 0;
    for e in events {
        if let HandlerAction::Shutdown(_) = process_network_commands(h, e) {
            n += 1;
        }
    }
    n
}

#[test]
fn helper_is_killed_once_on_each_terminal_path() {
    let paths = vec![
        vec![HandlerEvent::Command(NetworkCommand::Exit)],
        vec![HandlerEvent::Command(NetworkCommand::Timeout)],
        vec![HandlerEvent::ChannelClosed],
        vec![HandlerEvent::Command(NetworkCommand::Scan), HandlerEvent::RefreshFailed],
    ];
    for mut path in paths {
        path.push(HandlerEvent::Command(NetworkCommand::Exit));
        path.push(HandlerEvent::ChannelClosed);
        let mut h = ready(vec![]);
        assert_eq!(shutdown_count(&mut h, path), 1);
        assert!(matches!(h.phase, Phase::Terminated));
    }
}

#[test]
fn channel_failure_is_its_own_error() {
    let mut h = ready(vec![]);
    assert_eq!(
        process_network_commands(&mut h, HandlerEvent::ChannelClosed),
        HandlerAction::Shutdown(Err(ErrorKind::RecvNetworkCommand))
    );
}

#[test]
fn setup_failure_aborts_without_shutdown() {
    let mut h = NetworkCommandHandler::new();
    assert_eq!(
        process_network_commands(&mut h, HandlerEvent::SetupFailed(ErrorKind::NoWiFiDevice)),
        HandlerAction::Abort(ErrorKind::NoWiFiDevice)
    );
    assert_eq!(process_network_commands(&mut h, HandlerEvent::Command(NetworkCommand::Exit)), HandlerAction::Ignore);
}

#[test]
fn list_refreshes_cache_and_responds() {
    let mut h = ready(vec![ap("old", 1, 0)]);
    assert_eq!(command(&mut h, NetworkCommand::ListAP), HandlerAction::RefreshAccessPoints);
    assert_eq!(
        process_network_commands(&mut h, HandlerEvent::AccessPointsRefreshed(vec![ap("new", 7, 3)])),
        HandlerAction::Respond(NetworkCommandResponse::AccessPointResponse(vec![ap("new", 7, 3)]))
    );
    assert_eq!(h.access_points, vec![ap("new", 7, 3)]);
    assert_eq!(
        process_network_commands(&mut h, HandlerEvent::ResponseSent(false)),
        HandlerAction::Shutdown(Err(ErrorKind::SendAccessPointSSIDs))
    );
}

#[test]
fn internet_check_responds_with_probe_result() {
    let mut h = ready(vec![]);
    assert_eq!(command(&mut h, NetworkCommand::CheckInternet), HandlerAction::ProbeInternet);
    assert_eq!(
        process_network_commands(&mut h, HandlerEvent::ConnectivityChecked(false)),
        HandlerAction::Respond(NetworkCommandResponse::InternetCheckResponse(false))
    );
}

#[test]
fn clear_and_disconnect() {
    let mut h = ready(vec![]);
    assert_eq!(command(&mut h, NetworkCommand::Clear), HandlerAction::DeletePortalProfiles);
    assert_eq!(process_network_commands(&mut h, HandlerEvent::ProfilesCleared), HandlerAction::AwaitCommand);
    assert_eq!(
        command(&mut h, NetworkCommand::Disconnect { ssid: "home".to_string() }),
        HandlerAction::DisconnectDevice
    );
    assert_eq!(
        process_network_commands(&mut h, HandlerEvent::Disconnected(false)),
        HandlerAction::Shutdown(Err(ErrorKind::NetworkManager))
    );
}
