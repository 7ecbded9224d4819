use wifi_connect::command::{access_points_of, copy_access_points, internet_check_of, AccessPointInfo, NetworkCommandResponse};
use wifi_connect::errors::ErrorKind;
use wifi_connect::handler::{process_network_commands, HandlerAction, HandlerEvent, NetworkCommandHandler};
use wifi_connect::command::NetworkCommand;
use wifi_connect::service::{init_networking, InitAction, InitEvent};

fn ap(ssid: &str, strength: u32, slot: usize) -> AccessPointInfo {
    AccessPointInfo { ssid: ssid.to_string(), strength, slot }
}

#[test]
fn listing_reads_access_point_responses_only() {
    let v = vec![ap("a", 3, 0), ap("b", 4, 1)];
    assert_eq!(access_points_of(NetworkCommandResponse::AccessPointResponse(copy_access_points(&v))), v);
    assert_eq!(access_points_of(NetworkCommandResponse::InternetCheckResponse(true)), vec![]);
    assert_eq!(access_points_of(NetworkCommandResponse::AccessPointsSsids(vec!["a".to_string()])), vec![]);
}

#[test]
fn internet_check_reads_its_own_response_only() {
    assert!(internet_check_of(&NetworkCommandResponse::InternetCheckResponse(true)));
    assert!(!internet_check_of(&NetworkCommandResponse::InternetCheckResponse(false)));
    assert!(!internet_check_of(&NetworkCommandResponse::AccessPointResponse(vec![])));
}

#[test]
fn failed_refresh_during_connect_is_fatal() {
    let mut h = NetworkCommandHandler::new();
    process_network_commands(&mut h, HandlerEvent::Ready(vec![]));
    process_network_commands(
        &mut h,
        HandlerEvent::Command(NetworkCommand::Connect { ssid: "x".to_string(), passphrase: "y".to_string() }),
    );
    process_network_commands(&mut h, HandlerEvent::ProfilesCleared);
    assert_eq!(
        process_network_commands(&mut h, HandlerEvent::RefreshFailed),
        HandlerAction::Shutdown(Err(ErrorKind::NoAccessPoints))
    );
}

#[test]
fn events_out_of_turn_are_ignored() {
    let mut h = NetworkCommandHandler::new();
    assert_eq!(process_network_commands(&mut h, HandlerEvent::ProfilesCleared), HandlerAction::Ignore);
    process_network_commands(&mut h, HandlerEvent::Ready(vec![ap("a", 1, 0)]));
    assert_eq!(process_network_commands(&mut h, HandlerEvent::ConnectionDeleted), HandlerAction::Ignore);
    assert_eq!(h.access_points, vec![ap("a", 1, 0)]);
}

#[test]
fn init_event_out_of_turn_fails() {
    let (mut init, _) = init_networking();
    assert_eq!(init.step(InitEvent::ProfilesDeleted(true)), InitAction::Finish(Err(ErrorKind::NetworkManager)));
}
