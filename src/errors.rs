use vstd::prelude::*;

verus! {

/// The kinds of failure the daemon can end with.
#[derive(Debug, PartialEq, Eq)]
pub enum ErrorKind {
    Io,
    Recv,
    SendNetworkCommand,
    Nix,
    NetworkManager,
    PingUnsuccessful,
    RecvAccessPointSSIDs,
    RecvNetworkCommand,
    SendNetworkCommandConnect,
    SendNetworkCommandClear,
    SendNetworkCommandListAP,
    DeviceByInterface(String),
    NotAWiFiDevice(String),
    NoWiFiDevice,
    NoAccessPoints,
    DeleteAccessPoint,
    StartHTTPServer(String, String),
    StartActiveNetworkManager,
    StartNetworkManager,
    NetworkManagerServiceState,
    BlockExitSignals,
    TrapExitSignals,
    RecvAccessPoints,
    ScanAccessPoints,
    SendAccessPointSSIDs,
}

/// The process exit status associated with each error kind.
pub open spec fn exit_code_of(k: ErrorKind) -> i32 {
    match k {
        ErrorKind::RecvAccessPointSSIDs => 4,
        ErrorKind::RecvNetworkCommand => 7,
        ErrorKind::SendNetworkCommandConnect => 9,
        ErrorKind::DeviceByInterface(_) => 10,
        ErrorKind::NotAWiFiDevice(_) => 11,
        ErrorKind::NoWiFiDevice => 12,
        ErrorKind::NoAccessPoints => 13,
        ErrorKind::PingUnsuccessful => 14,
        ErrorKind::SendNetworkCommandClear => 15,
        ErrorKind::DeleteAccessPoint => 16,
        ErrorKind::StartHTTPServer(_, _) => 17,
        ErrorKind::StartActiveNetworkManager => 18,
        ErrorKind::StartNetworkManager => 19,
        ErrorKind::NetworkManagerServiceState => 20,
        ErrorKind::BlockExitSignals => 21,
        ErrorKind::TrapExitSignals => 22,
        ErrorKind::RecvAccessPoints => 24,
        ErrorKind::ScanAccessPoints => 25,
        ErrorKind::SendNetworkCommandListAP => 26,
        _ => 1,
    }
}

/// Maps an error kind to the integer the process terminates with.
pub fn exit_code(e: &ErrorKind) -> (r: i32)
    ensures
        r == exit_code_of(*e),
{
    match e {
        ErrorKind::RecvAccessPointSSIDs => 4,
        ErrorKind::RecvNetworkCommand => 7,
        ErrorKind::SendNetworkCommandConnect => 9,
        ErrorKind::DeviceByInterface(_) => 10,
        ErrorKind::NotAWiFiDevice(_) => 11,
        ErrorKind::NoWiFiDevice => 12,
        ErrorKind::NoAccessPoints => 13,
        ErrorKind::PingUnsuccessful => 14,
        ErrorKind::SendNetworkCommandClear => 15,
        ErrorKind::DeleteAccessPoint => 16,
        ErrorKind::StartHTTPServer(_, _) => 17,
        ErrorKind::StartActiveNetworkManager => 18,
        ErrorKind::StartNetworkManager => 19,
        ErrorKind::NetworkManagerServiceState => 20,
        ErrorKind::BlockExitSignals => 21,
        ErrorKind::TrapExitSignals => 22,
        ErrorKind::RecvAccessPoints => 24,
        ErrorKind::ScanAccessPoints => 25,
        ErrorKind::SendNetworkCommandListAP => 26,
        _ => 1,
    }
}

} // verus!
