use vstd::prelude::*;

use crate::command::{copy_access_points, AccessPointInfo, NetworkCommand, NetworkCommandResponse};
use crate::directory::{find_access_point, first_with_ssid, get_access_points_ssids_owned};
use crate::errors::ErrorKind;

verus! {

/// Seconds a fresh connection is given to reach connectivity.
pub const CONNECTIVITY_TIMEOUT: u64 = 20;

/// How an attempt to authenticate with an access point came out.
pub enum AuthOutcome {
    Failed,
    Activated,
    NotActivated,
}

/// Where an attempt to join a network stands.
#[derive(Clone, Copy)]
pub enum ConnectStage {
    ClearingProfiles,
    Scanning,
    Authenticating,
    AwaitingConnectivity,
    DeletingConnection,
    Rescanning { connected: bool },
}

/// An attempt to join the network `ssid`.
pub struct ConnectAttempt {
    pub ssid: String,
    pub passphrase: String,
    pub stage: ConnectStage,
}

/// Single-step work the handler waits on.
#[derive(Clone, Copy)]
pub enum Operation {
    Responding,
    Refreshing,
    Probing,
    Clearing,
    Disconnecting,
}

/// The handler's life: set up, then serving commands, until it terminates.
pub enum Phase {
    Initializing,
    Idle,
    Busy(Operation),
    Connecting(ConnectAttempt),
    Terminated,
}

/// The state that the handler thread alone owns.
pub struct NetworkCommandHandler {
    pub phase: Phase,
    /// Set once a client has opened the portal; never cleared.
    pub activated: bool,
    /// The latest scan, replaced whole on each refresh.
    pub access_points: Vec<AccessPointInfo>,
}

/// What happened: a command, or the outcome of the work last asked for.
pub enum HandlerEvent {
    /// The device was found, the first scan made and the helper process started.
    Ready(Vec<AccessPointInfo>),
    SetupFailed(ErrorKind),
    Command(NetworkCommand),
    /// No producer is left on the command channel.
    ChannelClosed,
    /// Whether the response reached the web layer.
    ResponseSent(bool),
    AccessPointsRefreshed(Vec<AccessPointInfo>),
    /// The device could not be queried for access points.
    RefreshFailed,
    /// Stored profiles were deleted as asked, as far as deleting went.
    ProfilesCleared,
    AuthResult(AuthOutcome),
    ConnectivityChecked(bool),
    /// The connection object of a failed attempt was deleted, as far as that went.
    ConnectionDeleted,
    /// Whether the device's connection was deactivated.
    Disconnected(bool),
}

/// The work the handler asks for next.
#[derive(Debug, PartialEq, Eq)]
pub enum HandlerAction {
    /// Block on the command channel for the next command.
    AwaitCommand,
    Respond(NetworkCommandResponse),
    /// Refresh the access point list, retrying while it comes back empty.
    RefreshAccessPoints,
    ProbeInternet,
    DeletePortalProfiles,
    DisconnectDevice,
    DeleteProfilesFor { ssid: String },
    /// Authenticate with the access point at `slot` of the latest raw scan.
    Authenticate { slot: usize, passphrase: String },
    AwaitConnectivity { timeout_secs: u64 },
    DeleteNewConnection,
    /// A connect attempt ended; then block for the next command.
    ConnectDone { connected: bool },
    /// Set-up failed before the helper process ran: report the error.
    Abort(ErrorKind),
    /// Kill the helper process, ignoring failure, then report the result.
    Shutdown(Result<(), ErrorKind>),
    /// The event did not fit the state; nothing changed.
    Ignore,
}

pub open spec fn with_phase(s: NetworkCommandHandler, p: Phase) -> NetworkCommandHandler {
    NetworkCommandHandler { phase: p, ..s }
}

pub open spec fn connecting(
    s: NetworkCommandHandler,
    ssid: String,
    passphrase: String,
    stage: ConnectStage,
) -> NetworkCommandHandler {
    with_phase(s, Phase::Connecting(ConnectAttempt { ssid, passphrase, stage }))
}

/// `v` lists the SSIDs of `aps`, in order.
pub open spec fn ssids_of(v: Seq<String>, aps: Seq<AccessPointInfo>) -> bool {
    &&& v.len() == aps.len()
    &&& forall|i: int| 0 <= i < aps.len() ==> v[i]@ == aps[i].ssid@
}

/// The helper process runs in these phases.
pub open spec fn helper_running(s: NetworkCommandHandler) -> bool {
    s.phase is Idle || s.phase is Busy || s.phase is Connecting
}

/// A command taken while idle.
pub open spec fn command_rel(
    s: NetworkCommandHandler,
    c: NetworkCommand,
    t: NetworkCommandHandler,
    a: HandlerAction,
) -> bool {
    match c {
        NetworkCommand::Activate => {
            &&& t == NetworkCommandHandler {
                phase: Phase::Busy(Operation::Responding),
                activated: true,
                ..s
            }
            &&& a matches HandlerAction::Respond(NetworkCommandResponse::AccessPointsSsids(v))
            &&& ssids_of(v@, s.access_points@)
        },
        NetworkCommand::Scan | NetworkCommand::ListAP => t == with_phase(
            s,
            Phase::Busy(Operation::Refreshing),
        ) && a is RefreshAccessPoints,
        NetworkCommand::Timeout => if s.activated {
            t == s && a is AwaitCommand
        } else {
            t == with_phase(s, Phase::Terminated) && a == HandlerAction::Shutdown(Ok(()))
        },
        NetworkCommand::Exit => t == with_phase(s, Phase::Terminated) && a == HandlerAction::Shutdown(
            Ok(()),
        ),
        NetworkCommand::Connect { ssid, passphrase } => t == connecting(
            s,
            ssid,
            passphrase,
            ConnectStage::ClearingProfiles,
        ) && a == (HandlerAction::DeleteProfilesFor { ssid }),
        NetworkCommand::Disconnect { .. } => t == with_phase(s, Phase::Busy(Operation::Disconnecting))
            && a is DisconnectDevice,
        NetworkCommand::CheckInternet => t == with_phase(s, Phase::Busy(Operation::Probing))
            && a is ProbeInternet,
        NetworkCommand::Clear => t == with_phase(s, Phase::Busy(Operation::Clearing))
            && a is DeletePortalProfiles,
    }
}

/// An outcome taken while single-step work was pending.
pub open spec fn busy_rel(
    s: NetworkCommandHandler,
    op: Operation,
    e: HandlerEvent,
    t: NetworkCommandHandler,
    a: HandlerAction,
) -> bool {
    match (op, e) {
        (Operation::Responding, HandlerEvent::ResponseSent(ok)) => if ok {
            t == with_phase(s, Phase::Idle) && a is AwaitCommand
        } else {
            t == with_phase(s, Phase::Terminated) && a == HandlerAction::Shutdown(
                Err(ErrorKind::SendAccessPointSSIDs),
            )
        },
        (Operation::Refreshing, HandlerEvent::AccessPointsRefreshed(v)) => {
            &&& t == NetworkCommandHandler {
                phase: Phase::Busy(Operation::Responding),
                access_points: v,
                ..s
            }
            &&& a matches HandlerAction::Respond(NetworkCommandResponse::AccessPointResponse(w))
            &&& w@ == v@
        },
        (Operation::Refreshing, HandlerEvent::RefreshFailed) => t == with_phase(s, Phase::Terminated)
            && a == HandlerAction::Shutdown(Err(ErrorKind::NoAccessPoints)),
        (Operation::Probing, HandlerEvent::ConnectivityChecked(b)) => t == with_phase(
            s,
            Phase::Busy(Operation::Responding),
        ) && a == HandlerAction::Respond(NetworkCommandResponse::InternetCheckResponse(b)),
        (Operation::Clearing, HandlerEvent::ProfilesCleared) => t == with_phase(s, Phase::Idle)
            && a is AwaitCommand,
        (Operation::Disconnecting, HandlerEvent::Disconnected(ok)) => if ok {
            t == with_phase(s, Phase::Idle) && a is AwaitCommand
        } else {
            t == with_phase(s, Phase::Terminated) && a == HandlerAction::Shutdown(
                Err(ErrorKind::NetworkManager),
            )
        },
        _ => t == s && a is Ignore,
    }
}

/// An outcome taken during an attempt to join `ssid`.
pub open spec fn connect_rel(
    s: NetworkCommandHandler,
    ssid: String,
    passphrase: String,
    stage: ConnectStage,
    e: HandlerEvent,
    t: NetworkCommandHandler,
    a: HandlerAction,
) -> bool {
    match (stage, e) {
        (ConnectStage::ClearingProfiles, HandlerEvent::ProfilesCleared) => t == connecting(
            s,
            ssid,
            passphrase,
            ConnectStage::Scanning,
        ) && a is RefreshAccessPoints,
        (ConnectStage::Scanning, HandlerEvent::AccessPointsRefreshed(v)) => {
            let s2 = NetworkCommandHandler { access_points: v, ..s };
            &&& (forall|j: int| 0 <= j < v@.len() ==> v@[j].ssid@ != ssid@) ==> (t == connecting(
                s2,
                ssid,
                passphrase,
                ConnectStage::Rescanning { connected: false },
            ) && a is RefreshAccessPoints)
            &&& forall|k: int|
                first_with_ssid(v@, ssid@, k) ==> t == connecting(
                    s2,
                    ssid,
                    passphrase,
                    ConnectStage::Authenticating,
                ) && a == (HandlerAction::Authenticate { slot: v@[k].slot, passphrase })
        },
        (ConnectStage::Authenticating, HandlerEvent::AuthResult(o)) => match o {
            AuthOutcome::Failed => t == connecting(
                s,
                ssid,
                passphrase,
                ConnectStage::Rescanning { connected: false },
            ) && a is RefreshAccessPoints,
            AuthOutcome::Activated => t == connecting(
                s,
                ssid,
                passphrase,
                ConnectStage::AwaitingConnectivity,
            ) && a == (HandlerAction::AwaitConnectivity { timeout_secs: CONNECTIVITY_TIMEOUT }),
            AuthOutcome::NotActivated => t == connecting(
                s,
                ssid,
                passphrase,
                ConnectStage::DeletingConnection,
            ) && a is DeleteNewConnection,
        },
        (ConnectStage::AwaitingConnectivity, HandlerEvent::ConnectivityChecked(_)) => t == connecting(
            s,
            ssid,
            passphrase,
            ConnectStage::Rescanning { connected: true },
        ) && a is RefreshAccessPoints,
        (ConnectStage::DeletingConnection, HandlerEvent::ConnectionDeleted) => t == connecting(
            s,
            ssid,
            passphrase,
            ConnectStage::Rescanning { connected: false },
        ) && a is RefreshAccessPoints,
        (ConnectStage::Rescanning { connected }, HandlerEvent::AccessPointsRefreshed(v)) => t
            == NetworkCommandHandler { phase: Phase::Idle, access_points: v, ..s } && a == (
        HandlerAction::ConnectDone { connected }),
        (ConnectStage::Scanning, HandlerEvent::RefreshFailed) | (
            ConnectStage::Rescanning { .. },
            HandlerEvent::RefreshFailed,
        ) => t == with_phase(s, Phase::Terminated) && a == HandlerAction::Shutdown(
            Err(ErrorKind::NoAccessPoints),
        ),
        _ => t == s && a is Ignore,
    }
}

/// One step of the handler: from state `s`, event `e` leads to state `t` and action `a`.
pub open spec fn step_rel(
    s: NetworkCommandHandler,
    e: HandlerEvent,
    t: NetworkCommandHandler,
    a: HandlerAction,
) -> bool {
    match s.phase {
        Phase::Initializing => match e {
            HandlerEvent::Ready(v) => t == NetworkCommandHandler {
                phase: Phase::Idle,
                access_points: v,
                ..s
            } && a is AwaitCommand,
            HandlerEvent::SetupFailed(k) => t == with_phase(s, Phase::Terminated) && a
                == HandlerAction::Abort(k),
            _ => t == s && a is Ignore,
        },
        Phase::Idle => match e {
            HandlerEvent::Command(c) => command_rel(s, c, t, a),
            HandlerEvent::ChannelClosed => t == with_phase(s, Phase::Terminated) && a
                == HandlerAction::Shutdown(Err(ErrorKind::RecvNetworkCommand)),
            _ => t == s && a is Ignore,
        },
        Phase::Busy(op) => busy_rel(s, op, e, t, a),
        Phase::Connecting(c) => connect_rel(s, c.ssid, c.passphrase, c.stage, e, t, a),
        Phase::Terminated => t == s && a is Ignore,
    }
}

impl NetworkCommandHandler {
    /// A handler about to be set up.
    pub fn new() -> (r: NetworkCommandHandler)
        ensures
            r.phase is Initializing,
            !r.activated,
            r.access_points@.len() == 0,
    {
        NetworkCommandHandler { phase: Phase::Initializing, activated: false, access_points: Vec::new() }
    }
}

fn on_command(h: &mut NetworkCommandHandler, c: NetworkCommand) -> (a: HandlerAction)
    requires
        old(h).phase is Idle,
    ensures
        command_rel(*old(h), c, *final(h), a),
{
    match c {
        NetworkCommand::Activate => {
            h.activated = true;
            h.phase = Phase::Busy(Operation::Responding);
            let ssids = get_access_points_ssids_owned(&h.access_points);
            HandlerAction::Respond(NetworkCommandResponse::AccessPointsSsids(ssids))
        },
        NetworkCommand::Scan | NetworkCommand::ListAP => {
            h.phase = Phase::Busy(Operation::Refreshing);
            HandlerAction::RefreshAccessPoints
        },
        NetworkCommand::Timeout => {
            if h.activated {
                HandlerAction::AwaitCommand
            } else {
                h.phase = Phase::Terminated;
                HandlerAction::Shutdown(Ok(()))
            }
        },
        NetworkCommand::Exit => {
            h.phase = Phase::Terminated;
            HandlerAction::Shutdown(Ok(()))
        },
        NetworkCommand::Connect { ssid, passphrase } => {
            let target = ssid.clone();
            h.phase = Phase::Connecting(
                ConnectAttempt { ssid, passphrase, stage: ConnectStage::ClearingProfiles },
            );
            HandlerAction::DeleteProfilesFor { ssid: target }
        },
        NetworkCommand::Disconnect { .. } => {
            h.phase = Phase::Busy(Operation::Disconnecting);
            HandlerAction::DisconnectDevice
        },
        NetworkCommand::CheckInternet => {
            h.phase = Phase::Busy(Operation::Probing);
            HandlerAction::ProbeInternet
        },
        NetworkCommand::Clear => {
            h.phase = Phase::Busy(Operation::Clearing);
            HandlerAction::DeletePortalProfiles
        },
    }
}

fn on_busy(h: &mut NetworkCommandHandler, op: Operation, e: HandlerEvent) -> (a: HandlerAction)
    requires
        old(h).phase == Phase::Busy(op),
    ensures
        busy_rel(*old(h), op, e, *final(h), a),
{
    match (op, e) {
        (Operation::Responding, HandlerEvent::ResponseSent(ok)) => {
            if ok {
                h.phase = Phase::Idle;
                HandlerAction::AwaitCommand
            } else {
                h.phase = Phase::Terminated;
                HandlerAction::Shutdown(Err(ErrorKind::SendAccessPointSSIDs))
            }
        },
        (Operation::Refreshing, HandlerEvent::AccessPointsRefreshed(v)) => {
            let w = copy_access_points(&v);
            h.access_points = v;
            h.phase = Phase::Busy(Operation::Responding);
            HandlerAction::Respond(NetworkCommandResponse::AccessPointResponse(w))
        },
        (Operation::Refreshing, HandlerEvent::RefreshFailed) => {
            h.phase = Phase::Terminated;
            HandlerAction::Shutdown(Err(ErrorKind::NoAccessPoints))
        },
        (Operation::Probing, HandlerEvent::ConnectivityChecked(b)) => {
            h.phase = Phase::Busy(Operation::Responding);
            HandlerAction::Respond(NetworkCommandResponse::InternetCheckResponse(b))
        },
        (Operation::Clearing, HandlerEvent::ProfilesCleared) => {
            h.phase = Phase::Idle;
            HandlerAction::AwaitCommand
        },
        (Operation::Disconnecting, HandlerEvent::Disconnected(ok)) => {
            if ok {
                h.phase = Phase::Idle;
                HandlerAction::AwaitCommand
            } else {
                h.phase = Phase::Terminated;
                HandlerAction::Shutdown(Err(ErrorKind::NetworkManager))
            }
        },
        _ => HandlerAction::Ignore,
    }
}

fn on_connect(
    h: &mut NetworkCommandHandler,
    ssid: String,
    passphrase: String,
    stage: ConnectStage,
    e: HandlerEvent,
) -> (a: HandlerAction)
    requires
        old(h).phase == Phase::Connecting(ConnectAttempt { ssid, passphrase, stage }),
    ensures
        connect_rel(*old(h), ssid, passphrase, stage, e, *final(h), a),
{
    match (stage, e) {
        (ConnectStage::ClearingProfiles, HandlerEvent::ProfilesCleared) => {
            h.phase = Phase::Connecting(
                ConnectAttempt { ssid, passphrase, stage: ConnectStage::Scanning },
            );
            HandlerAction::RefreshAccessPoints
        },
        (ConnectStage::Scanning, HandlerEvent::AccessPointsRefreshed(v)) => {
            let found = find_access_point(&v, &ssid);
            match found {
                None => {
                    h.access_points = v;
                    h.phase = Phase::Connecting(
                        ConnectAttempt {
                            ssid,
                            passphrase,
                            stage: ConnectStage::Rescanning { connected: false },
                        },
                    );
                    HandlerAction::RefreshAccessPoints
                },
                Some(k) => {
                    let slot = v[k].slot;
                    let key = passphrase.clone();
                    assert forall|j: int| first_with_ssid(v@, ssid@, j) implies j == k by {
                        if j > k {
                            assert(v@[k as int].ssid@ != ssid@);
                        } else if j < k {
                            assert(v@[j].ssid@ != ssid@);
                        }
                    }
                    assert(v@[k as int].ssid@ == ssid@);
                    h.access_points = v;
                    h.phase = Phase::Connecting(
                        ConnectAttempt { ssid, passphrase, stage: ConnectStage::Authenticating },
                    );
                    HandlerAction::Authenticate { slot, passphrase: key }
                },
            }
        },
        (ConnectStage::Authenticating, HandlerEvent::AuthResult(o)) => match o {
            AuthOutcome::Failed => {
                h.phase = Phase::Connecting(
                    ConnectAttempt {
                        ssid,
                        passphrase,
                        stage: ConnectStage::Rescanning { connected: false },
                    },
                );
                HandlerAction::RefreshAccessPoints
            },
            AuthOutcome::Activated => {
                h.phase = Phase::Connecting(
                    ConnectAttempt { ssid, passphrase, stage: ConnectStage::AwaitingConnectivity },
                );
                HandlerAction::AwaitConnectivity { timeout_secs: CONNECTIVITY_TIMEOUT }
            },
            AuthOutcome::NotActivated => {
                h.phase = Phase::Connecting(
                    ConnectAttempt { ssid, passphrase, stage: ConnectStage::DeletingConnection },
                );
                HandlerAction::DeleteNewConnection
            },
        },
        (ConnectStage::AwaitingConnectivity, HandlerEvent::ConnectivityChecked(_)) => {
            h.phase = Phase::Connecting(
                ConnectAttempt {
                    ssid,
                    passphrase,
                    stage: ConnectStage::Rescanning { connected: true },
                },
            );
            HandlerAction::RefreshAccessPoints
        },
        (ConnectStage::DeletingConnection, HandlerEvent::ConnectionDeleted) => {
            h.phase = Phase::Connecting(
                ConnectAttempt {
                    ssid,
                    passphrase,
                    stage: ConnectStage::Rescanning { connected: false },
                },
            );
            HandlerAction::RefreshAccessPoints
        },
        (ConnectStage::Rescanning { connected }, HandlerEvent::AccessPointsRefreshed(v)) => {
            h.access_points = v;
            h.phase = Phase::Idle;
            HandlerAction::ConnectDone { connected }
        },
        (ConnectStage::Scanning, HandlerEvent::RefreshFailed) | (
            ConnectStage::Rescanning { .. },
            HandlerEvent::RefreshFailed,
        ) => {
            h.phase = Phase::Terminated;
            HandlerAction::Shutdown(Err(ErrorKind::NoAccessPoints))
        },
        _ => HandlerAction::Ignore,
    }
}

/// Takes one event and returns the work to do next. The handler owns the
/// device's state: every mutating operation is asked for here, one at a time.
pub fn process_network_commands(h: &mut NetworkCommandHandler, e: HandlerEvent) -> (a: HandlerAction)
    ensures
        step_rel(*old(h), e, *final(h), a),
{
    match &h.phase {
        Phase::Initializing => match e {
            HandlerEvent::Ready(v) => {
                h.access_points = v;
                h.phase = Phase::Idle;
                HandlerAction::AwaitCommand
            },
            HandlerEvent::SetupFailed(k) => {
                h.phase = Phase::Terminated;
                HandlerAction::Abort(k)
            },
            _ => HandlerAction::Ignore,
        },
        Phase::Idle => match e {
            HandlerEvent::Command(c) => on_command(h, c),
            HandlerEvent::ChannelClosed => {
                h.phase = Phase::Terminated;
                HandlerAction::Shutdown(Err(ErrorKind::RecvNetworkCommand))
            },
            _ => HandlerAction::Ignore,
        },
        Phase::Busy(op) => {
            let op = *op;
            on_busy(h, op, e)
        },
        Phase::Connecting(c) => {
            let ssid = c.ssid.clone();
            let passphrase = c.passphrase.clone();
            let stage = c.stage;
            on_connect(h, ssid, passphrase, stage, e)
        },
        Phase::Terminated => HandlerAction::Ignore,
    }
}

/// `Timeout` ends an idle handler that no client has activated, and is
/// ignored once one has; `Exit` ends it either way. Both end it gracefully.
pub proof fn lemma_terminal_conditions(s: NetworkCommandHandler, t: NetworkCommandHandler, a: HandlerAction)
    requires
        s.phase is Idle,
    ensures
        step_rel(s, HandlerEvent::Command(NetworkCommand::Timeout), t, a) ==> if s.activated {
            t == s && a is AwaitCommand
        } else {
            t.phase is Terminated && a == HandlerAction::Shutdown(Ok(()))
        },
        step_rel(s, HandlerEvent::Command(NetworkCommand::Exit), t, a) ==> t.phase is Terminated
            && a == HandlerAction::Shutdown(Ok(())),
{
}

/// How many of `actions` kill the helper process.
pub open spec fn shutdowns(actions: Seq<HandlerAction>) -> nat
    decreases actions.len(),
{
    if actions.len() == 0 {
        0
    } else {
        shutdowns(actions.drop_last()) + if actions.last() is Shutdown {
            1nat
        } else {
            0nat
        }
    }
}

/// `states` and `actions` are what the handler goes through on `events`.
pub open spec fn is_run(
    states: Seq<NetworkCommandHandler>,
    events: Seq<HandlerEvent>,
    actions: Seq<HandlerAction>,
) -> bool {
    &&& states.len() == events.len() + 1
    &&& actions.len() == events.len()
    &&& forall|i: int|
        0 <= i < events.len() ==> step_rel(states[i], events[i], states[i + 1], #[trigger] actions[i])
}

/// From a phase in which the helper runs, one step either keeps it running
/// with no kill, or terminates with exactly one kill.
proof fn lemma_step_kills(s: NetworkCommandHandler, e: HandlerEvent, t: NetworkCommandHandler, a: HandlerAction)
    requires
        helper_running(s),
        step_rel(s, e, t, a),
    ensures
        t.phase is Terminated <==> a is Shutdown,
        !(t.phase is Terminated) ==> helper_running(t),
{
    if let Phase::Connecting(c) = s.phase {
        if let HandlerEvent::AccessPointsRefreshed(v) = e {
            if exists|k: int| 0 <= k < v@.len() && v@[k].ssid@ == c.ssid@ {
                let k = choose|k: int| 0 <= k < v@.len() && v@[k].ssid@ == c.ssid@;
                let f = first_index_with_ssid(v@, c.ssid@, k);
                assert(first_with_ssid(v@, c.ssid@, f));
            }
        }
    }
}

proof fn lemma_run_prefix(
    states: Seq<NetworkCommandHandler>,
    events: Seq<HandlerEvent>,
    actions: Seq<HandlerAction>,
    n: int,
)
    requires
        is_run(states, events, actions),
        helper_running(states[0]),
        0 <= n <= events.len(),
    ensures
        shutdowns(actions.subrange(0, n)) == if states[n].phase is Terminated {
            1nat
        } else {
            0nat
        },
        states[n].phase is Terminated || helper_running(states[n]),
    decreases n,
{
    if n > 0 {
        lemma_run_prefix(states, events, actions, n - 1);
        assert(actions.subrange(0, n).drop_last() =~= actions.subrange(0, n - 1));
        assert(step_rel(states[n - 1], events[n - 1], states[n], actions[n - 1]));
        if states[n - 1].phase is Terminated {
            assert(states[n] == states[n - 1]);
        } else {
            lemma_step_kills(states[n - 1], events[n - 1], states[n], actions[n - 1]);
        }
    } else {
        assert(actions.subrange(0, 0) =~= Seq::<HandlerAction>::empty());
    }
}

/// Over any run of a handler whose helper process was started, the helper is
/// killed exactly once if the run ends terminated, whichever way it ended
/// (an error, `Timeout`, `Exit`), and not at all otherwise.
pub proof fn lemma_teardown_once(
    states: Seq<NetworkCommandHandler>,
    events: Seq<HandlerEvent>,
    actions: Seq<HandlerAction>,
)
    requires
        is_run(states, events, actions),
        helper_running(states[0]),
    ensures
        shutdowns(actions) == if states.last().phase is Terminated {
            1nat
        } else {
            0nat
        },
{
    lemma_run_prefix(states, events, actions, events.len() as int);
    assert(actions.subrange(0, events.len() as int) =~= actions);
}

/// An idle handler asked to join `ssid`: the stored profiles for it are
/// cleared and the access points scanned.
proof fn lemma_connect_opening(
    s0: NetworkCommandHandler,
    ssid: String,
    passphrase: String,
    s1: NetworkCommandHandler,
    a1: HandlerAction,
    s2: NetworkCommandHandler,
    a2: HandlerAction,
)
    requires
        s0.phase is Idle,
        step_rel(s0, HandlerEvent::Command(NetworkCommand::Connect { ssid, passphrase }), s1, a1),
        step_rel(s1, HandlerEvent::ProfilesCleared, s2, a2),
    ensures
        a1 == (HandlerAction::DeleteProfilesFor { ssid }),
        a2 is RefreshAccessPoints,
        s2 == connecting(s0, ssid, passphrase, ConnectStage::Scanning),
{
}

/// When the requested network is visible and authentication activates the
/// connection, the attempt ends connected, whatever the connectivity wait
/// found; the access points are scanned once more before it ends.
pub proof fn lemma_connect_activated(
    s0: NetworkCommandHandler,
    ssid: String,
    passphrase: String,
    seen: Vec<AccessPointInfo>,
    reached: bool,
    latest: Vec<AccessPointInfo>,
    states: Seq<NetworkCommandHandler>,
    actions: Seq<HandlerAction>,
)
    requires
        s0.phase is Idle,
        exists|k: int| 0 <= k < seen@.len() && seen@[k].ssid@ == ssid@,
        is_run(
            states,
            seq![
                HandlerEvent::Command(NetworkCommand::Connect { ssid, passphrase }),
                HandlerEvent::ProfilesCleared,
                HandlerEvent::AccessPointsRefreshed(seen),
                HandlerEvent::AuthResult(AuthOutcome::Activated),
                HandlerEvent::ConnectivityChecked(reached),
                HandlerEvent::AccessPointsRefreshed(latest),
            ],
            actions,
        ),
        states[0] == s0,
    ensures
        actions[2] is Authenticate,
        actions[3] == (HandlerAction::AwaitConnectivity { timeout_secs: CONNECTIVITY_TIMEOUT }),
        actions[4] is RefreshAccessPoints,
        actions[5] == (HandlerAction::ConnectDone { connected: true }),
        states[6].phase is Idle,
        states[6].access_points == latest,
{
    let events = seq![
        HandlerEvent::Command(NetworkCommand::Connect { ssid, passphrase }),
        HandlerEvent::ProfilesCleared,
        HandlerEvent::AccessPointsRefreshed(seen),
        HandlerEvent::AuthResult(AuthOutcome::Activated),
        HandlerEvent::ConnectivityChecked(reached),
        HandlerEvent::AccessPointsRefreshed(latest),
    ];
    assert(step_rel(states[0], events[0], states[1], actions[0]));
    assert(step_rel(states[1], events[1], states[2], actions[1]));
    lemma_connect_opening(s0, ssid, passphrase, states[1], actions[0], states[2], actions[1]);
    assert(step_rel(states[2], events[2], states[3], actions[2]));
    let k = choose|k: int| 0 <= k < seen@.len() && seen@[k].ssid@ == ssid@;
    let f = first_index_with_ssid(seen@, ssid@, k);
    assert(first_with_ssid(seen@, ssid@, f));
    assert(step_rel(states[3], events[3], states[4], actions[3]));
    assert(step_rel(states[4], events[4], states[5], actions[4]));
    assert(step_rel(states[5], events[5], states[6], actions[5]));
}

/// Some first position advertising `ssid` exists at or before `k`.
proof fn first_index_with_ssid(aps: Seq<AccessPointInfo>, ssid: Seq<char>, k: int) -> (f: int)
    requires
        0 <= k < aps.len(),
        aps[k].ssid@ == ssid,
    ensures
        first_with_ssid(aps, ssid, f),
    decreases k,
{
    if exists|j: int| 0 <= j < k && aps[j].ssid@ == ssid {
        let j = choose|j: int| 0 <= j < k && aps[j].ssid@ == ssid;
        first_index_with_ssid(aps, ssid, j)
    } else {
        k
    }
}

/// When the requested network is not among the access points scanned, the
/// attempt never authenticates and ends not connected, after one more scan.
pub proof fn lemma_connect_vanished(
    s0: NetworkCommandHandler,
    ssid: String,
    passphrase: String,
    seen: Vec<AccessPointInfo>,
    latest: Vec<AccessPointInfo>,
    states: Seq<NetworkCommandHandler>,
    actions: Seq<HandlerAction>,
)
    requires
        s0.phase is Idle,
        forall|j: int| 0 <= j < seen@.len() ==> seen@[j].ssid@ != ssid@,
        is_run(
            states,
            seq![
                HandlerEvent::Command(NetworkCommand::Connect { ssid, passphrase }),
                HandlerEvent::ProfilesCleared,
                HandlerEvent::AccessPointsRefreshed(seen),
                HandlerEvent::AccessPointsRefreshed(latest),
            ],
            actions,
        ),
        states[0] == s0,
    ensures
        forall|i: int| 0 <= i < actions.len() ==> !(actions[i] is Authenticate),
        actions[2] is RefreshAccessPoints,
        actions[3] == (HandlerAction::ConnectDone { connected: false }),
        states[4].phase is Idle,
        states[4].access_points == latest,
{
    let events = seq![
        HandlerEvent::Command(NetworkCommand::Connect { ssid, passphrase }),
        HandlerEvent::ProfilesCleared,
        HandlerEvent::AccessPointsRefreshed(seen),
        HandlerEvent::AccessPointsRefreshed(latest),
    ];
    assert(step_rel(states[0], events[0], states[1], actions[0]));
    assert(step_rel(states[1], events[1], states[2], actions[1]));
    lemma_connect_opening(s0, ssid, passphrase, states[1], actions[0], states[2], actions[1]);
    assert(step_rel(states[2], events[2], states[3], actions[2]));
    assert(step_rel(states[3], events[3], states[4], actions[3]));
}

/// When authentication succeeds but the connection does not activate, the
/// new connection object is deleted and the attempt ends not connected.
pub proof fn lemma_connect_not_activated(
    s0: NetworkCommandHandler,
    ssid: String,
    passphrase: String,
    seen: Vec<AccessPointInfo>,
    latest: Vec<AccessPointInfo>,
    states: Seq<NetworkCommandHandler>,
    actions: Seq<HandlerAction>,
)
    requires
        s0.phase is Idle,
        exists|k: int| 0 <= k < seen@.len() && seen@[k].ssid@ == ssid@,
        is_run(
            states,
            seq![
                HandlerEvent::Command(NetworkCommand::Connect { ssid, passphrase }),
                HandlerEvent::ProfilesCleared,
                HandlerEvent::AccessPointsRefreshed(seen),
                HandlerEvent::AuthResult(AuthOutcome::NotActivated),
                HandlerEvent::ConnectionDeleted,
                HandlerEvent::AccessPointsRefreshed(latest),
            ],
            actions,
        ),
        states[0] == s0,
    ensures
        actions[2] is Authenticate,
        actions[3] is DeleteNewConnection,
        actions[4] is RefreshAccessPoints,
        actions[5] == (HandlerAction::ConnectDone { connected: false }),
        states[6].phase is Idle,
{
    let events = seq![
        HandlerEvent::Command(NetworkCommand::Connect { ssid, passphrase }),
        HandlerEvent::ProfilesCleared,
        HandlerEvent::AccessPointsRefreshed(seen),
        HandlerEvent::AuthResult(AuthOutcome::NotActivated),
        HandlerEvent::ConnectionDeleted,
        HandlerEvent::AccessPointsRefreshed(latest),
    ];
    assert(step_rel(states[0], events[0], states[1], actions[0]));
    assert(step_rel(states[1], events[1], states[2], actions[1]));
    lemma_connect_opening(s0, ssid, passphrase, states[1], actions[0], states[2], actions[1]);
    assert(step_rel(states[2], events[2], states[3], actions[2]));
    let k = choose|k: int| 0 <= k < seen@.len() && seen@[k].ssid@ == ssid@;
    let f = first_index_with_ssid(seen@, ssid@, k);
    assert(first_with_ssid(seen@, ssid@, f));
    assert(step_rel(states[3], events[3], states[4], actions[3]));
    assert(step_rel(states[4], events[4], states[5], actions[4]));
    assert(step_rel(states[5], events[5], states[6], actions[5]));
}

} // verus!
