use vstd::prelude::*;

use crate::errors::ErrorKind;
use crate::profiles::{delete_access_point_profiles, portal_prefix, ProfileInfo};

verus! {

/// Aggregate reachability as the network-management service classifies it.
pub enum Connectivity {
    Unknown,
    Unreachable,
    Portal,
    Limited,
    Full,
}

/// Connectivity good enough to call a link usable.
pub open spec fn is_connected(c: Connectivity) -> bool {
    c is Full || c is Limited
}

/// What to do after one connectivity poll.
#[derive(Debug, PartialEq, Eq)]
pub enum WaitStep {
    Reached,
    TimedOut,
    PollAgainAfterOneSecond,
}

/// A bounded wait for connectivity, polled once per second.
pub struct ConnectivityWait {
    /// Seconds waited so far.
    pub elapsed: u64,
    /// Seconds after which the wait gives up.
    pub timeout: u64,
}

impl ConnectivityWait {
    /// The time waited never passes the timeout.
    pub open spec fn wf(&self) -> bool {
        self.elapsed <= self.timeout
    }

    pub fn new(timeout: u64) -> (r: ConnectivityWait)
        ensures
            r.wf(),
            r.elapsed == 0,
            r.timeout == timeout,
    {
        ConnectivityWait { elapsed: 0, timeout }
    }

    /// Takes one poll result: done once connectivity is full or limited, or
    /// once the time waited reaches the timeout; else wait one more second.
    pub fn on_poll(&mut self, c: Connectivity) -> (r: WaitStep)
        requires
            old(self).wf(),
        ensures
            final(self).wf(),
            final(self).timeout == old(self).timeout,
            is_connected(c) ==> r is Reached && final(self).elapsed == old(self).elapsed,
            !is_connected(c) && old(self).elapsed >= old(self).timeout ==> r is TimedOut
                && final(self).elapsed == old(self).elapsed,
            !is_connected(c) && old(self).elapsed < old(self).timeout ==> r is PollAgainAfterOneSecond
                && final(self).elapsed == old(self).elapsed + 1,
    {
        match c {
            Connectivity::Full | Connectivity::Limited => WaitStep::Reached,
            _ => {
                if self.elapsed >= self.timeout {
                    WaitStep::TimedOut
                } else {
                    self.elapsed = self.elapsed + 1;
                    WaitStep::PollAgainAfterOneSecond
                }
            },
        }
    }
}

/// Run states of the network-management service.
pub enum ServiceState {
    Active,
    Reloading,
    Inactive,
    Failed,
    Activating,
    Deactivating,
}

/// Seconds the service is given to come up.
pub const SERVICE_START_TIMEOUT: u64 = 15;

/// Where start-up of networking stands.
#[derive(Clone, Copy)]
pub enum InitStage {
    QueryingService,
    StartingService,
    ListingProfiles,
    DeletingProfiles,
    Finished,
}

/// Outcomes of the outside work that start-up asks for.
pub enum InitEvent {
    /// The service's state, or `None` when it could not be read.
    ServiceState(Option<ServiceState>),
    /// The state the service reached once started, or `None` when starting failed.
    ServiceStarted(Option<ServiceState>),
    /// The stored profiles, or `None` when they could not be listed.
    Profiles(Option<Vec<ProfileInfo>>),
    /// Whether every profile asked for was deleted.
    ProfilesDeleted(bool),
}

/// Outside work that start-up asks for next.
#[derive(Debug, PartialEq, Eq)]
pub enum InitAction {
    QueryServiceState,
    StartService { timeout_secs: u64 },
    ListProfiles,
    /// Delete the listed profiles, in order, stopping at the first failure.
    DeleteProfiles(Vec<usize>),
    Finish(Result<(), ErrorKind>),
}

/// Start-up of networking: bring the service up if it is not running, then
/// purge the access point profiles of earlier portal sessions.
pub struct NetworkingInit {
    pub stage: InitStage,
}

/// Begins start-up of networking; the first thing to do is read the service's state.
pub fn init_networking() -> (r: (NetworkingInit, InitAction))
    ensures
        r.0.stage is QueryingService,
        r.1 is QueryServiceState,
{
    (NetworkingInit { stage: InitStage::QueryingService }, InitAction::QueryServiceState)
}

/// What follows once the service's state is read: start it unless it is
/// active; a state that could not be read ends start-up with an error.
pub open spec fn after_service_state(state: Option<ServiceState>) -> InitAction {
    match state {
        None => InitAction::Finish(Err(ErrorKind::NetworkManagerServiceState)),
        Some(ServiceState::Active) => InitAction::ListProfiles,
        Some(_) => InitAction::StartService { timeout_secs: SERVICE_START_TIMEOUT },
    }
}

/// The decision once the service's state is known: start it unless it is active.
pub fn start_network_manager_service(state: Option<ServiceState>) -> (r: InitAction)
    ensures
        r == after_service_state(state),
{
    match state {
        None => InitAction::Finish(Err(ErrorKind::NetworkManagerServiceState)),
        Some(ServiceState::Active) => InitAction::ListProfiles,
        Some(_) => InitAction::StartService { timeout_secs: SERVICE_START_TIMEOUT },
    }
}

impl NetworkingInit {
    /// Takes the outcome of the last action and returns the next one.
    pub fn step(&mut self, e: InitEvent) -> (r: InitAction)
        ensures
            match (old(self).stage, e) {
                (InitStage::QueryingService, InitEvent::ServiceState(s)) => {
                    &&& r == after_service_state(s)
                    &&& r is Finish ==> final(self).stage is Finished
                    &&& r is ListProfiles ==> final(self).stage is ListingProfiles
                    &&& r is StartService ==> final(self).stage is StartingService
                },
                (InitStage::StartingService, InitEvent::ServiceStarted(s)) => match s {
                    None => r == InitAction::Finish(Err(ErrorKind::StartNetworkManager))
                        && final(self).stage is Finished,
                    Some(ServiceState::Active) => r is ListProfiles
                        && final(self).stage is ListingProfiles,
                    Some(_) => r == InitAction::Finish(Err(ErrorKind::StartActiveNetworkManager))
                        && final(self).stage is Finished,
                },
                (InitStage::ListingProfiles, InitEvent::Profiles(ps)) => match ps {
                    None => r == InitAction::Finish(Err(ErrorKind::DeleteAccessPoint))
                        && final(self).stage is Finished,
                    Some(v) => (r matches InitAction::DeleteProfiles(d) && d@ == portal_prefix(
                        v@,
                        v@.len() as int,
                    )) && final(self).stage is DeletingProfiles,
                },
                (InitStage::DeletingProfiles, InitEvent::ProfilesDeleted(ok)) => final(self).stage is Finished
                    && if ok {
                    r == InitAction::Finish(Ok(()))
                } else {
                    r == InitAction::Finish(Err(ErrorKind::DeleteAccessPoint))
                },
                _ => r == InitAction::Finish(Err(ErrorKind::NetworkManager))
                    && final(self).stage is Finished,
            },
    {
        let stage = self.stage;
        self.stage = InitStage::Finished;
        match (stage, e) {
            (InitStage::QueryingService, InitEvent::ServiceState(s)) => {
                let r = start_network_manager_service(s);
                match r {
                    InitAction::ListProfiles => {
                        self.stage = InitStage::ListingProfiles;
                    },
                    InitAction::StartService { .. } => {
                        self.stage = InitStage::StartingService;
                    },
                    _ => {},
                }
                r
            },
            (InitStage::StartingService, InitEvent::ServiceStarted(s)) => match s {
                None => InitAction::Finish(Err(ErrorKind::StartNetworkManager)),
                Some(ServiceState::Active) => {
                    self.stage = InitStage::ListingProfiles;
                    InitAction::ListProfiles
                },
                Some(_) => InitAction::Finish(Err(ErrorKind::StartActiveNetworkManager)),
            },
            (InitStage::ListingProfiles, InitEvent::Profiles(ps)) => match ps {
                None => InitAction::Finish(Err(ErrorKind::DeleteAccessPoint)),
                Some(v) => {
                    self.stage = InitStage::DeletingProfiles;
                    InitAction::DeleteProfiles(delete_access_point_profiles(&v))
                },
            },
            (InitStage::DeletingProfiles, InitEvent::ProfilesDeleted(ok)) => {
                if ok {
                    InitAction::Finish(Ok(()))
                } else {
                    InitAction::Finish(Err(ErrorKind::DeleteAccessPoint))
                }
            },
            _ => InitAction::Finish(Err(ErrorKind::NetworkManager)),
        }
    }
}

} // verus!
