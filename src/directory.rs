use vstd::prelude::*;
use vstd::utf8::{decode_utf8, valid_utf8};

use crate::command::AccessPointInfo;
use crate::errors::ErrorKind;

verus! {

/// What the network-management service reports of one device.
pub struct DeviceInfo {
    pub interface: String,
    pub is_wifi: bool,
}

/// One entry of a raw scan, its SSID still undecoded.
pub struct RawAccessPoint {
    pub ssid: Vec<u8>,
    pub strength: u32,
}

/// `k` is the first device bound to the interface `name`.
pub open spec fn first_named(devices: Seq<DeviceInfo>, name: Seq<char>, k: int) -> bool {
    &&& 0 <= k < devices.len()
    &&& devices[k].interface@ == name
    &&& forall|j: int| 0 <= j < k ==> devices[j].interface@ != name
}

/// `k` is the first wireless device.
pub open spec fn first_wifi(devices: Seq<DeviceInfo>, k: int) -> bool {
    &&& 0 <= k < devices.len()
    &&& devices[k].is_wifi
    &&& forall|j: int| 0 <= j < k ==> !devices[j].is_wifi
}

/// Position of the first device bound to the interface `name`.
fn position_of_interface(devices: &Vec<DeviceInfo>, name: &String) -> (r: Option<usize>)
    ensures
        r is None <==> forall|j: int| 0 <= j < devices@.len() ==> devices@[j].interface@ != name@,
        r matches Some(k) ==> first_named(devices@, name@, k as int),
{
    let mut i: usize = 0;
    while i < devices.len()
        invariant
            i <= devices@.len(),
            forall|j: int| 0 <= j < i ==> devices@[j].interface@ != name@,
        decreases devices@.len() - i,
    {
        if devices[i].interface == *name {
            return Some(i);
        }
        i += 1;
    }
    None
}

/// Position of the first wireless device.
fn position_of_wifi(devices: &Vec<DeviceInfo>) -> (r: Option<usize>)
    ensures
        r is None <==> forall|j: int| 0 <= j < devices@.len() ==> !devices@[j].is_wifi,
        r matches Some(k) ==> first_wifi(devices@, k as int),
{
    let mut i: usize = 0;
    while i < devices.len()
        invariant
            i <= devices@.len(),
            forall|j: int| 0 <= j < i ==> !devices@[j].is_wifi,
        decreases devices@.len() - i,
    {
        if devices[i].is_wifi {
            return Some(i);
        }
        i += 1;
    }
    None
}

/// Picks the device the handler will own: the one bound to `interface` when a
/// name is given, which must then be wireless, else the first wireless device.
pub fn find_device(interface: &Option<String>, devices: &Vec<DeviceInfo>) -> (r: Result<usize, ErrorKind>)
    ensures
        match *interface {
            Some(name) => {
                &&& (forall|j: int| 0 <= j < devices@.len() ==> devices@[j].interface@ != name@) ==> (
                r matches Err(ErrorKind::DeviceByInterface(n)) && n@ == name@)
                &&& forall|k: int|
                    first_named(devices@, name@, k) ==> if devices@[k].is_wifi {
                        r == Ok::<usize, ErrorKind>(k as usize)
                    } else {
                        r matches Err(ErrorKind::NotAWiFiDevice(n)) && n@ == name@
                    }
            },
            None => {
                &&& (forall|j: int| 0 <= j < devices@.len() ==> !devices@[j].is_wifi) ==> r
                    == Err::<usize, ErrorKind>(ErrorKind::NoWiFiDevice)
                &&& forall|k: int| first_wifi(devices@, k) ==> r == Ok::<usize, ErrorKind>(k as usize)
            },
        },
{
    match interface {
        Some(name) => match position_of_interface(devices, name) {
            Some(i) => {
                assert forall|k: int| first_named(devices@, name@, k) implies k == i by {
                    if k > i {
                        assert(devices@[i as int].interface@ != name@);
                    } else if k < i {
                        assert(devices@[k].interface@ != name@);
                    }
                }
                if devices[i].is_wifi {
                    Ok(i)
                } else {
                    Err(ErrorKind::NotAWiFiDevice(name.clone()))
                }
            },
            None => Err(ErrorKind::DeviceByInterface(name.clone())),
        },
        None => match position_of_wifi(devices) {
            Some(i) => {
                assert forall|k: int| first_wifi(devices@, k) implies k == i by {
                    if k > i {
                        assert(!devices@[i as int].is_wifi);
                    } else if k < i {
                        assert(!devices@[k].is_wifi);
                    }
                }
                Ok(i)
            },
            None => Err(ErrorKind::NoWiFiDevice),
        },
    }
}

/// Relies on String::from_utf8: it succeeds exactly on valid UTF-8 and then
/// holds the decoded text.
#[verifier::external_body]
pub(crate) fn decode_ssid(bytes: &Vec<u8>) -> (r: Option<String>)
    ensures
        r is Some <==> valid_utf8(bytes@),
        r matches Some(s) ==> s@ == decode_utf8(bytes@),
{
    String::from_utf8(bytes.clone()).ok()
}

/// The plain contents of an access point entry.
pub open spec fn ap_view(a: AccessPointInfo) -> (Seq<char>, u32, usize) {
    (a.ssid@, a.strength, a.slot)
}

pub open spec fn ap_views(aps: Seq<AccessPointInfo>) -> Seq<(Seq<char>, u32, usize)> {
    aps.map_values(|a: AccessPointInfo| ap_view(a))
}

/// The decodable entries among the first `n` of a raw scan, in scan order.
pub open spec fn decoded_prefix(raw: Seq<RawAccessPoint>, n: int) -> Seq<(Seq<char>, u32, usize)>
    decreases n,
{
    if n <= 0 {
        seq![]
    } else {
        let rest = decoded_prefix(raw, n - 1);
        let e = raw[n - 1];
        if valid_utf8(e.ssid@) {
            rest.push((decode_utf8(e.ssid@), e.strength, (n - 1) as usize))
        } else {
            rest
        }
    }
}

/// The decodable entries of a raw scan, in scan order.
pub open spec fn decodable_entries(raw: Seq<RawAccessPoint>) -> Seq<(Seq<char>, u32, usize)> {
    decoded_prefix(raw, raw.len() as int)
}

/// Drops the entries whose SSID is not text, keeping the others in order.
pub fn filter_access_points(raw: &Vec<RawAccessPoint>) -> (r: Vec<AccessPointInfo>)
    ensures
        ap_views(r@) == decodable_entries(raw@),
{
    let mut r: Vec<AccessPointInfo> = Vec::new();
    let mut i: usize = 0;
    while i < raw.len()
        invariant
            i <= raw@.len(),
            ap_views(r@) == decoded_prefix(raw@, i as int),
        decreases raw@.len() - i,
    {
        let e = &raw[i];
        let ghost before = r@;
        match decode_ssid(&e.ssid) {
            Some(s) => {
                r.push(AccessPointInfo { ssid: s, strength: e.strength, slot: i });
                assert(ap_views(r@) =~= ap_views(before).push(ap_view(r@.last())));
            },
            None => {},
        }
        i += 1;
    }
    r
}

/// Number of scans made before an empty result is accepted.
pub const SCAN_ATTEMPTS: u32 = 10;

/// What to do after one scan of the device.
#[derive(Debug, PartialEq, Eq)]
pub enum ScanStep {
    /// Networks were seen: this is the new list.
    Found(Vec<AccessPointInfo>),
    /// Nothing seen yet: wait one second and scan again.
    RetryAfterOneSecond,
    /// Every attempt came back empty: the list is empty, which is no error.
    GaveUp,
}

/// The shape of a scan step, without its list.
pub enum ScanKind {
    Found,
    Retry,
    GaveUp,
}

/// Empty scans counted after one more scan that found `found` networks.
pub open spec fn attempts_after(attempts: nat, found: nat) -> nat {
    if found > 0 {
        attempts
    } else {
        attempts + 1
    }
}

/// The step taken after one more scan that found `found` networks.
pub open spec fn scan_kind(attempts: nat, found: nat) -> ScanKind {
    if found > 0 {
        ScanKind::Found
    } else if attempts + 1 < SCAN_ATTEMPTS {
        ScanKind::Retry
    } else {
        ScanKind::GaveUp
    }
}

pub open spec fn kind_of(s: ScanStep) -> ScanKind {
    match s {
        ScanStep::Found(_) => ScanKind::Found,
        ScanStep::RetryAfterOneSecond => ScanKind::Retry,
        ScanStep::GaveUp => ScanKind::GaveUp,
    }
}

/// The steps taken when every scan from `attempts` empty ones on is empty too.
pub open spec fn empty_scan_run(attempts: nat) -> Seq<ScanKind>
    decreases SCAN_ATTEMPTS - attempts,
{
    if attempts >= SCAN_ATTEMPTS {
        seq![]
    } else {
        let k = scan_kind(attempts, 0);
        if k == ScanKind::GaveUp {
            seq![k]
        } else {
            seq![k] + empty_scan_run(attempts_after(attempts, 0))
        }
    }
}

/// Retry bookkeeping for one refresh of the access point list.
pub struct ScanRetry {
    /// Scans so far that found nothing.
    pub attempts: u32,
}

impl ScanRetry {
    pub fn new() -> (r: ScanRetry)
        ensures
            r.attempts == 0,
    {
        ScanRetry { attempts: 0 }
    }

    /// Takes the result of one scan and says whether to stop or scan again.
    pub fn on_scan(&mut self, raw: &Vec<RawAccessPoint>) -> (r: ScanStep)
        requires
            old(self).attempts < SCAN_ATTEMPTS,
        ensures
            kind_of(r) == scan_kind(old(self).attempts as nat, decodable_entries(raw@).len()),
            final(self).attempts == attempts_after(
                old(self).attempts as nat,
                decodable_entries(raw@).len(),
            ),
            r matches ScanStep::Found(v) ==> ap_views(v@) == decodable_entries(raw@),
    {
        let found = filter_access_points(raw);
        assert(ap_views(found@).len() == found@.len());
        if found.len() > 0 {
            ScanStep::Found(found)
        } else {
            self.attempts = self.attempts + 1;
            if self.attempts < SCAN_ATTEMPTS {
                ScanStep::RetryAfterOneSecond
            } else {
                ScanStep::GaveUp
            }
        }
    }
}

/// A device that reports nothing on every scan is scanned exactly ten times:
/// nine empty results each ask for another scan one second later, and the
/// tenth ends the refresh with an empty list rather than an error.
pub proof fn lemma_retry_termination()
    ensures
        empty_scan_run(0).len() == SCAN_ATTEMPTS,
        forall|i: int| 0 <= i < SCAN_ATTEMPTS - 1 ==> empty_scan_run(0)[i] == ScanKind::Retry,
        empty_scan_run(0)[SCAN_ATTEMPTS - 1] == ScanKind::GaveUp,
{
    reveal_with_fuel(empty_scan_run, 11);
    assert(empty_scan_run(9) =~= seq![ScanKind::GaveUp]);
    assert(empty_scan_run(0) =~= seq![
        ScanKind::Retry, ScanKind::Retry, ScanKind::Retry, ScanKind::Retry, ScanKind::Retry,
        ScanKind::Retry, ScanKind::Retry, ScanKind::Retry, ScanKind::Retry, ScanKind::GaveUp
    ]);
}

/// The SSIDs of a list of access points, in order.
pub fn get_access_points_ssids_owned(aps: &Vec<AccessPointInfo>) -> (r: Vec<String>)
    ensures
        r@.len() == aps@.len(),
        forall|i: int| 0 <= i < aps@.len() ==> r@[i]@ == aps@[i].ssid@,
{
    let mut r: Vec<String> = Vec::new();
    let mut i: usize = 0;
    while i < aps.len()
        invariant
            i <= aps@.len(),
            r@.len() == i,
            forall|j: int| 0 <= j < i ==> r@[j]@ == aps@[j].ssid@,
        decreases aps@.len() - i,
    {
        r.push(aps[i].ssid.clone());
        i += 1;
    }
    r
}

/// `k` is the first access point advertising `ssid`.
pub open spec fn first_with_ssid(aps: Seq<AccessPointInfo>, ssid: Seq<char>, k: int) -> bool {
    &&& 0 <= k < aps.len()
    &&& aps[k].ssid@ == ssid
    &&& forall|j: int| 0 <= j < k ==> aps[j].ssid@ != ssid
}

/// Position of the first access point advertising `ssid`, if any is visible.
pub fn find_access_point(aps: &Vec<AccessPointInfo>, ssid: &String) -> (r: Option<usize>)
    ensures
        (forall|j: int| 0 <= j < aps@.len() ==> aps@[j].ssid@ != ssid@) <==> r is None,
        r matches Some(k) ==> first_with_ssid(aps@, ssid@, k as int),
{
    let mut i: usize = 0;
    while i < aps.len()
        invariant
            i <= aps@.len(),
            forall|j: int| 0 <= j < i ==> aps@[j].ssid@ != ssid@,
        decreases aps@.len() - i,
    {
        if aps[i].ssid == *ssid {
            return Some(i);
        }
        i += 1;
    }
    None
}

} // verus!
