use vstd::prelude::*;

verus! {

/// A visible wireless network whose SSID decoded as text.
#[derive(Debug, PartialEq, Eq)]
pub struct AccessPointInfo {
    pub ssid: String,
    pub strength: u32,
    /// Position of this entry in the raw scan that reported it.
    pub slot: usize,
}

/// Requests consumed by the network command handler.
pub enum NetworkCommand {
    Activate,
    Scan,
    ListAP,
    Timeout,
    Exit,
    Connect { ssid: String, passphrase: String },
    Disconnect { ssid: String },
    CheckInternet,
    Clear,
}

/// Replies the handler sends back to the web layer.
#[derive(Debug, PartialEq, Eq)]
pub enum NetworkCommandResponse {
    AccessPointsSsids(Vec<String>),
    AccessPointResponse(Vec<AccessPointInfo>),
    InternetCheckResponse(bool),
}

/// A copy of an access point list, entry for entry.
pub fn copy_access_points(v: &Vec<AccessPointInfo>) -> (r: Vec<AccessPointInfo>)
    ensures
        r@ == v@,
{
    let mut r: Vec<AccessPointInfo> = Vec::new();
    let mut i: usize = 0;
    while i < v.len()
        invariant
            i <= v@.len(),
            r@ == v@.subrange(0, i as int),
        decreases v@.len() - i,
    {
        let ap = &v[i];
        r.push(AccessPointInfo { ssid: ap.ssid.clone(), strength: ap.strength, slot: ap.slot });
        assert(r@ =~= v@.subrange(0, i + 1));
        i += 1;
    }
    assert(r@ =~= v@);
    r
}

/// The access point list a listing request reads from a response; any other
/// response gives an empty list.
pub fn access_points_of(r: NetworkCommandResponse) -> (aps: Vec<AccessPointInfo>)
    ensures
        match r {
            NetworkCommandResponse::AccessPointResponse(v) => aps == v,
            _ => aps@.len() == 0,
        },
{
    match r {
        NetworkCommandResponse::AccessPointResponse(v) => v,
        _ => Vec::new(),
    }
}

/// The verdict an internet check reads from a response; any other response
/// counts as no connection.
pub fn internet_check_of(r: &NetworkCommandResponse) -> (ok: bool)
    ensures
        ok == (*r == NetworkCommandResponse::InternetCheckResponse(true)),
{
    match r {
        NetworkCommandResponse::InternetCheckResponse(b) => *b,
        _ => false,
    }
}

} // verus!
