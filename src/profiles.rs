use vstd::prelude::*;
use vstd::utf8::{decode_utf8, valid_utf8};

use crate::directory::decode_ssid;

verus! {

/// What the network-management service reports of one stored connection profile.
pub struct ProfileInfo {
    pub kind: String,
    pub mode: String,
    pub ssid: Vec<u8>,
}

/// The profile kind of a wireless connection.
pub open spec fn wireless_kind() -> Seq<char> {
    seq!['8', '0', '2', '-', '1', '1', '-', 'w', 'i', 'r', 'e', 'l', 'e', 's', 's']
}

/// The mode of a profile that runs the device as an access point.
pub open spec fn access_point_mode() -> Seq<char> {
    seq!['a', 'p']
}

/// A wireless profile in access point mode, left over from a portal session.
pub open spec fn is_portal_profile(p: ProfileInfo) -> bool {
    p.kind@ == wireless_kind() && p.mode@ == access_point_mode()
}

/// A wireless profile bound to the network `ssid`.
pub open spec fn is_profile_for(p: ProfileInfo, ssid: Seq<char>) -> bool {
    p.kind@ == wireless_kind() && valid_utf8(p.ssid@) && decode_utf8(p.ssid@) == ssid
}

/// Positions, in order, of the portal profiles among the first `n`.
pub open spec fn portal_prefix(ps: Seq<ProfileInfo>, n: int) -> Seq<usize>
    decreases n,
{
    if n <= 0 {
        seq![]
    } else if is_portal_profile(ps[n - 1]) {
        portal_prefix(ps, n - 1).push((n - 1) as usize)
    } else {
        portal_prefix(ps, n - 1)
    }
}

/// Positions, in order, of the profiles for `ssid` among the first `n`.
pub open spec fn ssid_prefix(ps: Seq<ProfileInfo>, ssid: Seq<char>, n: int) -> Seq<usize>
    decreases n,
{
    if n <= 0 {
        seq![]
    } else if is_profile_for(ps[n - 1], ssid) {
        ssid_prefix(ps, ssid, n - 1).push((n - 1) as usize)
    } else {
        ssid_prefix(ps, ssid, n - 1)
    }
}

fn is_wireless(p: &ProfileInfo) -> (r: bool)
    ensures
        r == (p.kind@ == wireless_kind()),
{
    let wireless = "802-11-wireless".to_string();
    proof {
        reveal_strlit("802-11-wireless");
        assert(wireless@ =~= wireless_kind());
    }
    p.kind == wireless
}

/// Positions of the stored profiles to purge at start-up: every wireless
/// profile in access point mode.
pub fn delete_access_point_profiles(profiles: &Vec<ProfileInfo>) -> (r: Vec<usize>)
    ensures
        r@ == portal_prefix(profiles@, profiles@.len() as int),
{
    let ap = "ap".to_string();
    proof {
        reveal_strlit("ap");
    }
    let mut r: Vec<usize> = Vec::new();
    let mut i: usize = 0;
    while i < profiles.len()
        invariant
            i <= profiles@.len(),
            ap@ == access_point_mode(),
            r@ == portal_prefix(profiles@, i as int),
        decreases profiles@.len() - i,
    {
        let p = &profiles[i];
        if is_wireless(p) && p.mode == ap {
            r.push(i);
        }
        i += 1;
    }
    r
}

/// Positions of the stored wireless profiles for `ssid`, purged before a new
/// attempt to join that network.
pub fn delete_connection_if_exists(profiles: &Vec<ProfileInfo>, ssid: &String) -> (r: Vec<usize>)
    ensures
        r@ == ssid_prefix(profiles@, ssid@, profiles@.len() as int),
{
    let mut r: Vec<usize> = Vec::new();
    let mut i: usize = 0;
    while i < profiles.len()
        invariant
            i <= profiles@.len(),
            r@ == ssid_prefix(profiles@, ssid@, i as int),
        decreases profiles@.len() - i,
    {
        let p = &profiles[i];
        match decode_ssid(&p.ssid) {
            Some(s) => {
                if is_wireless(p) && s == *ssid {
                    r.push(i);
                }
            },
            None => {},
        }
        i += 1;
    }
    r
}

} // verus!
