use vstd::prelude::*;
use vstd::string::StringExecFns;
use vstd::utf8::{decode_utf8, valid_utf8};

use crate::models::{
    offline_icon_text, unknown_string, unknown_text, views, zero_ip_text, zero_mac_text,
    NetworkInfo, NetworkView, WiFiSecurityType,
};
use crate::resolver::copy_text;
use crate::security::{same_text, security_for_hint, security_from_hint};
use crate::text::decode_strict;

verus! {

/// How a settings group of a stored profile was found.
#[derive(Clone, Copy, Debug, PartialEq, Eq, Structural)]
pub enum GroupShape {
    Absent,
    NotAMap,
    Dict,
}

/// The parts of a stored profile's settings that the library reads, as
/// plain values; `None` marks a value that was missing or had another shape.
#[derive(Clone, Debug)]
pub struct SavedProfile {
    pub connection_group: GroupShape,
    pub connection_type: Option<String>,
    pub id: Option<String>,
    pub wireless_group: GroupShape,
    pub ssid: Option<Vec<u8>>,
    pub security_group: GroupShape,
    pub key_mgmt: Option<String>,
}

/// A profile is listed when its connection group is a map whose type is
/// wireless, and its wireless group, if any, is a map.
pub open spec fn is_listed(p: SavedProfile) -> bool {
    &&& p.connection_group == GroupShape::Dict
    &&& p.connection_type matches Some(t) && t@ == "802-11-wireless"@
    &&& p.wireless_group != GroupShape::NotAMap
}

/// The SSID of a profile, when its wireless group holds valid UTF-8 bytes.
pub open spec fn profile_ssid(p: SavedProfile) -> Option<Seq<char>> {
    if p.wireless_group == GroupShape::Dict && (p.ssid matches Some(b) && valid_utf8(b@)) {
        Some(decode_utf8(p.ssid->Some_0@))
    } else {
        None
    }
}

pub open spec fn profile_security(p: SavedProfile) -> WiFiSecurityType {
    if p.security_group == GroupShape::Dict {
        match p.key_mgmt {
            Some(h) => security_from_hint(h@),
            None => WiFiSecurityType::Open,
        }
    } else {
        WiFiSecurityType::Open
    }
}

/// The partial record of a listed profile: name, SSID and security; the
/// other fields keep their placeholders.
pub open spec fn saved_view(p: SavedProfile) -> NetworkView {
    NetworkView {
        name: match p.id {
            Some(i) => i@,
            None => unknown_text(),
        },
        ssid: match profile_ssid(p) {
            Some(s) => s,
            None => unknown_text(),
        },
        connection_type: "wifi"@,
        icon: offline_icon_text(),
        ip_address: zero_ip_text(),
        mac_address: zero_mac_text(),
        signal_strength: 0,
        security_type: profile_security(p),
        is_connected: false,
    }
}

/// The records of the listed profiles, in their order.
pub open spec fn saved_list(ps: Seq<SavedProfile>) -> Seq<NetworkView>
    decreases ps.len(),
{
    if ps.len() == 0 {
        Seq::empty()
    } else if is_listed(ps.last()) {
        saved_list(ps.drop_last()).push(saved_view(ps.last()))
    } else {
        saved_list(ps.drop_last())
    }
}

/// Whether a profile is a wireless one whose SSID is `ssid`.
pub open spec fn profile_matches(p: SavedProfile, ssid: Seq<char>) -> bool {
    &&& p.connection_group == GroupShape::Dict
    &&& p.connection_type matches Some(t) && t@ == "802-11-wireless"@
    &&& profile_ssid(p) == Some(ssid)
}

fn is_wireless_type(t: &Option<String>) -> (b: bool)
    ensures
        b == (t matches Some(x) && x@ == "802-11-wireless"@),
{
    match t {
        Some(x) => same_text(x.as_str(), "802-11-wireless"),
        None => false,
    }
}

pub fn profile_is_listed(p: &SavedProfile) -> (b: bool)
    ensures
        b == is_listed(*p),
{
    p.connection_group == GroupShape::Dict && is_wireless_type(&p.connection_type)
        && p.wireless_group != GroupShape::NotAMap
}

/// Decodes the SSID of a profile.
pub fn decode_profile_ssid(p: &SavedProfile) -> (r: Option<String>)
    ensures
        r matches Some(s) ==> profile_ssid(*p) == Some(s@),
        r is None ==> profile_ssid(*p) is None,
{
    if p.wireless_group == GroupShape::Dict {
        match &p.ssid {
            Some(b) => decode_strict(b.clone()),
            None => None,
        }
    } else {
        None
    }
}

/// The record of one listed profile.
pub fn saved_record(p: &SavedProfile) -> (r: NetworkInfo)
    ensures
        r@ == saved_view(*p),
{
    let mut r = NetworkInfo::disconnected();
    r.connection_type = String::from_str("wifi");
    match &p.id {
        Some(i) => r.name = copy_text(i),
        None => {},
    }
    match decode_profile_ssid(p) {
        Some(s) => r.ssid = s,
        None => {},
    }
    if p.security_group == GroupShape::Dict {
        match &p.key_mgmt {
            Some(h) => r.security_type = security_for_hint(h.as_str()),
            None => {},
        }
    }
    r
}

/// The saved wireless networks among the stored profiles, in their order.
pub fn saved_networks(profiles: &Vec<SavedProfile>) -> (out: Vec<NetworkInfo>)
    ensures
        views(out@) == saved_list(profiles@),
{
    let mut out: Vec<NetworkInfo> = Vec::new();
    let mut i: usize = 0;
    while i < profiles.len()
        invariant
            i <= profiles@.len(),
            views(out@) == saved_list(profiles@.take(i as int)),
        decreases profiles@.len() - i,
    {
        assert(profiles@.take(i as int + 1).drop_last() =~= profiles@.take(i as int));
        if profile_is_listed(&profiles[i]) {
            let r = saved_record(&profiles[i]);
            assert(views(out@.push(r)) =~= views(out@).push(r@));
            out.push(r);
        }
        i += 1;
    }
    assert(profiles@.take(profiles@.len() as int) =~= profiles@);
    out
}

/// Whether a stored profile is the wireless profile of `ssid`.
pub fn profile_has_ssid(p: &SavedProfile, ssid: &str) -> (b: bool)
    ensures
        b == profile_matches(*p, ssid@),
{
    if p.connection_group == GroupShape::Dict && is_wireless_type(&p.connection_type) {
        match decode_profile_ssid(p) {
            Some(s) => same_text(s.as_str(), ssid),
            None => false,
        }
    } else {
        false
    }
}

/// The profile a delete by SSID removes: the first that matches, if any.
pub fn profile_to_delete(profiles: &Vec<SavedProfile>, ssid: &str) -> (r: Option<usize>)
    ensures
        r is None <==> forall|k: int| 0 <= k < profiles@.len() ==> !profile_matches(#[trigger] profiles@[k], ssid@),
        r matches Some(i) ==> {
            &&& i < profiles@.len()
            &&& profile_matches(profiles@[i as int], ssid@)
            &&& forall|k: int| 0 <= k < i ==> !profile_matches(#[trigger] profiles@[k], ssid@)
        },
{
    let mut i: usize = 0;
    while i < profiles.len()
        invariant
            i <= profiles@.len(),
            forall|k: int| 0 <= k < i ==> !profile_matches(#[trigger] profiles@[k], ssid@),
        decreases profiles@.len() - i,
    {
        if profile_has_ssid(&profiles[i], ssid) {
            return Some(i);
        }
        i += 1;
    }
    None
}

} // verus!
