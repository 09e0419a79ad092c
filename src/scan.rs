use vstd::prelude::*;
use vstd::string::StringExecFns;

use crate::bus::{
    reply_access_point, reply_number, reply_paths, reply_text, take_access_point, take_number,
    take_paths, take_text, Query, Reply,
};
use crate::models::{views, zero_ip_string, zero_ip_text, zero_mac_string, zero_mac_text, NetworkInfo};
use crate::network_utils::{get_wifi_icon, wifi_icon_text};
use crate::security::NetworkManagerHelpers;
use crate::ranking::{dedup_ssid, rank_networks, ranked};
use crate::resolver::{
    access_point_security, ap_security, ap_strength, copy_text, ssid_text,
    AccessPointProps, DEVICE_TYPE_WIFI,
};

verus! {

/// Access-point properties where none could be read.
pub open spec fn empty_props() -> AccessPointProps {
    AccessPointProps {
        ssid: None,
        strength: None,
        flags: None,
        wpa_flags: None,
        rsn_flags: None,
        key_mgmt: None,
    }
}

/// The access-point properties a reply carries, or none.
pub open spec fn props_of(reply: Reply) -> AccessPointProps {
    match reply_access_point(reply) {
        Some(ap) => ap,
        None => empty_props(),
    }
}

/// `r` is the record of a visible access point with properties `ap`, seen by
/// a device with hardware address `mac`, while `current` is the active link.
pub open spec fn is_visible_record(
    r: NetworkInfo,
    ap: AccessPointProps,
    mac: Option<String>,
    current: NetworkInfo,
) -> bool {
    &&& r.ssid@ == ssid_text(ap.ssid)
    &&& r.name@ == r.ssid@
    &&& r.connection_type@ == "wifi"@
    &&& r.signal_strength == ap_strength(ap)
    &&& r.icon@ == wifi_icon_text(ap_strength(ap))
    &&& r.security_type == ap_security(ap)
    &&& r.mac_address@ == (match mac {
        Some(m) => m@,
        None => zero_mac_text(),
    })
    &&& r.is_connected == (current.ssid@ == r.ssid@)
    &&& r.ip_address@ == (if r.is_connected {
        current.ip_address@
    } else {
        zero_ip_text()
    })
}

/// Builds the record of one visible access point.
pub fn visible_record(ap: &AccessPointProps, mac: &Option<String>, current: &NetworkInfo) -> (r:
    NetworkInfo)
    ensures
        is_visible_record(r, *ap, *mac, *current),
{
    let ssid = NetworkManagerHelpers::parse_ssid(&ap.ssid);
    let strength = match ap.strength {
        Some(s) => s,
        None => 0,
    };
    let is_connected = current.ssid == ssid;
    NetworkInfo {
        name: copy_text(&ssid),
        ssid,
        connection_type: String::from_str("wifi"),
        icon: get_wifi_icon(strength),
        ip_address: if is_connected {
            copy_text(&current.ip_address)
        } else {
            zero_ip_string()
        },
        mac_address: match mac {
            Some(m) => copy_text(m),
            None => zero_mac_string(),
        },
        signal_strength: strength,
        security_type: access_point_security(ap),
        is_connected,
    }
}

/// Where a scan stands: which read it waits for.
#[derive(Clone, Copy, Debug, PartialEq, Eq, Structural)]
pub enum ScanPhase {
    AwaitDevices,
    AwaitDeviceType,
    AwaitHwAddress,
    AwaitAccessPoints,
    AwaitApProps,
    Finished,
}

/// The enumeration of visible networks: every device is asked for its type,
/// each wireless one for its address and access points, each access point
/// for its properties. The records found are then deduplicated by SSID and
/// ranked by strength.
#[derive(Clone, Debug)]
pub struct ScanWalk {
    pub phase: ScanPhase,
    pub current: NetworkInfo,
    pub devices: Vec<String>,
    pub device_index: usize,
    pub mac: Option<String>,
    pub access_points: Vec<String>,
    pub ap_index: usize,
    pub found: Vec<NetworkInfo>,
}

impl ScanWalk {
    /// The indices the phase reads by are in range.
    pub open spec fn wf(&self) -> bool {
        match self.phase {
            ScanPhase::AwaitDeviceType | ScanPhase::AwaitHwAddress | ScanPhase::AwaitAccessPoints => {
                self.device_index < self.devices@.len()
            },
            ScanPhase::AwaitApProps => {
                &&& self.device_index < self.devices@.len()
                &&& self.ap_index < self.access_points@.len()
            },
            _ => true,
        }
    }
}

/// The read that a scan in a given phase waits for.
pub open spec fn scan_query(w: ScanWalk) -> Query {
    match w.phase {
        ScanPhase::AwaitDeviceType => Query::DeviceType(w.devices@[w.device_index as int]),
        ScanPhase::AwaitHwAddress => Query::HwAddress(w.devices@[w.device_index as int]),
        ScanPhase::AwaitAccessPoints => Query::AccessPoints(w.devices@[w.device_index as int]),
        ScanPhase::AwaitApProps => Query::AccessPointProperties(w.access_points@[w.ap_index as int]),
        _ => Query::Devices,
    }
}

/// The phase once the scan moves on to device `i`.
pub open spec fn device_phase(w: ScanWalk, i: int) -> ScanPhase {
    if i < w.devices@.len() {
        ScanPhase::AwaitDeviceType
    } else {
        ScanPhase::Finished
    }
}

/// One step of the scan: from `w0`, the reply `reply` leads to `w1`; once the
/// scan ends, `out` is the ranked, deduplicated list of the records found.
pub open spec fn scan_step(w0: ScanWalk, reply: Reply, w1: ScanWalk, out: Option<Vec<NetworkInfo>>) -> bool {
    &&& (out is Some <==> w1.phase == ScanPhase::Finished)
    &&& (out matches Some(v) ==> views(v@) == ranked(dedup_ssid(views(w1.found@))))
    &&& w1.current == w0.current
    &&& match w0.phase {
        ScanPhase::AwaitDevices => {
            &&& w1.devices@ == reply_paths(reply)
            &&& w1.device_index == 0
            &&& w1.found == w0.found
            &&& w1.phase == device_phase(w1, 0)
        },
        ScanPhase::AwaitDeviceType => {
            &&& w1.devices == w0.devices
            &&& w1.found == w0.found
            &&& if reply_number(reply) == Some(2u32) {
                w1.phase == ScanPhase::AwaitHwAddress && w1.device_index == w0.device_index
            } else {
                w1.device_index == w0.device_index + 1 && w1.phase == device_phase(w0, w0.device_index + 1)
            }
        },
        ScanPhase::AwaitHwAddress => {
            &&& w1.devices == w0.devices
            &&& w1.found == w0.found
            &&& w1.device_index == w0.device_index
            &&& w1.mac == reply_text(reply)
            &&& w1.phase == ScanPhase::AwaitAccessPoints
        },
        ScanPhase::AwaitAccessPoints => {
            &&& w1.devices == w0.devices
            &&& w1.found == w0.found
            &&& w1.mac == w0.mac
            &&& if reply_paths(reply).len() > 0 {
                &&& w1.access_points@ == reply_paths(reply)
                &&& w1.ap_index == 0
                &&& w1.device_index == w0.device_index
                &&& w1.phase == ScanPhase::AwaitApProps
            } else {
                w1.device_index == w0.device_index + 1 && w1.phase == device_phase(w0, w0.device_index + 1)
            }
        },
        ScanPhase::AwaitApProps => {
            &&& w1.devices == w0.devices
            &&& w1.mac == w0.mac
            &&& w1.found@.len() == w0.found@.len() + 1
            &&& w1.found@ == w0.found@.push(w1.found@.last())
            &&& is_visible_record(w1.found@.last(), props_of(reply), w0.mac, w0.current)
            &&& if w0.ap_index + 1 < w0.access_points@.len() {
                &&& w1.access_points == w0.access_points
                &&& w1.ap_index == w0.ap_index + 1
                &&& w1.device_index == w0.device_index
                &&& w1.phase == ScanPhase::AwaitApProps
            } else {
                w1.device_index == w0.device_index + 1 && w1.phase == device_phase(w0, w0.device_index + 1)
            }
        },
        ScanPhase::Finished => false,
    }
}

impl ScanWalk {
    /// A scan that first asks for the devices; `current` is the resolved
    /// active link, which decides which SSID counts as connected.
    pub fn new(current: NetworkInfo) -> (w: ScanWalk)
        ensures
            w.phase == ScanPhase::AwaitDevices,
            w.current == current,
            w.found@.len() == 0,
            w.wf(),
    {
        ScanWalk {
            phase: ScanPhase::AwaitDevices,
            current,
            devices: Vec::new(),
            device_index: 0,
            mac: None,
            access_points: Vec::new(),
            ap_index: 0,
            found: Vec::new(),
        }
    }

    pub fn is_finished(&self) -> (b: bool)
        ensures
            b == (self.phase == ScanPhase::Finished),
    {
        self.phase == ScanPhase::Finished
    }

    /// The read the scan waits for.
    pub fn pending(&self) -> (q: Query)
        requires
            self.wf(),
        ensures
            q == scan_query(*self),
    {
        match self.phase {
            ScanPhase::AwaitDeviceType => Query::DeviceType(self.devices[self.device_index].clone()),
            ScanPhase::AwaitHwAddress => Query::HwAddress(self.devices[self.device_index].clone()),
            ScanPhase::AwaitAccessPoints => Query::AccessPoints(self.devices[self.device_index].clone()),
            ScanPhase::AwaitApProps => Query::AccessPointProperties(self.access_points[self.ap_index].clone()),
            _ => Query::Devices,
        }
    }

    /// Moves on to the device after the current one, or ends the scan.
    fn next_device(&mut self) -> (out: Option<Vec<NetworkInfo>>)
        requires
            old(self).device_index < old(self).devices@.len(),
        ensures
            final(self).device_index == old(self).device_index + 1,
            final(self).phase == device_phase(*old(self), old(self).device_index + 1),
            final(self).devices == old(self).devices,
            final(self).found == old(self).found,
            final(self).current == old(self).current,
            final(self).mac == old(self).mac,
            final(self).wf(),
            out is Some <==> final(self).phase == ScanPhase::Finished,
            out matches Some(v) ==> views(v@) == ranked(dedup_ssid(views(final(self).found@))),
    {
        let count = self.devices.len();
        if self.device_index < count - 1 {
            self.device_index = self.device_index + 1;
            self.phase = ScanPhase::AwaitDeviceType;
            None
        } else {
            self.device_index = count;
            self.phase = ScanPhase::Finished;
            Some(rank_networks(&self.found))
        }
    }

    /// Takes the reply to the pending read; returns the list once the scan ends.
    pub fn advance(&mut self, reply: Reply) -> (out: Option<Vec<NetworkInfo>>)
        requires
            old(self).wf(),
            old(self).phase != ScanPhase::Finished,
        ensures
            final(self).wf(),
            scan_step(*old(self), reply, *final(self), out),
    {
        match self.phase {
            ScanPhase::AwaitDevices => {
                self.devices = take_paths(reply);
                self.device_index = 0;
                if self.devices.len() > 0 {
                    self.phase = ScanPhase::AwaitDeviceType;
                    None
                } else {
                    self.phase = ScanPhase::Finished;
                    Some(rank_networks(&self.found))
                }
            },
            ScanPhase::AwaitDeviceType => {
                if take_number(&reply) == Some(DEVICE_TYPE_WIFI) {
                    self.phase = ScanPhase::AwaitHwAddress;
                    None
                } else {
                    self.next_device()
                }
            },
            ScanPhase::AwaitHwAddress => {
                self.mac = take_text(reply);
                self.phase = ScanPhase::AwaitAccessPoints;
                None
            },
            ScanPhase::AwaitAccessPoints => {
                let aps = take_paths(reply);
                if aps.len() > 0 {
                    self.access_points = aps;
                    self.ap_index = 0;
                    self.phase = ScanPhase::AwaitApProps;
                    None
                } else {
                    self.next_device()
                }
            },
            ScanPhase::AwaitApProps => {
                let ap = match take_access_point(reply) {
                    Some(ap) => ap,
                    None => AccessPointProps {
                        ssid: None,
                        strength: None,
                        flags: None,
                        wpa_flags: None,
                        rsn_flags: None,
                        key_mgmt: None,
                    },
                };
                let record = visible_record(&ap, &self.mac, &self.current);
                self.found.push(record);
                if self.ap_index < self.access_points.len() - 1 {
                    self.ap_index = self.ap_index + 1;
                    None
                } else {
                    self.next_device()
                }
            },
            ScanPhase::Finished => None,
        }
    }
}

} // verus!
