use vstd::prelude::*;
use vstd::string::StringExecFns;

use crate::bus::{
    reply_access_point, reply_first_address, reply_flag, reply_number, reply_path, reply_paths,
    reply_text, take_access_point, take_first_address, take_flag, take_number, take_path, take_paths,
    take_text, Query, Reply,
};
use crate::models::{
    is_disconnected_default,
    offline_icon_text, unknown_string, unknown_text, zero_ip_string, zero_ip_text, zero_mac_string,
    zero_mac_text, NetworkInfo, WiFiSecurityType,
};
use crate::network_utils::{get_wifi_icon, get_wired_icon, wifi_icon_text, wired_icon_text};
use crate::security::{classify_security, hint_view, NetworkManagerHelpers};
use crate::text::{decode_lossy, format_ipv4, ipv4_text, lossy_utf8};

verus! {

/// Device type code of an Ethernet device.
pub const DEVICE_TYPE_ETHERNET: u32 = 1;

/// Device type code of a WiFi device.
pub const DEVICE_TYPE_WIFI: u32 = 2;

/// Active-connection state code meaning "activated".
pub const CONNECTION_STATE_ACTIVATED: u32 = 2;

/// Properties of one access point as read from the bus; `None` marks a
/// property that was missing or had another shape.
#[derive(Clone, Debug)]
pub struct AccessPointProps {
    pub ssid: Option<Vec<u8>>,
    pub strength: Option<u8>,
    pub flags: Option<u32>,
    pub wpa_flags: Option<u32>,
    pub rsn_flags: Option<u32>,
    pub key_mgmt: Option<String>,
}

/// What was learnt about the device of the first active connection.
#[derive(Clone, Debug)]
pub struct LinkFacts {
    pub device_type: Option<u32>,
    pub state: Option<u32>,
    pub reachable: bool,
    pub hw_address: Option<String>,
    pub access_point: Option<AccessPointProps>,
    pub ip4_address: Option<u32>,
}

/// The kind label of a device type code.
pub open spec fn kind_text(device_type: Option<u32>) -> Seq<char> {
    match device_type {
        Some(1) => "Ethernet"@,
        Some(2) => "WiFi"@,
        _ => unknown_text(),
    }
}

pub open spec fn opt_u32(v: Option<u32>) -> u32 {
    match v {
        Some(x) => x,
        None => 0,
    }
}

pub open spec fn opt_text(v: Option<String>) -> Option<Seq<char>> {
    match v {
        Some(s) => Some(s@),
        None => None,
    }
}

/// The SSID text of an access point: its bytes decoded lossily, or the
/// placeholder when they could not be read.
pub open spec fn ssid_text(ssid: Option<Vec<u8>>) -> Seq<char> {
    match ssid {
        Some(b) => lossy_utf8(b@),
        None => unknown_text(),
    }
}

pub open spec fn ap_strength(ap: AccessPointProps) -> u8 {
    match ap.strength {
        Some(s) => s,
        None => 0,
    }
}

pub open spec fn ap_security(ap: AccessPointProps) -> WiFiSecurityType {
    classify_security(opt_u32(ap.flags), opt_u32(ap.wpa_flags), opt_u32(ap.rsn_flags), opt_text(ap.key_mgmt))
}

/// Connected means: the connection is activated and the reachability probe succeeded.
pub open spec fn link_connected(f: LinkFacts) -> bool {
    f.state == Some(2u32) && f.reachable
}

/// `r` is the record that the facts of the active link describe.
pub open spec fn is_current_record(r: NetworkInfo, f: LinkFacts) -> bool {
    &&& r.connection_type@ == kind_text(f.device_type)
    &&& r.is_connected == link_connected(f)
    &&& r.mac_address@ == (match f.hw_address {
        Some(h) => h@,
        None => zero_mac_text(),
    })
    &&& r.ip_address@ == (match f.ip4_address {
        Some(a) => ipv4_text(a),
        None => zero_ip_text(),
    })
    &&& if f.device_type == Some(2u32) {
        match f.access_point {
            Some(ap) => {
                &&& r.ssid@ == ssid_text(ap.ssid)
                &&& r.name@ == r.ssid@
                &&& r.signal_strength == ap_strength(ap)
                &&& r.icon@ == wifi_icon_text(ap_strength(ap))
                &&& r.security_type == ap_security(ap)
            },
            None => {
                &&& r.ssid@ == unknown_text()
                &&& r.name@ == unknown_text()
                &&& r.signal_strength == 0
                &&& r.icon@ == offline_icon_text()
                &&& r.security_type == WiFiSecurityType::Open
            },
        }
    } else {
        &&& r.ssid@ == unknown_text()
        &&& r.name@ == unknown_text()
        &&& r.signal_strength == 0
        &&& r.icon@ == wired_icon_text(link_connected(f))
        &&& r.security_type == WiFiSecurityType::Open
    }
}

pub fn copy_text(s: &String) -> (r: String)
    ensures
        r@ == s@,
{
    s.clone()
}

/// Service connectivity code meaning full internet access.
pub const CONNECTIVITY_FULL: u32 = 4;

impl NetworkManagerHelpers {
    /// Decodes an SSID property, or gives the placeholder when it is missing.
    pub fn parse_ssid(ssid: &Option<Vec<u8>>) -> (r: String)
        ensures
            r@ == ssid_text(*ssid),
    {
        match ssid {
            Some(b) => decode_lossy(b),
            None => unknown_string(),
        }
    }

    /// Whether the service's connectivity property reports full access.
    pub fn has_internet_connectivity(connectivity: Option<u32>) -> (b: bool)
        ensures
            b == (connectivity == Some(4u32)),
    {
        connectivity == Some(CONNECTIVITY_FULL)
    }
}


/// Security of an access point from its properties.
pub fn access_point_security(ap: &AccessPointProps) -> (r: WiFiSecurityType)
    ensures
        r == ap_security(*ap),
{
    let flags = match ap.flags { Some(x) => x, None => 0 };
    let wpa = match ap.wpa_flags { Some(x) => x, None => 0 };
    let rsn = match ap.rsn_flags { Some(x) => x, None => 0 };
    match &ap.key_mgmt {
        Some(h) => NetworkManagerHelpers::detect_security_type(flags, wpa, rsn, Some(h.as_str())),
        None => NetworkManagerHelpers::detect_security_type(flags, wpa, rsn, None),
    }
}

/// Assembles the current-network record from the facts of the active link.
pub fn current_record(f: &LinkFacts) -> (r: NetworkInfo)
    ensures
        is_current_record(r, *f),
{
    let is_connected = match f.state {
        Some(s) => s == CONNECTION_STATE_ACTIVATED && f.reachable,
        None => false,
    };
    let connection_type = match f.device_type {
        Some(1) => String::from_str("Ethernet"),
        Some(2) => String::from_str("WiFi"),
        _ => unknown_string(),
    };
    let mac_address = match &f.hw_address {
        Some(h) => copy_text(h),
        None => zero_mac_string(),
    };
    let ip_address = match f.ip4_address {
        Some(a) => format_ipv4(a),
        None => zero_ip_string(),
    };
    let mut r = NetworkInfo {
        name: unknown_string(),
        ssid: unknown_string(),
        connection_type,
        icon: String::from_str("network-offline-symbolic"),
        ip_address,
        mac_address,
        signal_strength: 0,
        security_type: WiFiSecurityType::Open,
        is_connected,
    };
    if f.device_type == Some(DEVICE_TYPE_WIFI) {
        match &f.access_point {
            Some(ap) => {
                let ssid = NetworkManagerHelpers::parse_ssid(&ap.ssid);
                let strength = match ap.strength { Some(s) => s, None => 0 };
                r.name = copy_text(&ssid);
                r.ssid = ssid;
                r.signal_strength = strength;
                r.icon = get_wifi_icon(strength);
                r.security_type = access_point_security(ap);
            },
            None => {},
        }
    } else {
        r.icon = get_wired_icon(is_connected);
    }
    r
}

/// Where a walk over the active link stands: which read it waits for.
#[derive(Clone, Copy, Debug, PartialEq, Eq, Structural)]
pub enum WalkPhase {
    AwaitActive,
    AwaitDevices,
    AwaitDeviceType,
    AwaitState,
    AwaitProbe,
    AwaitHwAddress,
    AwaitActiveAp,
    AwaitApProps,
    AwaitIpConfig,
    AwaitAddresses,
    Finished,
}

/// The resolution of the current network state: a walk from the first
/// active connection to its first device, the device's access point and its
/// IPv4 configuration. Each step names one read; the caller performs it and
/// hands back the reply. Nothing is kept beyond one walk.
#[derive(Clone, Debug)]
pub struct CurrentStateWalk {
    pub phase: WalkPhase,
    pub connection: String,
    pub device: String,
    pub target: String,
    pub facts: LinkFacts,
}

pub open spec fn no_facts() -> LinkFacts {
    LinkFacts {
        device_type: None,
        state: None,
        reachable: false,
        hw_address: None,
        access_point: None,
        ip4_address: None,
    }
}

/// The read that a walk in a given phase waits for.
pub open spec fn walk_query(w: CurrentStateWalk) -> Query {
    match w.phase {
        WalkPhase::AwaitDevices => Query::ConnectionDevices(w.connection),
        WalkPhase::AwaitDeviceType => Query::DeviceType(w.device),
        WalkPhase::AwaitState => Query::ConnectionState(w.connection),
        WalkPhase::AwaitProbe => Query::Reachability,
        WalkPhase::AwaitHwAddress => Query::HwAddress(w.device),
        WalkPhase::AwaitActiveAp => Query::ActiveAccessPoint(w.device),
        WalkPhase::AwaitApProps => Query::AccessPointProperties(w.target),
        WalkPhase::AwaitIpConfig => Query::Ip4Config(w.device),
        WalkPhase::AwaitAddresses => Query::Ip4Addresses(w.target),
        _ => Query::ActiveConnections,
    }
}

/// One step of the walk: from `w0`, the reply `reply` leads to `w1`, and the
/// walk ends with `out` exactly when it reaches `Finished`.
pub open spec fn walk_step(
    w0: CurrentStateWalk,
    reply: Reply,
    w1: CurrentStateWalk,
    out: Option<NetworkInfo>,
) -> bool {
    &&& (out is Some <==> w1.phase == WalkPhase::Finished)
    &&& match w0.phase {
        WalkPhase::AwaitActive => if reply_paths(reply).len() == 0 {
            out matches Some(r) && is_disconnected_default(r)
        } else {
            w1 == (CurrentStateWalk {
                phase: WalkPhase::AwaitDevices,
                connection: reply_paths(reply)[0],
                ..w0
            })
        },
        WalkPhase::AwaitDevices => if reply_paths(reply).len() == 0 {
            out matches Some(r) && is_disconnected_default(r)
        } else {
            w1 == (CurrentStateWalk {
                phase: WalkPhase::AwaitDeviceType,
                device: reply_paths(reply)[0],
                ..w0
            })
        },
        WalkPhase::AwaitDeviceType => w1 == (CurrentStateWalk {
            phase: WalkPhase::AwaitState,
            facts: LinkFacts { device_type: reply_number(reply), ..w0.facts },
            ..w0
        }),
        WalkPhase::AwaitState => w1 == (CurrentStateWalk {
            phase: if reply_number(reply) == Some(2u32) {
                WalkPhase::AwaitProbe
            } else {
                WalkPhase::AwaitHwAddress
            },
            facts: LinkFacts { state: reply_number(reply), reachable: false, ..w0.facts },
            ..w0
        }),
        WalkPhase::AwaitProbe => w1 == (CurrentStateWalk {
            phase: WalkPhase::AwaitHwAddress,
            facts: LinkFacts { reachable: reply_flag(reply), ..w0.facts },
            ..w0
        }),
        WalkPhase::AwaitHwAddress => w1 == (CurrentStateWalk {
            phase: if w0.facts.device_type == Some(2u32) {
                WalkPhase::AwaitActiveAp
            } else {
                WalkPhase::AwaitIpConfig
            },
            facts: LinkFacts { hw_address: reply_text(reply), ..w0.facts },
            ..w0
        }),
        WalkPhase::AwaitActiveAp => match reply_path(reply) {
            Some(p) => w1 == (CurrentStateWalk { phase: WalkPhase::AwaitApProps, target: p, ..w0 }),
            None => w1 == (CurrentStateWalk { phase: WalkPhase::AwaitIpConfig, ..w0 }),
        },
        WalkPhase::AwaitApProps => w1 == (CurrentStateWalk {
            phase: WalkPhase::AwaitIpConfig,
            facts: LinkFacts { access_point: reply_access_point(reply), ..w0.facts },
            ..w0
        }),
        WalkPhase::AwaitIpConfig => match reply_path(reply) {
            Some(p) => w1 == (CurrentStateWalk { phase: WalkPhase::AwaitAddresses, target: p, ..w0 }),
            None => w1.facts == w0.facts && (out matches Some(r) && is_current_record(r, w0.facts)),
        },
        WalkPhase::AwaitAddresses => {
            &&& w1.facts == (LinkFacts { ip4_address: reply_first_address(reply), ..w0.facts })
            &&& out matches Some(r) && is_current_record(r, w1.facts)
        },
        WalkPhase::Finished => false,
    }
}

/// With no active connection, resolution ends at once with the exact
/// disconnected record.
pub proof fn lemma_no_active_connection_is_disconnected(
    w0: CurrentStateWalk,
    reply: Reply,
    w1: CurrentStateWalk,
    out: Option<NetworkInfo>,
)
    requires
        w0.phase == WalkPhase::AwaitActive,
        reply_paths(reply).len() == 0,
        walk_step(w0, reply, w1, out),
    ensures
        w1.phase == WalkPhase::Finished,
        out matches Some(r) && is_disconnected_default(r),
{
}

impl CurrentStateWalk {
    /// A walk that first asks for the active connections.
    pub fn new() -> (w: CurrentStateWalk)
        ensures
            w.phase == WalkPhase::AwaitActive,
            w.facts == no_facts(),
    {
        CurrentStateWalk {
            phase: WalkPhase::AwaitActive,
            connection: String::new(),
            device: String::new(),
            target: String::new(),
            facts: LinkFacts {
                device_type: None,
                state: None,
                reachable: false,
                hw_address: None,
                access_point: None,
                ip4_address: None,
            },
        }
    }

    pub fn is_finished(&self) -> (b: bool)
        ensures
            b == (self.phase == WalkPhase::Finished),
    {
        self.phase == WalkPhase::Finished
    }

    /// The read the walk waits for.
    pub fn pending(&self) -> (q: Query)
        ensures
            q == walk_query(*self),
    {
        match self.phase {
            WalkPhase::AwaitDevices => Query::ConnectionDevices(self.connection.clone()),
            WalkPhase::AwaitDeviceType => Query::DeviceType(self.device.clone()),
            WalkPhase::AwaitState => Query::ConnectionState(self.connection.clone()),
            WalkPhase::AwaitProbe => Query::Reachability,
            WalkPhase::AwaitHwAddress => Query::HwAddress(self.device.clone()),
            WalkPhase::AwaitActiveAp => Query::ActiveAccessPoint(self.device.clone()),
            WalkPhase::AwaitApProps => Query::AccessPointProperties(self.target.clone()),
            WalkPhase::AwaitIpConfig => Query::Ip4Config(self.device.clone()),
            WalkPhase::AwaitAddresses => Query::Ip4Addresses(self.target.clone()),
            _ => Query::ActiveConnections,
        }
    }

    /// Takes the reply to the pending read; returns the record once the walk ends.
    pub fn advance(&mut self, reply: Reply) -> (out: Option<NetworkInfo>)
        requires
            old(self).phase != WalkPhase::Finished,
        ensures
            walk_step(*old(self), reply, *final(self), out),
    {
        match self.phase {
            WalkPhase::AwaitActive => {
                let paths = take_paths(reply);
                if paths.len() == 0 {
                    self.phase = WalkPhase::Finished;
                    Some(NetworkInfo::disconnected())
                } else {
                    self.connection = paths[0].clone();
                    self.phase = WalkPhase::AwaitDevices;
                    None
                }
            },
            WalkPhase::AwaitDevices => {
                let paths = take_paths(reply);
                if paths.len() == 0 {
                    self.phase = WalkPhase::Finished;
                    Some(NetworkInfo::disconnected())
                } else {
                    self.device = paths[0].clone();
                    self.phase = WalkPhase::AwaitDeviceType;
                    None
                }
            },
            WalkPhase::AwaitDeviceType => {
                self.facts.device_type = take_number(&reply);
                self.phase = WalkPhase::AwaitState;
                None
            },
            WalkPhase::AwaitState => {
                let state = take_number(&reply);
                self.facts.state = state;
                self.facts.reachable = false;
                self.phase = if state == Some(CONNECTION_STATE_ACTIVATED) {
                    WalkPhase::AwaitProbe
                } else {
                    WalkPhase::AwaitHwAddress
                };
                None
            },
            WalkPhase::AwaitProbe => {
                self.facts.reachable = take_flag(&reply);
                self.phase = WalkPhase::AwaitHwAddress;
                None
            },
            WalkPhase::AwaitHwAddress => {
                self.facts.hw_address = take_text(reply);
                self.phase = if self.facts.device_type == Some(DEVICE_TYPE_WIFI) {
                    WalkPhase::AwaitActiveAp
                } else {
                    WalkPhase::AwaitIpConfig
                };
                None
            },
            WalkPhase::AwaitActiveAp => {
                match take_path(reply) {
                    Some(p) => {
                        self.target = p;
                        self.phase = WalkPhase::AwaitApProps;
                    },
                    None => {
                        self.phase = WalkPhase::AwaitIpConfig;
                    },
                }
                None
            },
            WalkPhase::AwaitApProps => {
                self.facts.access_point = take_access_point(reply);
                self.phase = WalkPhase::AwaitIpConfig;
                None
            },
            WalkPhase::AwaitIpConfig => {
                match take_path(reply) {
                    Some(p) => {
                        self.target = p;
                        self.phase = WalkPhase::AwaitAddresses;
                        None
                    },
                    None => {
                        self.phase = WalkPhase::Finished;
                        Some(current_record(&self.facts))
                    },
                }
            },
            WalkPhase::AwaitAddresses => {
                self.facts.ip4_address = take_first_address(&reply);
                self.phase = WalkPhase::Finished;
                Some(current_record(&self.facts))
            },
            WalkPhase::Finished => None,
        }
    }
}

} // verus!
