use vstd::prelude::*;
use vstd::string::StringExecFns;

verus! {

/// Security scheme of a wireless network.
#[derive(Clone, Copy, Debug, PartialEq, Eq, Structural)]
pub enum WiFiSecurityType {
    Open,
    Wep,
    WpaPsk,
    WpaEap,
    Wpa2Psk,
    Wpa3Psk,
}

/// Placeholder for a name, SSID or kind that could not be read.
pub open spec fn unknown_text() -> Seq<char> {
    seq!['U', 'n', 'k', 'n', 'o', 'w', 'n']
}

/// Placeholder for a missing IPv4 address.
pub open spec fn zero_ip_text() -> Seq<char> {
    seq!['0', '.', '0', '.', '0', '.', '0']
}

/// Placeholder for a missing hardware address.
pub open spec fn zero_mac_text() -> Seq<char> {
    "00:00:00:00:00:00"@
}

/// Icon shown when there is no usable link.
pub open spec fn offline_icon_text() -> Seq<char> {
    "network-offline-symbolic"@
}

/// One network as the library reports it: the active link, a visible
/// access point, or a saved profile.
#[derive(Clone, Debug)]
pub struct NetworkInfo {
    pub name: String,
    pub ssid: String,
    pub connection_type: String,
    pub icon: String,
    pub ip_address: String,
    pub mac_address: String,
    pub signal_strength: u8,
    pub security_type: WiFiSecurityType,
    pub is_connected: bool,
}

/// A record as plain values.
pub struct NetworkView {
    pub name: Seq<char>,
    pub ssid: Seq<char>,
    pub connection_type: Seq<char>,
    pub icon: Seq<char>,
    pub ip_address: Seq<char>,
    pub mac_address: Seq<char>,
    pub signal_strength: u8,
    pub security_type: WiFiSecurityType,
    pub is_connected: bool,
}

impl View for NetworkInfo {
    type V = NetworkView;

    open spec fn view(&self) -> NetworkView {
        NetworkView {
            name: self.name@,
            ssid: self.ssid@,
            connection_type: self.connection_type@,
            icon: self.icon@,
            ip_address: self.ip_address@,
            mac_address: self.mac_address@,
            signal_strength: self.signal_strength,
            security_type: self.security_type,
            is_connected: self.is_connected,
        }
    }
}

/// The views of a sequence of records.
pub open spec fn views(rs: Seq<NetworkInfo>) -> Seq<NetworkView> {
    rs.map_values(|r: NetworkInfo| r@)
}

/// The disconnected record: every text field holds its placeholder.
pub open spec fn is_disconnected_default(r: NetworkInfo) -> bool {
    &&& r.name@ == unknown_text()
    &&& r.ssid@ == unknown_text()
    &&& r.connection_type@ == unknown_text()
    &&& r.icon@ == offline_icon_text()
    &&& r.ip_address@ == zero_ip_text()
    &&& r.mac_address@ == zero_mac_text()
    &&& r.signal_strength == 0
    &&& r.security_type == WiFiSecurityType::Open
    &&& !r.is_connected
}

pub fn unknown_string() -> (r: String)
    ensures
        r@ == unknown_text(),
{
    proof { reveal_strlit("Unknown"); }
    String::from_str("Unknown")
}

pub fn zero_ip_string() -> (r: String)
    ensures
        r@ == zero_ip_text(),
{
    proof { reveal_strlit("0.0.0.0"); }
    String::from_str("0.0.0.0")
}

pub fn zero_mac_string() -> (r: String)
    ensures
        r@ == zero_mac_text(),
{
    String::from_str("00:00:00:00:00:00")
}

impl NetworkInfo {
    /// The record that stands for "no active connection".
    pub fn disconnected() -> (r: NetworkInfo)
        ensures
            is_disconnected_default(r),
    {
        NetworkInfo {
            name: unknown_string(),
            ssid: unknown_string(),
            connection_type: unknown_string(),
            icon: String::from_str("network-offline-symbolic"),
            ip_address: zero_ip_string(),
            mac_address: zero_mac_string(),
            signal_strength: 0,
            security_type: WiFiSecurityType::Open,
            is_connected: false,
        }
    }
}

impl NetworkInfo {
    /// A copy with the same contents.
    pub fn copy(&self) -> (r: NetworkInfo)
        ensures
            r@ == self@,
    {
        NetworkInfo {
            name: self.name.clone(),
            ssid: self.ssid.clone(),
            connection_type: self.connection_type.clone(),
            icon: self.icon.clone(),
            ip_address: self.ip_address.clone(),
            mac_address: self.mac_address.clone(),
            signal_strength: self.signal_strength,
            security_type: self.security_type,
            is_connected: self.is_connected,
        }
    }
}

impl Default for NetworkInfo {
    fn default() -> (r: NetworkInfo)
        ensures
            is_disconnected_default(r),
    {
        NetworkInfo::disconnected()
    }
}

/// A visible network reduced to what a signal list shows.
#[derive(Clone, Debug)]
pub struct WiFiNetwork {
    pub ssid: String,
    pub signal_strength: u8,
    pub icon: String,
}

impl Default for WiFiNetwork {
    fn default() -> (r: WiFiNetwork)
        ensures
            r.ssid@.len() == 0,
            r.signal_strength == 0,
            r.icon@.len() == 0,
    {
        WiFiNetwork { ssid: String::new(), signal_strength: 0, icon: String::new() }
    }
}

/// What a caller asks for when joining a network.
#[derive(Clone, Debug)]
pub struct WiFiConnectionConfig {
    pub ssid: String,
    pub password: Option<String>,
    pub security_type: WiFiSecurityType,
    pub username: Option<String>,
}

} // verus!
