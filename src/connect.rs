use vstd::prelude::*;
use vstd::string::StringExecFns;

use crate::models::{WiFiConnectionConfig, WiFiSecurityType};
use crate::resolver::{copy_text, DEVICE_TYPE_WIFI};

verus! {

/// One value of a settings payload: `group.key = value`.
#[derive(Clone, Debug)]
pub struct Setting {
    pub group: String,
    pub key: String,
    pub value: String,
}

/// A two-level settings payload: the groups it holds (each present even when
/// empty) and its values in the order they were set.
#[derive(Clone, Debug)]
pub struct SettingsPayload {
    pub groups: Vec<String>,
    pub values: Vec<Setting>,
}

/// An add-and-activate request: the payload and the two object references
/// the service is handed, which are "/" so that it picks device and access
/// point itself.
#[derive(Clone, Debug)]
pub struct ActivationRequest {
    pub settings: SettingsPayload,
    pub device_path: String,
    pub specific_object: String,
}

pub type SettingView = (Seq<char>, Seq<char>, Seq<char>);

pub open spec fn setting_views(vs: Seq<Setting>) -> Seq<SettingView> {
    vs.map_values(|s: Setting| (s.group@, s.key@, s.value@))
}

pub open spec fn group_views(gs: Seq<String>) -> Seq<Seq<char>> {
    gs.map_values(|g: String| g@)
}

pub open spec fn security_group() -> Seq<char> {
    "802-11-wireless-security"@
}

/// A value of the security group, if `v` is present.
pub open spec fn optional_entry(key: Seq<char>, v: Option<String>) -> Seq<SettingView> {
    match v {
        Some(x) => seq![(security_group(), key, x@)],
        None => Seq::empty(),
    }
}

/// The security group for a requested security type.
pub open spec fn security_settings(c: WiFiConnectionConfig) -> Seq<SettingView> {
    match c.security_type {
        WiFiSecurityType::Open => Seq::empty(),
        WiFiSecurityType::Wep => seq![(security_group(), "key-mgmt"@, "none"@)] + optional_entry(
            "wep-key0"@,
            c.password,
        ),
        WiFiSecurityType::WpaPsk => seq![(security_group(), "key-mgmt"@, "wpa-psk"@)]
            + optional_entry("psk"@, c.password),
        WiFiSecurityType::WpaEap => seq![(security_group(), "key-mgmt"@, "wpa-eap"@)]
            + optional_entry("password"@, c.password) + optional_entry("identity"@, c.username),
        WiFiSecurityType::Wpa2Psk => seq![
            (security_group(), "key-mgmt"@, "wpa-psk"@),
            (security_group(), "proto"@, "rsn"@),
        ] + optional_entry("psk"@, c.password),
        WiFiSecurityType::Wpa3Psk => seq![(security_group(), "key-mgmt"@, "sae"@)]
            + optional_entry("psk"@, c.password),
    }
}

/// The whole payload for joining the network that `c` names.
pub open spec fn connection_settings_spec(c: WiFiConnectionConfig) -> Seq<SettingView> {
    seq![
        ("connection"@, "id"@, c.ssid@),
        ("connection"@, "type"@, "802-11-wireless"@),
        ("802-11-wireless"@, "ssid"@, c.ssid@),
        ("802-11-wireless"@, "mode"@, "infrastructure"@),
    ] + security_settings(c)
}

pub open spec fn payload_groups() -> Seq<Seq<char>> {
    seq!["connection"@, "802-11-wireless"@, security_group()]
}

fn text(s: &str) -> (r: String)
    ensures
        r@ == s@,
{
    String::from_str(s)
}

fn push_setting(values: &mut Vec<Setting>, group: &str, key: &str, value: String)
    ensures
        setting_views(final(values)@) == setting_views(old(values)@).push((group@, key@, value@)),
{
    let s = Setting { group: text(group), key: text(key), value };
    values.push(s);
    assert(setting_views(final(values)@) =~= setting_views(old(values)@).push((group@, key@, value@)));
}

fn push_optional(values: &mut Vec<Setting>, key: &str, v: &Option<String>)
    ensures
        setting_views(final(values)@) == setting_views(old(values)@) + optional_entry(key@, *v),
{
    match v {
        Some(x) => {
            push_setting(values, "802-11-wireless-security", key, copy_text(x));
            assert(setting_views(final(values)@) =~= setting_views(old(values)@) + optional_entry(key@, *v));
        },
        None => {
            assert(setting_views(old(values)@) + optional_entry(key@, *v) =~= setting_views(old(values)@));
        },
    }
}

/// Builds the settings payload for joining the network `config` names.
pub fn connection_settings(config: &WiFiConnectionConfig) -> (p: SettingsPayload)
    ensures
        group_views(p.groups@) == payload_groups(),
        setting_views(p.values@) == connection_settings_spec(*config),
{
    let mut groups: Vec<String> = Vec::new();
    groups.push(text("connection"));
    groups.push(text("802-11-wireless"));
    groups.push(text("802-11-wireless-security"));
    assert(group_views(groups@) =~= payload_groups());
    let mut values: Vec<Setting> = Vec::new();
    push_setting(&mut values, "connection", "id", copy_text(&config.ssid));
    push_setting(&mut values, "connection", "type", text("802-11-wireless"));
    push_setting(&mut values, "802-11-wireless", "ssid", copy_text(&config.ssid));
    push_setting(&mut values, "802-11-wireless", "mode", text("infrastructure"));
    let ghost base = setting_views(values@);
    assert(base =~= seq![
        ("connection"@, "id"@, config.ssid@),
        ("connection"@, "type"@, "802-11-wireless"@),
        ("802-11-wireless"@, "ssid"@, config.ssid@),
        ("802-11-wireless"@, "mode"@, "infrastructure"@),
    ]);
    let sec = "802-11-wireless-security";
    match config.security_type {
        WiFiSecurityType::Open => {
            assert(base + security_settings(*config) =~= base);
        },
        WiFiSecurityType::Wep => {
            push_setting(&mut values, sec, "key-mgmt", text("none"));
            push_optional(&mut values, "wep-key0", &config.password);
        },
        WiFiSecurityType::WpaPsk => {
            push_setting(&mut values, sec, "key-mgmt", text("wpa-psk"));
            push_optional(&mut values, "psk", &config.password);
        },
        WiFiSecurityType::WpaEap => {
            push_setting(&mut values, sec, "key-mgmt", text("wpa-eap"));
            push_optional(&mut values, "password", &config.password);
            push_optional(&mut values, "identity", &config.username);
        },
        WiFiSecurityType::Wpa2Psk => {
            push_setting(&mut values, sec, "key-mgmt", text("wpa-psk"));
            push_setting(&mut values, sec, "proto", text("rsn"));
            push_optional(&mut values, "psk", &config.password);
        },
        WiFiSecurityType::Wpa3Psk => {
            push_setting(&mut values, sec, "key-mgmt", text("sae"));
            push_optional(&mut values, "psk", &config.password);
        },
    }
    assert(setting_views(values@) =~= connection_settings_spec(*config));
    SettingsPayload { groups, values }
}

/// The add-and-activate request for `config`.
pub fn activation_request(config: &WiFiConnectionConfig) -> (r: ActivationRequest)
    ensures
        group_views(r.settings.groups@) == payload_groups(),
        setting_views(r.settings.values@) == connection_settings_spec(*config),
        r.device_path@ == "/"@,
        r.specific_object@ == "/"@,
{
    ActivationRequest {
        settings: connection_settings(config),
        device_path: text("/"),
        specific_object: text("/"),
    }
}

/// The active connection a disconnect deactivates: the first one, if any.
pub fn connection_to_deactivate(active: &Vec<String>) -> (r: Option<String>)
    ensures
        active@.len() == 0 ==> r is None,
        active@.len() > 0 ==> (r matches Some(p) && p@ == active@[0]@),
{
    if active.len() == 0 {
        None
    } else {
        Some(copy_text(&active[0]))
    }
}

/// Whether a device type code names a WiFi device.
pub fn is_wireless_device(device_type: Option<u32>) -> (b: bool)
    ensures
        b == (device_type == Some(2u32)),
{
    device_type == Some(DEVICE_TYPE_WIFI)
}

/// The arguments of the command-line switch that turns networking on or off.
pub fn networking_switch_args(enabled: bool) -> (r: Vec<String>)
    ensures
        r@.len() == 2,
        r@[0]@ == "networking"@,
        r@[1]@ == (if enabled { "on"@ } else { "off"@ }),
{
    let mut r: Vec<String> = Vec::new();
    r.push(text("networking"));
    r.push(if enabled { text("on") } else { text("off") });
    r
}

} // verus!
