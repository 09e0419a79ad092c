use network_manager::connect::{connection_to_deactivate, is_wireless_device, networking_switch_args};
use network_manager::saved::profile_has_ssid;
use network_manager::{
    activation_request, connection_settings, profile_to_delete, saved_networks, GroupShape,
    SavedProfile, WiFiConnectionConfig, WiFiSecurityType,
};

fn wifi_profile(id: &str, ssid: &[u8], key_mgmt: Option<&str>) -> SavedProfile {
    SavedProfile {
        connection_group: GroupShape::Dict,
        connection_type: Some("802-11-wireless".to_string()),
        id: Some(id.to_string()),
        wireless_group: GroupShape::Dict,
        ssid: Some(ssid.to_vec()),
        security_group: if key_mgmt.is_some() { GroupShape::Dict } else { GroupShape::Absent },
        key_mgmt: key_mgmt.map(|k| k.to_string()),
    }
}

fn ethernet_profile() -> SavedProfile {
    SavedProfile {
        connection_group: GroupShape::Dict,
        connection_type: Some("802-3-ethernet".to_string()),
        id: Some("Wired".to_string()),
        wireless_group: GroupShape::Absent,
        ssid: None,
        security_group: GroupShape::Absent,
        key_mgmt: None,
    }
}

#[test]
fn delete_of_unknown_ssid_finds_nothing() {
    let profiles = vec![wifi_profile("Home", b"Home", Some("wpa-psk")), ethernet_profile()];
    assert_eq!(profile_to_delete(&profiles, "nonexistent-ssid"), None);
    assert_eq!(profile_to_delete(&vec![], "nonexistent-ssid"), None);
}

#[test]
fn delete_picks_first_matching_wireless_profile() {
    let profiles = vec![
        ethernet_profile(),
        wifi_profile("Office", b"Office", None),
        wifi_profile("Home", b"Home", None),
        wifi_profile("Home again", b"Home", None),
    ];
    assert_eq!(profile_to_delete(&profiles, "Home"), Some(2));
    assert!(!profile_has_ssid(&profiles[0], "Home"));
}

#[test]
fn invalid_utf8_ssid_never_matches() {
    let p = wifi_profile("Bad", &[0xff, 0xfe], None);
    assert!(!profile_has_ssid(&p, "\u{fffd}\u{fffd}"));
}

#[test]
fn saved_list_keeps_wireless_profiles_only() {
    let mut broken = wifi_profile("Broken", b"X", None);
    broken.wireless_group = GroupShape::NotAMap;
    let profiles = vec![
        wifi_profile("Home", b"Home", Some("wpa-psk")),
        ethernet_profile(),
        wifi_profile("Lab", b"Lab", Some("sae")),
        broken,
        wifi_profile("Cafe", &[0xff], Some("wpa-eap")),
        wifi_profile("Open", b"Open", None),
    ];
    let list = saved_networks(&profiles);
    assert_eq!(list.len(), 4);
    assert_eq!(list[0].name, "Home");
    assert_eq!(list[0].ssid, "Home");
    assert_eq!(list[0].connection_type, "wifi");
    assert_eq!(list[0].security_type, WiFiSecurityType::WpaPsk);
    assert_eq!(list[1].name, "Lab");
    assert_eq!(list[1].security_type, WiFiSecurityType::Wpa3Psk);
    assert_eq!(list[2].name, "Cafe");
    assert_eq!(list[2].ssid, "Unknown");
    assert_eq!(list[2].security_type, WiFiSecurityType::WpaEap);
    assert_eq!(list[3].security_type, WiFiSecurityType::Open);
    assert_eq!(list[3].signal_strength, 0);
    assert_eq!(list[3].ip_address, "0.0.0.0");
}

fn config(security: WiFiSecurityType, password: Option<&str>, username: Option<&str>) -> WiFiConnectionConfig {
    WiFiConnectionConfig {
        ssid: "Net".to_string(),
        password: password.map(|p| p.to_string()),
        security_type: security,
        username: username.map(|u| u.to_string()),
    }
}

fn triples(c: &WiFiConnectionConfig) -> Vec<(String, String, String)> {
    connection_settings(c)
        .values
        .into_iter()
        .map(|s| (s.group, s.key, s.value))
        .collect()
}

fn t(g: &str, k: &str, v: &str) -> (String, String, String) {
    (g.to_string(), k.to_string(), v.to_string())
}

fn base() -> Vec<(String, String, String)> {
    vec![
        t("connection", "id", "Net"),
        t("connection", "type", "802-11-wireless"),
        t("802-11-wireless", "ssid", "Net"),
        t("802-11-wireless", "mode", "infrastructure"),
    ]
}

const SEC: &str = "802-11-wireless-security";

#[test]
fn open_network_has_empty_security_group() {
    let c = config(WiFiSecurityType::Open, Some("ignored"), None);
    assert_eq!(triples(&c), base());
    let groups = connection_settings(&c).groups;
    assert_eq!(groups, vec!["connection", "802-11-wireless", SEC]);
}

#[test]
fn security_groups_per_type() {
    let mut wep = base();
    wep.push(t(SEC, "key-mgmt", "none"));
    wep.push(t(SEC, "wep-key0", "k"));
    assert_eq!(triples(&config(WiFiSecurityType::Wep, Some("k"), None)), wep);

    let mut psk = base();
    psk.push(t(SEC, "key-mgmt", "wpa-psk"));
    psk.push(t(SEC, "psk", "pw"));
    assert_eq!(triples(&config(WiFiSecurityType::WpaPsk, Some("pw"), None)), psk);

    let mut eap = base();
    eap.push(t(SEC, "key-mgmt", "wpa-eap"));
    eap.push(t(SEC, "password", "pw"));
    eap.push(t(SEC, "identity", "me"));
    assert_eq!(triples(&config(WiFiSecurityType::WpaEap, Some("pw"), Some("me"))), eap);

    let mut wpa2 = base();
    wpa2.push(t(SEC, "key-mgmt", "wpa-psk"));
    wpa2.push(t(SEC, "proto", "rsn"));
    wpa2.push(t(SEC, "psk", "pw"));
    assert_eq!(triples(&config(WiFiSecurityType::Wpa2Psk, Some("pw"), None)), wpa2);

    let mut wpa3 = base();
    wpa3.push(t(SEC, "key-mgmt", "sae"));
    wpa3.push(t(SEC, "psk", "pw"));
    assert_eq!(triples(&config(WiFiSecurityType::Wpa3Psk, Some("pw"), None)), wpa3);
}

#[test]
fn missing_password_leaves_key_out() {
    let mut psk = base();
    psk.push(t(SEC, "key-mgmt", "wpa-psk"));
    assert_eq!(triples(&config(WiFiSecurityType::WpaPsk, None, None)), psk);
}

#[test]
fn activation_uses_placeholder_references() {
    let r = activation_request(&config(WiFiSecurityType::Open, None, None));
    assert_eq!(r.device_path, "/");
    assert_eq!(r.specific_object, "/");
}

#[test]
fn disconnect_targets_first_active_connection() {
    assert_eq!(connection_to_deactivate(&vec![]), None);
    let active = vec!["/ac/3".to_string(), "/ac/4".to_string()];
    assert_eq!(connection_to_deactivate(&active), Some("/ac/3".to_string()));
}

#[test]
fn wireless_device_code() {
    assert!(is_wireless_device(Some(2)));
    assert!(!is_wireless_device(Some(1)));
    assert!(!is_wireless_device(None));
}

#[test]
fn networking_switch_words() {
    assert_eq!(networking_switch_args(true), vec!["networking", "on"]);
    assert_eq!(networking_switch_args(false), vec!["networking", "off"]);
}
