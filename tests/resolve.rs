use network_manager::text::format_ipv4;
use network_manager::{
    current_record, AccessPointProps, CurrentStateWalk, LinkFacts, NetworkInfo, Query, Reply,
    WiFiSecurityType,
};

fn assert_disconnected(r: &NetworkInfo) {
    assert_eq!(r.name, "Unknown");
    assert_eq!(r.ssid, "Unknown");
    assert_eq!(r.connection_type, "Unknown");
    assert_eq!(r.icon, "network-offline-symbolic");
    assert_eq!(r.ip_address, "0.0.0.0");
    assert_eq!(r.mac_address, "00:00:00:00:00:00");
    assert_eq!(r.signal_strength, 0);
    assert_eq!(r.security_type, WiFiSecurityType::Open);
    assert!(!r.is_connected);
}

fn path(s: &str) -> String {
    s.to_string()
}

#[test]
fn no_active_connection_gives_default_record() {
    let mut w = CurrentStateWalk::new();
    assert!(matches!(w.pending(), Query::ActiveConnections));
    let out = w.advance(Reply::Paths(vec![]));
    assert!(w.is_finished());
    assert_disconnected(&out.expect("walk ends"));
}

#[test]
fn default_record_is_disconnected() {
    assert_disconnected(&NetworkInfo::default());
}

#[test]
fn connection_without_device_gives_default_record() {
    let mut w = CurrentStateWalk::new();
    assert!(w.advance(Reply::Paths(vec![path("/ac/1"), path("/ac/2")])).is_none());
    match w.pending() {
        Query::ConnectionDevices(p) => assert_eq!(p, "/ac/1"),
        q => panic!("unexpected {:?}", q),
    }
    let out = w.advance(Reply::Paths(vec![]));
    assert_disconnected(&out.expect("walk ends"));
}

fn home_ap() -> AccessPointProps {
    AccessPointProps {
        ssid: Some(b"Home".to_vec()),
        strength: Some(72),
        flags: Some(0),
        wpa_flags: Some(0),
        rsn_flags: Some(0x188),
        key_mgmt: None,
    }
}

#[test]
fn wireless_walk_reads_access_point_and_address() {
    let mut w = CurrentStateWalk::new();
    assert!(w.advance(Reply::Paths(vec![path("/ac/7")])).is_none());
    assert!(w.advance(Reply::Paths(vec![path("/dev/3")])).is_none());
    match w.pending() {
        Query::DeviceType(p) => assert_eq!(p, "/dev/3"),
        q => panic!("unexpected {:?}", q),
    }
    assert!(w.advance(Reply::Number(Some(2))).is_none());
    match w.pending() {
        Query::ConnectionState(p) => assert_eq!(p, "/ac/7"),
        q => panic!("unexpected {:?}", q),
    }
    assert!(w.advance(Reply::Number(Some(2))).is_none());
    assert!(matches!(w.pending(), Query::Reachability));
    assert!(w.advance(Reply::Flag(true)).is_none());
    assert!(matches!(w.pending(), Query::HwAddress(_)));
    assert!(w.advance(Reply::Text(Some(path("AA:BB:CC:DD:EE:FF")))).is_none());
    assert!(matches!(w.pending(), Query::ActiveAccessPoint(_)));
    assert!(w.advance(Reply::Path(Some(path("/ap/9")))).is_none());
    match w.pending() {
        Query::AccessPointProperties(p) => assert_eq!(p, "/ap/9"),
        q => panic!("unexpected {:?}", q),
    }
    assert!(w.advance(Reply::AccessPoint(home_ap())).is_none());
    assert!(matches!(w.pending(), Query::Ip4Config(_)));
    assert!(w.advance(Reply::Path(Some(path("/ip4/1")))).is_none());
    match w.pending() {
        Query::Ip4Addresses(p) => assert_eq!(p, "/ip4/1"),
        q => panic!("unexpected {:?}", q),
    }
    let r = w.advance(Reply::Addresses(vec![vec![0x0A01A8C0, 24, 0]])).expect("walk ends");
    assert_eq!(r.name, "Home");
    assert_eq!(r.ssid, "Home");
    assert_eq!(r.connection_type, "WiFi");
    assert_eq!(r.icon, "wifi-signal-good");
    assert_eq!(r.ip_address, "192.168.1.10");
    assert_eq!(r.mac_address, "AA:BB:CC:DD:EE:FF");
    assert_eq!(r.signal_strength, 72);
    assert_eq!(r.security_type, WiFiSecurityType::Wpa3Psk);
    assert!(r.is_connected);
}

#[test]
fn wired_walk_skips_access_point() {
    let mut w = CurrentStateWalk::new();
    w.advance(Reply::Paths(vec![path("/ac/1")]));
    w.advance(Reply::Paths(vec![path("/dev/1")]));
    w.advance(Reply::Number(Some(1)));
    // Not activated: no probe is asked.
    w.advance(Reply::Number(Some(1)));
    assert!(matches!(w.pending(), Query::HwAddress(_)));
    w.advance(Reply::Text(Some(path("11:22:33:44:55:66"))));
    assert!(matches!(w.pending(), Query::Ip4Config(_)));
    let r = w.advance(Reply::Path(None)).expect("walk ends");
    assert_eq!(r.connection_type, "Ethernet");
    assert_eq!(r.icon, "network-offline-symbolic");
    assert_eq!(r.ip_address, "0.0.0.0");
    assert_eq!(r.mac_address, "11:22:33:44:55:66");
    assert!(!r.is_connected);
}

#[test]
fn activated_but_unreachable_is_not_connected() {
    let f = LinkFacts {
        device_type: Some(1),
        state: Some(2),
        reachable: false,
        hw_address: None,
        access_point: None,
        ip4_address: Some(0x0100007F),
    };
    let r = current_record(&f);
    assert!(!r.is_connected);
    assert_eq!(r.icon, "network-offline-symbolic");
    assert_eq!(r.ip_address, "127.0.0.1");
    let f2 = LinkFacts { reachable: true, ..f };
    let r2 = current_record(&f2);
    assert!(r2.is_connected);
    assert_eq!(r2.icon, "network-wired-symbolic");
}

#[test]
fn unknown_device_type_is_labelled_unknown() {
    let f = LinkFacts {
        device_type: Some(14),
        state: None,
        reachable: false,
        hw_address: None,
        access_point: Some(home_ap()),
        ip4_address: None,
    };
    let r = current_record(&f);
    assert_eq!(r.connection_type, "Unknown");
    assert_eq!(r.ssid, "Unknown");
    assert_eq!(r.mac_address, "00:00:00:00:00:00");
}

#[test]
fn empty_address_list_keeps_placeholder() {
    let mut w = CurrentStateWalk::new();
    w.advance(Reply::Paths(vec![path("/ac/1")]));
    w.advance(Reply::Paths(vec![path("/dev/1")]));
    w.advance(Reply::Number(Some(2)));
    w.advance(Reply::Number(Some(0)));
    w.advance(Reply::Text(None));
    w.advance(Reply::Path(None));
    w.advance(Reply::Path(Some(path("/ip4/2"))));
    let r = w.advance(Reply::Addresses(vec![])).expect("walk ends");
    assert_eq!(r.ip_address, "0.0.0.0");
    assert_eq!(r.connection_type, "WiFi");
    assert_eq!(r.ssid, "Unknown");
}

#[test]
fn dotted_quad_rendering() {
    assert_eq!(format_ipv4(0), "0.0.0.0");
    assert_eq!(format_ipv4(0xFFFFFFFF), "255.255.255.255");
    assert_eq!(format_ipv4(0x0A01A8C0), "192.168.1.10");
    assert_eq!(format_ipv4(0x6400000A), "10.0.0.100");
}
