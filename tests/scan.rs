use network_manager::ranking::rank_networks;
use network_manager::{AccessPointProps, NetworkInfo, Query, Reply, ScanWalk, WiFiSecurityType};

fn ap(ssid: &str, strength: u8) -> AccessPointProps {
    AccessPointProps {
        ssid: Some(ssid.as_bytes().to_vec()),
        strength: Some(strength),
        flags: Some(0),
        wpa_flags: Some(0),
        rsn_flags: Some(0),
        key_mgmt: Some("wpa-psk".to_string()),
    }
}

fn record(ssid: &str, strength: u8) -> NetworkInfo {
    let mut r = NetworkInfo::default();
    r.ssid = ssid.to_string();
    r.name = ssid.to_string();
    r.signal_strength = strength;
    r
}

fn current(ssid: &str) -> NetworkInfo {
    let mut r = NetworkInfo::default();
    r.ssid = ssid.to_string();
    r.ip_address = "10.0.0.5".to_string();
    r
}

/// Runs a scan over one wireless device with the given access points.
fn scan_one_device(aps: Vec<AccessPointProps>, connected: &str) -> Vec<NetworkInfo> {
    let mut w = ScanWalk::new(current(connected));
    assert!(matches!(w.pending(), Query::Devices));
    assert!(w.advance(Reply::Paths(vec!["/dev/0".to_string()])).is_none());
    assert!(matches!(w.pending(), Query::DeviceType(_)));
    assert!(w.advance(Reply::Number(Some(2))).is_none());
    assert!(matches!(w.pending(), Query::HwAddress(_)));
    assert!(w.advance(Reply::Text(Some("AA:AA:AA:AA:AA:AA".to_string()))).is_none());
    assert!(matches!(w.pending(), Query::AccessPoints(_)));
    let paths: Vec<String> = (0..aps.len()).map(|i| format!("/ap/{}", i)).collect();
    let n = aps.len();
    let mut out = w.advance(Reply::Paths(paths));
    for (i, props) in aps.into_iter().enumerate() {
        match w.pending() {
            Query::AccessPointProperties(p) => assert_eq!(p, format!("/ap/{}", i)),
            q => panic!("unexpected {:?}", q),
        }
        out = w.advance(Reply::AccessPoint(props));
        if i + 1 < n {
            assert!(out.is_none());
        }
    }
    assert!(w.is_finished());
    out.expect("scan ends")
}

#[test]
fn shared_ssid_yields_one_record() {
    let list = scan_one_device(vec![ap("Cafe", 40), ap("Cafe", 90), ap("Home", 60)], "");
    let cafes: Vec<&NetworkInfo> = list.iter().filter(|r| r.ssid == "Cafe").collect();
    assert_eq!(cafes.len(), 1);
    // The first access point seen wins.
    assert_eq!(cafes[0].signal_strength, 40);
    assert_eq!(list.len(), 2);
}

#[test]
fn list_is_sorted_by_strength_for_every_order() {
    let base = [("A", 10u8), ("B", 80), ("C", 55), ("D", 80)];
    let orders = [[0usize, 1, 2, 3], [3, 2, 1, 0], [2, 0, 3, 1], [1, 3, 0, 2]];
    for order in orders.iter() {
        let aps: Vec<AccessPointProps> = order.iter().map(|&i| ap(base[i].0, base[i].1)).collect();
        let list = scan_one_device(aps, "");
        assert_eq!(list.len(), 4);
        for k in 1..list.len() {
            assert!(list[k - 1].signal_strength >= list[k].signal_strength);
        }
    }
}

#[test]
fn equal_strength_keeps_encounter_order() {
    let ranked = rank_networks(&vec![record("x", 50), record("y", 70), record("z", 50)]);
    let ssids: Vec<&str> = ranked.iter().map(|r| r.ssid.as_str()).collect();
    assert_eq!(ssids, vec!["y", "x", "z"]);
}

#[test]
fn connected_ssid_gets_current_address() {
    let list = scan_one_device(vec![ap("Home", 30), ap("Other", 70)], "Home");
    assert_eq!(list[0].ssid, "Other");
    assert!(!list[0].is_connected);
    assert_eq!(list[0].ip_address, "0.0.0.0");
    assert_eq!(list[1].ssid, "Home");
    assert!(list[1].is_connected);
    assert_eq!(list[1].ip_address, "10.0.0.5");
    assert_eq!(list[1].connection_type, "wifi");
    assert_eq!(list[1].icon, "wifi-signal-low");
    assert_eq!(list[1].mac_address, "AA:AA:AA:AA:AA:AA");
    assert_eq!(list[1].security_type, WiFiSecurityType::WpaPsk);
}

#[test]
fn wired_devices_are_skipped() {
    let mut w = ScanWalk::new(current(""));
    w.advance(Reply::Paths(vec!["/dev/eth".to_string(), "/dev/wlan".to_string()]));
    match w.pending() {
        Query::DeviceType(p) => assert_eq!(p, "/dev/eth"),
        q => panic!("unexpected {:?}", q),
    }
    assert!(w.advance(Reply::Number(Some(1))).is_none());
    match w.pending() {
        Query::DeviceType(p) => assert_eq!(p, "/dev/wlan"),
        q => panic!("unexpected {:?}", q),
    }
    w.advance(Reply::Number(Some(2)));
    w.advance(Reply::Text(None));
    let out = w.advance(Reply::Paths(vec![])).expect("scan ends");
    assert!(out.is_empty());
}

#[test]
fn no_devices_gives_empty_list() {
    let mut w = ScanWalk::new(current(""));
    let out = w.advance(Reply::Paths(vec![])).expect("scan ends");
    assert!(out.is_empty());
}
