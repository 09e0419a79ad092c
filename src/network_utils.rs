use vstd::prelude::*;
use vstd::string::StringExecFns;

verus! {

/// Icon bucket of a signal strength: 0-20 weak, 21-40 low, 41-60 medium,
/// 61-80 good, 81-100 excellent, anything else none.
pub open spec fn wifi_icon_text(strength: u8) -> Seq<char> {
    if strength <= 20 {
        "wifi-signal-weak"@
    } else if strength <= 40 {
        "wifi-signal-low"@
    } else if strength <= 60 {
        "wifi-signal-medium"@
    } else if strength <= 80 {
        "wifi-signal-good"@
    } else if strength <= 100 {
        "wifi-signal-excellent"@
    } else {
        "wifi-signal-none"@
    }
}

/// Icon of a wired link.
pub open spec fn wired_icon_text(is_connected: bool) -> Seq<char> {
    if is_connected {
        "network-wired-symbolic"@
    } else {
        "network-offline-symbolic"@
    }
}

pub fn get_wifi_icon(strength: u8) -> (r: String)
    ensures
        r@ == wifi_icon_text(strength),
{
    if strength <= 20 {
        String::from_str("wifi-signal-weak")
    } else if strength <= 40 {
        String::from_str("wifi-signal-low")
    } else if strength <= 60 {
        String::from_str("wifi-signal-medium")
    } else if strength <= 80 {
        String::from_str("wifi-signal-good")
    } else if strength <= 100 {
        String::from_str("wifi-signal-excellent")
    } else {
        String::from_str("wifi-signal-none")
    }
}

pub fn get_wired_icon(is_connected: bool) -> (r: String)
    ensures
        r@ == wired_icon_text(is_connected),
{
    if is_connected {
        String::from_str("network-wired-symbolic")
    } else {
        String::from_str("network-offline-symbolic")
    }
}

} // verus!
