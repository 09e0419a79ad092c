use vstd::prelude::*;
use vstd::string::StringExecFns;

use crate::models::WiFiSecurityType;

verus! {

/// General access-point flag: the network is open.
pub const SECURITY_FLAG_NONE: u32 = 0x1;

/// General access-point flag: the network uses WEP.
pub const SECURITY_FLAG_WEP: u32 = 0x2;

/// The security type a key-management hint names; unknown hints mean open.
pub open spec fn security_from_hint(hint: Seq<char>) -> WiFiSecurityType {
    if hint == "none"@ {
        WiFiSecurityType::Open
    } else if hint == "wpa-psk"@ {
        WiFiSecurityType::WpaPsk
    } else if hint == "wpa-eap"@ {
        WiFiSecurityType::WpaEap
    } else if hint == "sae"@ {
        WiFiSecurityType::Wpa3Psk
    } else {
        WiFiSecurityType::Open
    }
}

/// The security type read from the general, WPA and RSN flag words.
/// Bit 0 of the general flags marks an open network, bit 1 a WEP one.
pub open spec fn security_from_flags(flags: u32, wpa: u32, rsn: u32) -> WiFiSecurityType {
    if flags % 2 == 1 {
        WiFiSecurityType::Open
    } else if (flags / 2) % 2 == 1 {
        WiFiSecurityType::Wep
    } else if wpa != 0 && rsn == 0 {
        WiFiSecurityType::WpaPsk
    } else if rsn != 0 {
        if wpa != 0 {
            WiFiSecurityType::Wpa2Psk
        } else {
            WiFiSecurityType::Wpa3Psk
        }
    } else {
        WiFiSecurityType::Open
    }
}

/// A hint, when present, decides; otherwise the flags do.
pub open spec fn classify_security(
    flags: u32,
    wpa: u32,
    rsn: u32,
    hint: Option<Seq<char>>,
) -> WiFiSecurityType {
    match hint {
        Some(h) => security_from_hint(h),
        None => security_from_flags(flags, wpa, rsn),
    }
}

/// The characters of an optional hint.
pub open spec fn hint_view(hint: Option<&str>) -> Option<Seq<char>> {
    match hint {
        Some(h) => Some(h@),
        None => None,
    }
}

/// Whether two texts hold the same characters.
pub fn same_text(a: &str, b: &str) -> (r: bool)
    ensures
        r == (a@ == b@),
{
    String::from_str(a) == String::from_str(b)
}

pub fn security_for_hint(hint: &str) -> (r: WiFiSecurityType)
    ensures
        r == security_from_hint(hint@),
{
    if same_text(hint, "none") {
        WiFiSecurityType::Open
    } else if same_text(hint, "wpa-psk") {
        WiFiSecurityType::WpaPsk
    } else if same_text(hint, "wpa-eap") {
        WiFiSecurityType::WpaEap
    } else if same_text(hint, "sae") {
        WiFiSecurityType::Wpa3Psk
    } else {
        WiFiSecurityType::Open
    }
}

pub fn security_for_flags(flags: u32, wpa: u32, rsn: u32) -> (r: WiFiSecurityType)
    ensures
        r == security_from_flags(flags, wpa, rsn),
{
    assert(flags & 1 != 0 <==> flags % 2 == 1) by (bit_vector);
    assert(flags & 2 != 0 <==> (flags / 2) % 2 == 1) by (bit_vector);
    if flags & SECURITY_FLAG_NONE != 0 {
        WiFiSecurityType::Open
    } else if flags & SECURITY_FLAG_WEP != 0 {
        WiFiSecurityType::Wep
    } else if wpa != 0 && rsn == 0 {
        WiFiSecurityType::WpaPsk
    } else if rsn != 0 {
        if wpa != 0 {
            WiFiSecurityType::Wpa2Psk
        } else {
            WiFiSecurityType::Wpa3Psk
        }
    } else {
        WiFiSecurityType::Open
    }
}

/// Decoders of access-point and service properties.
pub struct NetworkManagerHelpers;

impl NetworkManagerHelpers {
    /// Security of an access point from its flag words and optional
    /// key-management hint.
    pub fn detect_security_type(
        flags: u32,
        wpa: u32,
        rsn: u32,
        key_mgmt: Option<&str>,
    ) -> (r: WiFiSecurityType)
        ensures
            r == classify_security(flags, wpa, rsn, hint_view(key_mgmt)),
    {
        match key_mgmt {
            Some(h) => security_for_hint(h),
            None => security_for_flags(flags, wpa, rsn),
        }
    }
}

} // verus!
