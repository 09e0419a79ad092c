use vstd::prelude::*;

use crate::resolver::AccessPointProps;

verus! {

/// One read that a walk asks of the network-management service.
#[derive(Clone, Debug)]
pub enum Query {
    /// `ActiveConnections` of the service root.
    ActiveConnections,
    /// `Devices` of an active connection.
    ConnectionDevices(String),
    /// `State` of an active connection.
    ConnectionState(String),
    /// `DeviceType` of a device.
    DeviceType(String),
    /// `HwAddress` of a device.
    HwAddress(String),
    /// The external reachability probe.
    Reachability,
    /// `ActiveAccessPoint` of a wireless device.
    ActiveAccessPoint(String),
    /// `Ssid`, `Strength`, `Flags`, `WpaFlags`, `RsnFlags` and `KeyMgmt` of an access point.
    AccessPointProperties(String),
    /// `Ip4Config` of a device.
    Ip4Config(String),
    /// `Addresses` of an IPv4 configuration.
    Ip4Addresses(String),
    /// `Devices` of the service root.
    Devices,
    /// `AccessPoints` of a wireless device.
    AccessPoints(String),
}

/// The answer to a `Query`, as plain values.
#[derive(Clone, Debug)]
pub enum Reply {
    /// A list of object paths.
    Paths(Vec<String>),
    /// An object path, or `None` where there is none ("/") or it had another shape.
    Path(Option<String>),
    /// An unsigned number, or `None` where it had another shape.
    Number(Option<u32>),
    /// A string, or `None` where it had another shape.
    Text(Option<String>),
    /// The outcome of the reachability probe.
    Flag(bool),
    /// The properties of an access point.
    AccessPoint(AccessPointProps),
    /// An address list: each entry is a tuple of numbers, the address first.
    Addresses(Vec<Vec<u32>>),
}

pub open spec fn reply_paths(r: Reply) -> Seq<String> {
    match r {
        Reply::Paths(v) => v@,
        _ => Seq::empty(),
    }
}

pub open spec fn reply_path(r: Reply) -> Option<String> {
    match r {
        Reply::Path(p) => p,
        _ => None,
    }
}

pub open spec fn reply_number(r: Reply) -> Option<u32> {
    match r {
        Reply::Number(n) => n,
        _ => None,
    }
}

pub open spec fn reply_text(r: Reply) -> Option<String> {
    match r {
        Reply::Text(t) => t,
        _ => None,
    }
}

pub open spec fn reply_flag(r: Reply) -> bool {
    match r {
        Reply::Flag(b) => b,
        _ => false,
    }
}

pub open spec fn reply_access_point(r: Reply) -> Option<AccessPointProps> {
    match r {
        Reply::AccessPoint(ap) => Some(ap),
        _ => None,
    }
}

/// The address field of the first entry of an address list.
pub open spec fn reply_first_address(r: Reply) -> Option<u32> {
    match r {
        Reply::Addresses(v) => if v@.len() > 0 && v@[0]@.len() > 0 {
            Some(v@[0]@[0])
        } else {
            None
        },
        _ => None,
    }
}

pub fn take_paths(r: Reply) -> (p: Vec<String>)
    ensures
        p@ == reply_paths(r),
{
    match r {
        Reply::Paths(v) => v,
        _ => Vec::new(),
    }
}

pub fn take_path(r: Reply) -> (p: Option<String>)
    ensures
        p == reply_path(r),
{
    match r {
        Reply::Path(p) => p,
        _ => None,
    }
}

pub fn take_number(r: &Reply) -> (n: Option<u32>)
    ensures
        n == reply_number(*r),
{
    match r {
        Reply::Number(n) => *n,
        _ => None,
    }
}

pub fn take_text(r: Reply) -> (t: Option<String>)
    ensures
        t == reply_text(r),
{
    match r {
        Reply::Text(t) => t,
        _ => None,
    }
}

pub fn take_flag(r: &Reply) -> (b: bool)
    ensures
        b == reply_flag(*r),
{
    match r {
        Reply::Flag(b) => *b,
        _ => false,
    }
}

pub fn take_access_point(r: Reply) -> (ap: Option<AccessPointProps>)
    ensures
        ap == reply_access_point(r),
{
    match r {
        Reply::AccessPoint(ap) => Some(ap),
        _ => None,
    }
}

pub fn take_first_address(r: &Reply) -> (a: Option<u32>)
    ensures
        a == reply_first_address(*r),
{
    match r {
        Reply::Addresses(v) => if v.len() > 0 && v[0].len() > 0 {
            Some(v[0][0])
        } else {
            None
        },
        _ => None,
    }
}

} // verus!
