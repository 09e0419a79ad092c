use vstd::prelude::*;

use crate::error::Result;
use crate::resolver::copy_text;
use crate::security::same_text;

verus! {

/// Throughput and totals of one interface since tracking began.
#[derive(Clone, Debug)]
pub struct NetworkStats {
    pub download_speed: u64,
    pub upload_speed: u64,
    pub total_downloaded: u64,
    pub total_uploaded: u64,
    pub connection_duration: u64,
    pub interface: String,
}

/// One sample of a bandwidth history.
#[derive(Clone, Copy, Debug)]
pub struct BandwidthPoint {
    pub timestamp: u64,
    pub download_speed: u64,
    pub upload_speed: u64,
}

/// `a - b`, or zero where a counter went backwards.
pub open spec fn delta(a: u64, b: u64) -> u64 {
    if a >= b {
        (a - b) as u64
    } else {
        0
    }
}

/// Bytes per second over `seconds`; zero when no time has passed.
pub open spec fn rate(bytes: u64, seconds: u64) -> u64 {
    if seconds > 0 {
        (bytes / seconds) as u64
    } else {
        0
    }
}

/// Byte counters of one interface: the values at the start and at the last
/// sample, with their times in seconds.
pub struct NetworkStatsTracker {
    pub interface: String,
    pub last_rx_bytes: u64,
    pub last_tx_bytes: u64,
    pub last_check_time: u64,
    pub start_rx_bytes: u64,
    pub start_tx_bytes: u64,
    pub start_time: u64,
}

fn sub_or_zero(a: u64, b: u64) -> (r: u64)
    ensures
        r == delta(a, b),
{
    if a >= b {
        a - b
    } else {
        0
    }
}

fn per_second(bytes: u64, seconds: u64) -> (r: u64)
    ensures
        r == rate(bytes, seconds),
{
    if seconds > 0 {
        bytes / seconds
    } else {
        0
    }
}

impl NetworkStatsTracker {
    /// Starts tracking `interface` from the counters read at time `now`.
    pub fn new(interface: String, rx_bytes: u64, tx_bytes: u64, now: u64) -> (r: Result<Self>)
        ensures
            r matches Ok(t) && t.interface == interface && t.start_rx_bytes == rx_bytes
                && t.last_rx_bytes == rx_bytes && t.start_tx_bytes == tx_bytes && t.last_tx_bytes
                == tx_bytes && t.start_time == now && t.last_check_time == now,
    {
        Ok(NetworkStatsTracker {
            interface,
            last_rx_bytes: rx_bytes,
            last_tx_bytes: tx_bytes,
            last_check_time: now,
            start_rx_bytes: rx_bytes,
            start_tx_bytes: tx_bytes,
            start_time: now,
        })
    }

    /// Takes a sample of the counters at time `now`: speeds since the last
    /// sample, totals and duration since the start.
    pub fn get_stats(&mut self, rx_bytes: u64, tx_bytes: u64, now: u64) -> (r: Result<NetworkStats>)
        ensures
            r matches Ok(s) && {
                let elapsed = delta(now, old(self).last_check_time);
                &&& s.download_speed == rate(delta(rx_bytes, old(self).last_rx_bytes), elapsed)
                &&& s.upload_speed == rate(delta(tx_bytes, old(self).last_tx_bytes), elapsed)
                &&& s.total_downloaded == delta(rx_bytes, old(self).start_rx_bytes)
                &&& s.total_uploaded == delta(tx_bytes, old(self).start_tx_bytes)
                &&& s.connection_duration == delta(now, old(self).start_time)
                &&& s.interface@ == old(self).interface@
            },
            final(self).last_rx_bytes == rx_bytes,
            final(self).last_tx_bytes == tx_bytes,
            final(self).last_check_time == now,
            final(self).start_rx_bytes == old(self).start_rx_bytes,
            final(self).start_tx_bytes == old(self).start_tx_bytes,
            final(self).start_time == old(self).start_time,
            final(self).interface == old(self).interface,
    {
        let elapsed = sub_or_zero(now, self.last_check_time);
        let download_speed = per_second(sub_or_zero(rx_bytes, self.last_rx_bytes), elapsed);
        let upload_speed = per_second(sub_or_zero(tx_bytes, self.last_tx_bytes), elapsed);
        self.last_rx_bytes = rx_bytes;
        self.last_tx_bytes = tx_bytes;
        self.last_check_time = now;
        Ok(NetworkStats {
            download_speed,
            upload_speed,
            total_downloaded: sub_or_zero(rx_bytes, self.start_rx_bytes),
            total_uploaded: sub_or_zero(tx_bytes, self.start_tx_bytes),
            connection_duration: sub_or_zero(now, self.start_time),
            interface: copy_text(&self.interface),
        })
    }

    /// A sample reduced to a point of the bandwidth history, stamped `now`.
    pub fn get_bandwidth_point(&mut self, rx_bytes: u64, tx_bytes: u64, now: u64) -> (r: Result<
        BandwidthPoint,
    >)
        ensures
            r matches Ok(p) && {
                let elapsed = delta(now, old(self).last_check_time);
                &&& p.timestamp == now
                &&& p.download_speed == rate(delta(rx_bytes, old(self).last_rx_bytes), elapsed)
                &&& p.upload_speed == rate(delta(tx_bytes, old(self).last_tx_bytes), elapsed)
            },
            final(self).last_rx_bytes == rx_bytes,
            final(self).last_tx_bytes == tx_bytes,
            final(self).last_check_time == now,
            final(self).start_rx_bytes == old(self).start_rx_bytes,
            final(self).start_tx_bytes == old(self).start_tx_bytes,
            final(self).start_time == old(self).start_time,
    {
        let stats = self.get_stats(rx_bytes, tx_bytes, now);
        match stats {
            Ok(s) => Ok(BandwidthPoint {
                timestamp: now,
                download_speed: s.download_speed,
                upload_speed: s.upload_speed,
            }),
            Err(e) => Err(e),
        }
    }
}

/// Whether an interface is listed: every one but the loopback.
pub fn is_listed_interface(name: &str) -> (b: bool)
    ensures
        b == (name@ != "lo"@),
{
    !same_text(name, "lo")
}

} // verus!
