//! Network model: named networks, the scan interface, and the connection
//! timeout policy.
//!
//! Association itself happens in the network driver; the library holds the
//! plain data the rest of the firmware works with, and the one decision the
//! connect loop makes: when a bounded wait has run out.

use vstd::prelude::*;

verus! {

/// A network found by a scan, by name.
#[derive(Debug, Clone)]
pub struct WifiNetwork {
    pub ssid: String,
}

/// Source of the networks currently in range.  The network driver of the
/// application implements this.
pub trait WifiNetworkProvider {
    fn scan_wifi_networks(&self) -> Vec<WifiNetwork>;
}

/// How many milliseconds a connection attempt may wait before it fails
/// with a timeout.
pub const WIFI_CONNECT_TIMEOUT_MS: u64 = 10000;

/// Whether a connection attempt started at `started_ms` has run out of time
/// at `now_ms`: the bounded wait is exceeded, not merely reached.
pub fn connection_timed_out(started_ms: u64, now_ms: u64) -> (timed_out: bool)
    requires
        started_ms <= now_ms,
    ensures
        timed_out == (now_ms - started_ms > WIFI_CONNECT_TIMEOUT_MS),
{
    now_ms - started_ms > WIFI_CONNECT_TIMEOUT_MS
}

} // verus!
