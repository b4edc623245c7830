use vstd::prelude::*;
use std::time::Duration;
use crate::utils::{duration_from_millis, millis_duration};

verus! {

/// Default TCP port of the fallback engine (HTTPS).
pub const FALLBACK_PORT: u16 = 443;

/// Default polling interval of the fallback engine, in milliseconds.
pub const FALLBACK_INTERVAL_MS: u64 = 500;

/// Measures with ordinary (unprivileged) operating system facilities only.
pub struct FallbackEngine {
    pub target_ip: String,
    pub target_port: u16,
    pub interval: Duration,
}

impl FallbackEngine {
    pub fn new(target_ip: String) -> (e: Self)
        ensures
            e.target_ip@ == target_ip@,
            e.target_port == FALLBACK_PORT,
            e.interval == millis_duration(FALLBACK_INTERVAL_MS),
    {
        Self {
            target_ip,
            target_port: FALLBACK_PORT,
            interval: duration_from_millis(FALLBACK_INTERVAL_MS),
        }
    }
}

} // verus!
