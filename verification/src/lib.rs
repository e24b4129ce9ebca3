//! Telemetry and alerting core of a lightweight host-monitoring pair: a
//! sampler side that keeps rate counters fresh and assembles immutable
//! snapshots of host metrics, and a notification side that renders
//! per-channel templates for host-lifecycle events and plans their
//! delivery without ever blocking the caller.

pub mod counters;
pub mod email;
pub mod netfs;
pub mod registry;
pub mod snapshot;
pub mod strutil;
pub mod template;
pub mod wechat;

use vstd::prelude::*;

verus! {

/// Convert a quantity reported in base-1000 kilobytes to base-1024
/// kibibytes, applying the exact factor 1000/1024.
pub fn kb_to_kib(kb: u64) -> (r: u64)
    ensures
        r == kb as int * 1000 / 1024,
{
    proof {
        assert(kb as int * 1000 / 1024 <= kb as int) by (nonlinear_arith);
    }
    ((kb as u128) * 1000 / 1024) as u64
}

} // verus!

