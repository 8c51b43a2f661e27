//! Control plane for a single background proxy-tunnel run: translating a
//! loosely-typed configuration payload into a strict server descriptor,
//! starting and cancelling at most one run at a time, and serving status
//! queries (state, last error, traffic counters) at any moment.

pub mod addr;
pub mod control;
pub mod payload;
pub mod translate;

use vstd::prelude::*;

verus! {

/// Version string reported to callers.
pub fn version() -> (r: &'static str)
    ensures
        r@ == "1.22.0"@,
{
    "1.22.0"
}

} // verus!
