//! Time, for anything the framework paces itself with.
use vstd::prelude::*;

verus! {

/// The host's monotonic clock.
pub trait Clock {
    /// What `millis` answers this frame.
    spec fn spec_millis(&self) -> u32;

    /// Milliseconds since boot. Callers only take wrapping differences, so a
    /// host may return a plain counter that wraps.
    fn millis(&self) -> (r: u32)
        ensures
            r == self.spec_millis(),
    ;
}

/// Milliseconds since boot, on `host`.
pub fn millis<H: Clock>(host: &H) -> (r: u32)
    ensures
        r == host.spec_millis(),
{
    host.millis()
}

} // verus!
