//! Capture statistics.

use vstd::prelude::*;

verus! {

/// An immutable snapshot of a live capture's counters: packets received,
/// packets dropped because the buffer was full, and packets dropped by the
/// network interface.
#[derive(Debug, Clone, Copy, PartialEq, Eq, Structural)]
pub struct Stat {
    pub received: u32,
    pub dropped: u32,
    pub if_dropped: u32,
}

impl Stat {
    /// Assembles a statistics snapshot from its three counters.
    pub fn new(received: u32, dropped: u32, if_dropped: u32) -> (r: Stat)
        ensures
            r == (Stat { received, dropped, if_dropped }),
    {
        Stat { received, dropped, if_dropped }
    }
}

} // verus!
