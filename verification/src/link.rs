//! Link-layer framing types.

use vstd::prelude::*;

verus! {

/// A datalink link type: a small value wrapping the numeric link-layer
/// identifier used by captured packets.  `Linktype(1)` is Ethernet.
///
/// Equality is numeric identity.  Name and description lookups for an
/// identifier are pure functions of the identifier delegated to the engine,
/// and fail when the identifier is unrecognized; they live with the
/// embedding layer.
#[derive(Debug, PartialEq, Eq, Clone, Copy, Structural)]
pub struct Linktype(pub i32);


} // verus!
