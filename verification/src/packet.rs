//! Captured packets and their headers.
//!
//! A [`Packet`] is the value produced by one retrieval call: the engine's
//! per-packet header together with the captured bytes.  The arrival time is
//! held as a plain seconds / sub-seconds pair, so headers can be written,
//! compared and stored without reference to any platform time structure.

use vstd::prelude::*;

verus! {

/// An arrival timestamp: seconds and sub-second units.  Whether the
/// sub-second field counts micro- or nanoseconds is decided by the handle's
/// [`crate::capture::Precision`].
#[derive(Debug, Clone, Copy, PartialEq, Eq, Structural)]
pub struct Timeval {
    pub tv_sec: i64,
    pub tv_usec: i64,
}

/// The per-packet header: arrival time, captured length, and original
/// on-wire length.
///
/// `caplen` may be less than `len` when the snapshot length truncated the
/// packet; this layer represents and compares the two lengths as given and
/// does not itself enforce `caplen <= len`.
#[derive(Debug, Clone, Copy, PartialEq, Eq, Structural)]
pub struct PacketHeader {
    /// Arrival time of the packet.
    pub ts: Timeval,
    /// Number of bytes captured into `data`.
    pub caplen: u32,
    /// Original length of the packet on the wire.
    pub len: u32,
}

/// One captured packet: its header and its captured bytes.
#[derive(Debug)]
pub struct Packet {
    pub header: PacketHeader,
    pub data: Vec<u8>,
}

/// The mathematical value of a [`Packet`]: the header together with the
/// byte sequence.
#[verifier::ext_equal]
pub struct PacketModel {
    pub header: PacketHeader,
    pub data: Seq<u8>,
}

impl View for Packet {
    type V = PacketModel;

    open spec fn view(&self) -> PacketModel {
        PacketModel { header: self.header, data: self.data@ }
    }
}

impl Packet {
    /// Assembles a packet from a header and its captured bytes.
    pub fn new(header: PacketHeader, data: Vec<u8>) -> (r: Packet)
        ensures
            r.header == header,
            r.data@ == data@,
    {
        Packet { header, data }
    }
}

impl Clone for Packet {
    /// Cloning copies the header and the captured bytes unchanged.
    fn clone(&self) -> (r: Packet)
        ensures
            r@ == self@,
    {
        let data = self.data.clone();
        proof {
            assert(data@ =~= self.data@);
        }
        Packet { header: self.header, data }
    }
}

impl PartialEq for Packet {
    /// Two packets are equal exactly when their headers (timestamp, captured
    /// length, on-wire length) and their data bytes are identical.
    fn eq(&self, other: &Packet) -> (r: bool) {
        let r = self.header == other.header && self.data == other.data;
        proof {
            if r {
                assert(self@ =~= other@);
            }
        }
        r
    }
}

impl vstd::std_specs::cmp::PartialEqSpecImpl for Packet {
    open spec fn obeys_eq_spec() -> bool {
        true
    }

    open spec fn eq_spec(&self, other: &Packet) -> bool {
        self@ == other@
    }
}

impl Eq for Packet {}

/// Packet equality is determined by the header fields and the data bytes:
/// two packet values are equal exactly when their timestamps, captured
/// lengths, on-wire lengths and byte sequences all agree.
pub proof fn lemma_packet_equality(a: Packet, b: Packet)
    ensures
        (a@ == b@) <==> (a.header.ts.tv_sec == b.header.ts.tv_sec
            && a.header.ts.tv_usec == b.header.ts.tv_usec && a.header.caplen == b.header.caplen
            && a.header.len == b.header.len && a.data@ == b.data@),
{
    if a.header.ts.tv_sec == b.header.ts.tv_sec && a.header.ts.tv_usec == b.header.ts.tv_usec
        && a.header.caplen == b.header.caplen && a.header.len == b.header.len && a.data@ == b.data@ {
        assert(a@ =~= b@);
    }
}

} // verus!
