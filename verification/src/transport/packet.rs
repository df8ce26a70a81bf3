//! What is read of a received packet.
use crate::transport::network::Address;
use vstd::prelude::*;

verus! {

/// The header that is sent in the clear.
#[derive(Clone, Copy, Debug, PartialEq, Eq, Structural)]
pub struct PlainHdr {
    /// The id of the session.
    pub sess_id: u16,
    /// The node that sent the packet, if the header names it.
    pub src_nodeid: Option<u64>,
    /// Whether the packet belongs to an encrypted session.
    pub encrypted: bool,
}

impl PlainHdr {
    /// The node that sent the packet, if the header names it.
    pub fn get_src_u64(&self) -> (node: Option<u64>)
        ensures
            node == self.src_nodeid,
    {
        self.src_nodeid
    }

    /// Whether the packet belongs to an encrypted session.
    pub fn is_encrypted(&self) -> (encrypted: bool)
        ensures
            encrypted == self.encrypted,
    {
        self.encrypted
    }
}

/// The header that is sent encrypted.
#[derive(Clone, Copy, Debug, PartialEq, Eq, Structural)]
pub struct ProtoHdr {
    /// The id of the exchange.
    pub exch_id: u16,
}

/// A received packet: whom it came from, and its two headers.
#[derive(Clone, Copy, Debug, PartialEq, Eq, Structural)]
pub struct Packet {
    pub peer: Address,
    pub plain: PlainHdr,
    pub proto: ProtoHdr,
}

} // verus!
