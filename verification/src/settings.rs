//! The plain-value connection settings the library itself understands.
//!
//! The rest of the connection configuration — certificate paths, last-will
//! messages, transport overrides — belongs to the program around the
//! library, next to the transport that consumes it.

use vstd::prelude::*;

verus! {

/// Size caps for MQTT packets, one per direction, in bytes.
#[derive(Clone, Copy, PartialEq, Eq, Structural, Debug)]
pub struct MQTTMaxPacketSize {
    pub incoming_max_packet_size: usize,
    pub outgoing_max_packet_size: usize,
}

impl MQTTMaxPacketSize {
    /// Caps of `incoming` bytes for inbound packets and `outgoing` bytes
    /// for outbound ones.
    pub fn new(incoming: usize, outgoing: usize) -> (r: MQTTMaxPacketSize)
        ensures
            r.incoming_max_packet_size == incoming,
            r.outgoing_max_packet_size == outgoing,
    {
        MQTTMaxPacketSize { incoming_max_packet_size: incoming, outgoing_max_packet_size: outgoing }
    }
}

} // verus!
