//! The runtime matching step: what is handed to the JIT callable for one
//! packet, and how its raw return word is read.

use vstd::prelude::*;

verus! {

/// The argument record handed to the JIT callable for one packet buffer.
/// No auxiliary memory and no user argument are ever supplied.
pub struct MatchArgs {
    pub wire_len: usize,
    pub buf_len: usize,
}

/// Build the argument record for a packet: both the wire length and the
/// buffer length are the buffer's own length.
pub fn match_args(packet: &[u8]) -> (a: MatchArgs)
    ensures
        a.wire_len == packet@.len(),
        a.buf_len == packet@.len(),
{
    MatchArgs { wire_len: packet.len(), buf_len: packet.len() }
}

/// Read the callable's raw return word: the packet matches exactly when the
/// word is non-zero.
pub fn match_result(raw: u32) -> (m: bool)
    ensures
        m == (raw != 0),
{
    raw != 0
}

} // verus!
