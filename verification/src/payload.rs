//! The constant outbound payload that the transmit loop emits once per tick.

use vstd::prelude::*;

verus! {

/// The byte sequence the transmit loop sends, immutable for the process
/// lifetime. Its length is the `data_len` that the fixed-length read
/// strategies slice by.
pub open spec fn spec_outbound_payload() -> Seq<u8> {
    seq![0xCAu8, 0xFEu8, 0xBAu8, 0xBEu8, 0xDAu8, 0xDAu8]
}

/// Builds the outbound payload as a vector, byte for byte.
pub fn outbound_payload() -> (p: Vec<u8>)
    ensures
        p@ == spec_outbound_payload(),
{
    let mut p: Vec<u8> = Vec::new();
    p.push(0xCA);
    p.push(0xFE);
    p.push(0xBA);
    p.push(0xBE);
    p.push(0xDA);
    p.push(0xDA);
    proof {
        assert(p@ =~= spec_outbound_payload());
    }
    p
}

} // verus!
