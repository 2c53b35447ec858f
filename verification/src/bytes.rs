//! Byte-wise exclusive or on sequences and buffers.

use vstd::prelude::*;

verus! {

/// The byte-wise exclusive or of `a` with `b`, as long as `a`.
///
/// Only the first `a.len()` bytes of `b` matter.
pub open spec fn xor_bytes(a: Seq<u8>, b: Seq<u8>) -> Seq<u8> {
    Seq::new(a.len(), |i: int| a[i] ^ b[i])
}

/// Exclusive or with the same byte twice gives the first byte back.
pub proof fn lemma_xor_byte_cancels(a: u8, b: u8)
    ensures
        (a ^ b) ^ b == a,
{
    assert((a ^ b) ^ b == a) by (bit_vector);
}

/// Exclusive or with the same sequence twice gives the first sequence back.
pub proof fn lemma_xor_bytes_cancels(a: Seq<u8>, b: Seq<u8>)
    ensures
        xor_bytes(xor_bytes(a, b), b) == a,
{
    assert forall|i: int| 0 <= i < a.len() implies #[trigger] xor_bytes(xor_bytes(a, b), b)[i]
        == a[i] by {
        lemma_xor_byte_cancels(a[i], b[i]);
    }
    assert(xor_bytes(xor_bytes(a, b), b) =~= a);
}

} // verus!
