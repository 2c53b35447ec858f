//! The authentication tag: how the three codes are combined and how a
//! supplied tag, possibly truncated, is compared with the expected one.

use subtle::ConstantTimeEq;
use vstd::prelude::*;
use vstd::slice::slice_subrange;

verus! {

/// Length in bytes of a full authentication tag.
pub const TAG_SIZE: usize = 16;

/// The tag that the three codes `n`, `h` and `c` combine to: their byte-wise
/// exclusive or over the full tag width.
pub open spec fn combined(n: Seq<u8>, h: Seq<u8>, c: Seq<u8>) -> Seq<u8> {
    Seq::new(TAG_SIZE as nat, |i: int| n[i] ^ h[i] ^ c[i])
}

/// Whether the supplied `mac` passes for the expected `tag`: it is no longer
/// than the tag and equals the tag's first `mac.len()` bytes.
pub open spec fn passes(mac: Seq<u8>, tag: Seq<u8>) -> bool {
    mac.is_prefix_of(tag)
}

/// Combines the codes of nonce, header and ciphertext into the tag.
pub fn combine(n: &[u8; 16], h: &[u8; 16], c: &[u8; 16]) -> (tag: [u8; 16])
    ensures
        tag@ == combined(n@, h@, c@),
{
    let mut tag = [0u8; 16];
    let mut i: usize = 0;
    while i < TAG_SIZE
        invariant
            i <= TAG_SIZE,
            forall|j: int| 0 <= j < i ==> tag@[j] == n@[j] ^ h@[j] ^ c@[j],
        decreases TAG_SIZE - i,
    {
        tag[i] = n[i] ^ h[i] ^ c[i];
        i += 1;
    }
    assert(tag@ =~= combined(n@, h@, c@));
    tag
}

/// Compares two byte strings with `subtle`'s `ConstantTimeEq::ct_eq` for
/// slices and unwraps the resulting `Choice`.
///
/// Trusted: the result is 1 when the slices have the same length and the
/// same bytes, and 0 otherwise. For slices of one length the time taken does
/// not depend on where they differ, which no contract can say.
#[verifier::external_body]
fn ct_eq(a: &[u8], b: &[u8]) -> (choice: u8)
    ensures
        choice == 1 <==> a@ == b@,
        choice == 0 || choice == 1,
{
    a.ct_eq(b).unwrap_u8()
}

/// Checks a supplied `mac` against the expected `tag` in constant time.
///
/// The `mac` may be a truncation of the tag: it is accepted exactly when it
/// equals the first `mac.len()` bytes of `tag`. One that is longer than the
/// tag is never accepted.
pub fn verify(mac: &[u8], tag: &[u8; 16]) -> (ok: bool)
    ensures
        ok == passes(mac@, tag@),
{
    if mac.len() > TAG_SIZE {
        return false;
    }
    let expected = slice_subrange(tag.as_slice(), 0, mac.len());
    ct_eq(mac, expected) == 1
}

} // verus!
