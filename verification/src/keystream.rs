//! AES-128 in counter mode, computed by the `ctr` crate.

use crate::bytes::xor_bytes;
use aes::Aes128;
use cipher::stream::{NewStreamCipher, SyncStreamCipher};
use ctr::Ctr128;
use vstd::prelude::*;

verus! {

/// The first `len` bytes of the counter-mode keystream that AES-128 gives
/// under `key` when the counter starts at the block `iv`.
///
/// The bytes are whatever the `ctr` crate generates; nothing here depends on
/// how, only on their being a function of key, start block and length.
pub uninterp spec fn aes128_ctr_keystream(key: Seq<u8>, iv: Seq<u8>, len: nat) -> Seq<u8>;

/// Applies the keystream of `ctr::Ctr128<aes::Aes128>` to `data` in place.
///
/// Trusted: the cipher is made by `NewStreamCipher::new` from `key` and `iv`
/// and run once over the buffer by `SyncStreamCipher::apply_keystream`, which
/// is documented to exclusive-or the generated keystream into the data. A
/// fresh cipher starts at counter zero, so the call cannot reach the end of
/// the keystream and does not panic.
#[verifier::external_body]
pub(crate) fn apply_ctr_keystream(key: &[u8; 16], iv: &[u8; 16], data: &mut [u8])
    ensures
        final(data)@ == xor_bytes(old(data)@, aes128_ctr_keystream(key@, iv@, old(data)@.len())),
{
    let mut cipher = Ctr128::<Aes128>::new(key.into(), iv.into());
    cipher.apply_keystream(data);
}

} // verus!
