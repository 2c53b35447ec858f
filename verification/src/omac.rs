//! OMAC1 (CMAC) over AES-128, computed by the `cmac` crate.

use aes::Aes128;
use cmac::{Cmac, Mac, NewMac};
use vstd::prelude::*;

verus! {

/// Length in bytes of an AES-128 key.
pub const KEY_SIZE: usize = 16;

/// Length in bytes of an AES block, which is also the length of an OMAC1 code.
pub const BLOCK_SIZE: usize = 16;

/// The OMAC1 code of `msg` under the AES-128 key `key`.
///
/// The code is whatever the `cmac` crate computes for these bytes; nothing
/// here depends on how it is computed, only on its being a function of the
/// key and the message.
pub uninterp spec fn aes128_omac(key: Seq<u8>, msg: Seq<u8>) -> Seq<u8>;

/// Runs one OMAC1 computation of `cmac::Cmac<aes::Aes128>` over `prefix`
/// followed by `msg`.
///
/// Trusted: the state is made by `NewMac::new` from `key`, fed by
/// `Mac::update` first with `prefix` and then with `msg`, and closed by
/// `Mac::finalize`. The contract claims that feeding the two pieces one after
/// the other gives the code of their concatenation, which is how `update`
/// buffers its input, and that the code is a function of key and message.
#[verifier::external_body]
pub(crate) fn omac_with_prefix(key: &[u8; 16], prefix: &[u8; 16], msg: &[u8]) -> (code: [u8; 16])
    ensures
        code@ == aes128_omac(key@, prefix@ + msg@),
{
    let mut mac = Cmac::<Aes128>::new(key.into());
    mac.update(prefix);
    mac.update(msg);
    mac.finalize().into_bytes().into()
}

} // verus!
