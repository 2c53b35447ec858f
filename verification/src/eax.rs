//! The two operations of EAX: authenticated encryption and authenticated
//! decryption.

use crate::keystream::apply_ctr_keystream;
use crate::model::{authentic, domain_block, domain_mac, encrypts_to, transformed};
use crate::omac::omac_with_prefix;
use crate::tag::{combine, verify, TAG_SIZE};
use vstd::prelude::*;

verus! {

/// The supplied tag does not authenticate nonce, header and ciphertext.
#[derive(Debug, Clone, Copy, PartialEq, Eq)]
pub struct AuthenticationFailure;

/// Length in bytes of a nonce, which is that of the key.
pub const NONCE_SIZE: usize = 16;

/// EAX over AES-128.
///
/// Key and nonce are sixteen bytes each; header and data may have any
/// length. Nothing is kept between calls.
pub struct Eax;

impl Eax {
    /// Encrypts `data` in place and returns the tag that authenticates the
    /// nonce, the header and the resulting ciphertext together.
    pub fn encrypt(key: &[u8; 16], nonce: &[u8; 16], header: &[u8], data: &mut [u8]) -> (tag: [
        u8;
        16
    ])
        ensures
            encrypts_to(key@, nonce@, header@, old(data)@, final(data)@, tag@),
    {
        let n = Self::cmac_with_iv(key, 0, nonce.as_slice());
        let h = Self::cmac_with_iv(key, 1, header);
        apply_ctr_keystream(key, &n, data);
        let c = Self::cmac_with_iv(key, 2, data);
        combine(&n, &h, &c)
    }

    /// Checks `mac` against nonce, header and the ciphertext in `data`, and
    /// decrypts `data` in place only if it passes.
    ///
    /// The `mac` may be a truncation of the full tag. On failure `data` is
    /// left as it was.
    pub fn decrypt(
        key: &[u8; 16],
        nonce: &[u8; 16],
        header: &[u8],
        data: &mut [u8],
        mac: &[u8],
    ) -> (res: Result<(), AuthenticationFailure>)
        requires
            mac@.len() <= TAG_SIZE,
        ensures
            res is Ok <==> authentic(key@, nonce@, header@, old(data)@, mac@),
            res is Ok ==> final(data)@ == transformed(key@, nonce@, old(data)@),
            res is Err ==> final(data)@ == old(data)@,
    {
        let n = Self::cmac_with_iv(key, 0, nonce.as_slice());
        let h = Self::cmac_with_iv(key, 1, header);
        let c = Self::cmac_with_iv(key, 2, data);
        let expected = combine(&n, &h, &c);
        if !verify(mac, &expected) {
            return Err(AuthenticationFailure);
        }
        apply_ctr_keystream(key, &n, data);
        Ok(())
    }

    /// The OMAC1 code of `data` in domain `iv`.
    ///
    /// The domain block goes into the same computation as the data, ahead of
    /// it, so no buffer has to be built for the two.
    fn cmac_with_iv(key: &[u8; 16], iv: u8, data: &[u8]) -> (code: [u8; 16])
        ensures
            code@ == domain_mac(key@, iv, data@),
    {
        let prefix = domain_prefix(iv);
        omac_with_prefix(key, &prefix, data)
    }
}

/// The block that is fed to OMAC1 ahead of a message of domain `t`: fifteen
/// zero bytes, then `t`.
pub fn domain_prefix(t: u8) -> (block: [u8; 16])
    ensures
        block@ == domain_block(t),
{
    let mut block = [0u8; 16];
    block[15] = t;
    assert(block@ =~= domain_block(t));
    block
}

} // verus!
