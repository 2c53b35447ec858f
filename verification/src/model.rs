//! What EAX computes, stated over byte sequences.
//!
//! Two functions are given from outside: the OMAC1 code of a message and the
//! counter-mode keystream of AES-128. Everything else is defined from them.

use crate::bytes::xor_bytes;
use crate::keystream::aes128_ctr_keystream;
use crate::omac::{aes128_omac, BLOCK_SIZE};
use crate::tag::{combined, passes};
use vstd::prelude::*;

verus! {

/// The block that separates domain `t`: fifteen zero bytes, then `t`.
pub open spec fn domain_block(t: u8) -> Seq<u8> {
    Seq::new(BLOCK_SIZE as nat, |i: int| if i == BLOCK_SIZE - 1 { t } else { 0u8 })
}

/// The code of `msg` in domain `t`: one OMAC1 computation over the domain
/// block followed by the message.
pub open spec fn domain_mac(key: Seq<u8>, t: u8, msg: Seq<u8>) -> Seq<u8> {
    aes128_omac(key, domain_block(t) + msg)
}

/// The code of the nonce, which also seeds the counter.
pub open spec fn nonce_mac(key: Seq<u8>, nonce: Seq<u8>) -> Seq<u8> {
    domain_mac(key, 0, nonce)
}

/// The code of the associated data.
pub open spec fn header_mac(key: Seq<u8>, header: Seq<u8>) -> Seq<u8> {
    domain_mac(key, 1, header)
}

/// The code of the ciphertext.
pub open spec fn ciphertext_mac(key: Seq<u8>, ciphertext: Seq<u8>) -> Seq<u8> {
    domain_mac(key, 2, ciphertext)
}

/// What the counter-mode transform makes of `data` under `key` and `nonce`.
///
/// The transform is its own inverse, so this is the ciphertext of a plaintext
/// and the plaintext of a ciphertext alike.
pub open spec fn transformed(key: Seq<u8>, nonce: Seq<u8>, data: Seq<u8>) -> Seq<u8> {
    xor_bytes(data, aes128_ctr_keystream(key, nonce_mac(key, nonce), data.len()))
}

/// The full tag that authenticates nonce, header and ciphertext together.
pub open spec fn tag_of(key: Seq<u8>, nonce: Seq<u8>, header: Seq<u8>, ciphertext: Seq<u8>) -> Seq<
    u8,
> {
    combined(nonce_mac(key, nonce), header_mac(key, header), ciphertext_mac(key, ciphertext))
}

/// Whether `mac` authenticates nonce, header and ciphertext: it is the full
/// tag or a truncation of it.
pub open spec fn authentic(
    key: Seq<u8>,
    nonce: Seq<u8>,
    header: Seq<u8>,
    ciphertext: Seq<u8>,
    mac: Seq<u8>,
) -> bool {
    passes(mac, tag_of(key, nonce, header, ciphertext))
}

/// Whether `ciphertext` and `tag` are what encrypting `plaintext` under
/// `key`, `nonce` and `header` gives.
pub open spec fn encrypts_to(
    key: Seq<u8>,
    nonce: Seq<u8>,
    header: Seq<u8>,
    plaintext: Seq<u8>,
    ciphertext: Seq<u8>,
    tag: Seq<u8>,
) -> bool {
    &&& ciphertext == transformed(key, nonce, plaintext)
    &&& tag == tag_of(key, nonce, header, ciphertext)
}

} // verus!
