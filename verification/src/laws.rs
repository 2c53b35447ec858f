//! What holds of EAX whatever the key, the nonce, the header and the data.

use crate::bytes::lemma_xor_bytes_cancels;
use crate::keystream::aes128_ctr_keystream;
use crate::model::{authentic, encrypts_to, nonce_mac, tag_of, transformed};
use crate::tag::TAG_SIZE;
use vstd::prelude::*;

verus! {

/// The counter-mode transform undoes itself: applied to what it made of
/// `data`, under the same key and nonce, it gives `data` back.
pub proof fn lemma_transform_is_involution(key: Seq<u8>, nonce: Seq<u8>, data: Seq<u8>)
    ensures
        transformed(key, nonce, transformed(key, nonce, data)) == data,
{
    let stream = aes128_ctr_keystream(key, nonce_mac(key, nonce), data.len());
    lemma_xor_bytes_cancels(data, stream);
}

/// Round trip: what encryption returns, decryption accepts, and it recovers
/// exactly the plaintext.
///
/// If `ciphertext` and `tag` are the result of encrypting `plaintext` under
/// `key`, `nonce` and `header`, then `tag` authenticates the ciphertext
/// under the same key, nonce and header, and the transform that decryption
/// then applies turns the ciphertext into `plaintext`.
pub proof fn lemma_round_trip(
    key: Seq<u8>,
    nonce: Seq<u8>,
    header: Seq<u8>,
    plaintext: Seq<u8>,
    ciphertext: Seq<u8>,
    tag: Seq<u8>,
)
    requires
        encrypts_to(key, nonce, header, plaintext, ciphertext, tag),
    ensures
        authentic(key, nonce, header, ciphertext, tag),
        transformed(key, nonce, ciphertext) == plaintext,
{
    assert(tag.subrange(0, tag.len() as int) =~= tag);
    lemma_transform_is_involution(key, nonce, plaintext);
}

/// Determinism: two encryptions of the same plaintext under the same key,
/// nonce and header give the same ciphertext and the same tag.
pub proof fn lemma_encryption_is_deterministic(
    key: Seq<u8>,
    nonce: Seq<u8>,
    header: Seq<u8>,
    plaintext: Seq<u8>,
    ciphertext1: Seq<u8>,
    tag1: Seq<u8>,
    ciphertext2: Seq<u8>,
    tag2: Seq<u8>,
)
    requires
        encrypts_to(key, nonce, header, plaintext, ciphertext1, tag1),
        encrypts_to(key, nonce, header, plaintext, ciphertext2, tag2),
    ensures
        ciphertext1 == ciphertext2,
        tag1 == tag2,
{
}

/// Encryption keeps the length of the data, and the tag has the full width.
pub proof fn lemma_encryption_lengths(
    key: Seq<u8>,
    nonce: Seq<u8>,
    header: Seq<u8>,
    plaintext: Seq<u8>,
    ciphertext: Seq<u8>,
    tag: Seq<u8>,
)
    requires
        encrypts_to(key, nonce, header, plaintext, ciphertext, tag),
    ensures
        ciphertext.len() == plaintext.len(),
        tag.len() == TAG_SIZE,
{
}

/// Truncated tags: a `mac` is accepted if and only if it is no longer than
/// the full tag and agrees with it byte for byte over its own length.
pub proof fn lemma_authentic_iff_prefix_agrees(
    key: Seq<u8>,
    nonce: Seq<u8>,
    header: Seq<u8>,
    ciphertext: Seq<u8>,
    mac: Seq<u8>,
)
    ensures
        authentic(key, nonce, header, ciphertext, mac) <==> {
            &&& mac.len() <= TAG_SIZE
            &&& forall|i: int|
                0 <= i < mac.len() ==> mac[i] == #[trigger] tag_of(
                    key,
                    nonce,
                    header,
                    ciphertext,
                )[i]
        },
{
    let tag = tag_of(key, nonce, header, ciphertext);
    if mac.len() <= TAG_SIZE {
        let prefix = tag.subrange(0, mac.len() as int);
        if authentic(key, nonce, header, ciphertext, mac) {
            assert forall|i: int| 0 <= i < mac.len() implies mac[i] == tag[i] by {
                assert(mac[i] == prefix[i]);
            }
        }
        if forall|i: int| 0 <= i < mac.len() ==> mac[i] == tag[i] {
            assert(mac =~= prefix);
        }
    }
}

/// Every truncation of the full tag is accepted, down to the empty one.
pub proof fn lemma_truncated_tag_is_authentic(
    key: Seq<u8>,
    nonce: Seq<u8>,
    header: Seq<u8>,
    ciphertext: Seq<u8>,
    len: nat,
)
    requires
        len <= TAG_SIZE,
    ensures
        authentic(
            key,
            nonce,
            header,
            ciphertext,
            tag_of(key, nonce, header, ciphertext).take(len as int),
        ),
{
    let tag = tag_of(key, nonce, header, ciphertext);
    assert(tag.take(len as int).subrange(0, len as int) =~= tag.take(len as int));
}

/// A changed tag is rejected: of all byte strings of one length at most one
/// authenticates a given nonce, header and ciphertext, so a tag that
/// was accepted is not accepted any more once any of its bits is flipped.
pub proof fn lemma_authentic_mac_is_unique(
    key: Seq<u8>,
    nonce: Seq<u8>,
    header: Seq<u8>,
    ciphertext: Seq<u8>,
    mac1: Seq<u8>,
    mac2: Seq<u8>,
)
    requires
        authentic(key, nonce, header, ciphertext, mac1),
        authentic(key, nonce, header, ciphertext, mac2),
        mac1.len() == mac2.len(),
    ensures
        mac1 == mac2,
{
}

} // verus!
