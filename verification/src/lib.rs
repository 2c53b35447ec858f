//! EAX authenticated encryption with associated data over AES-128.
//!
//! EAX combines counter-mode encryption with three OMAC1 computations that
//! are kept apart by a one-block domain prefix. The counter-mode keystream
//! and the OMAC1 code come from the RustCrypto crates; everything that EAX
//! itself decides is verified here: the domain separation, the tag
//! combination, the truncated tag comparison and the guarantee that a buffer
//! is only ever decrypted after its tag was accepted.

pub mod bytes;
pub mod eax;
pub mod keystream;
pub mod laws;
pub mod model;
pub mod omac;
pub mod tag;

pub use crate::eax::{domain_prefix, AuthenticationFailure, Eax, NONCE_SIZE};
pub use crate::omac::{BLOCK_SIZE, KEY_SIZE};
pub use crate::tag::TAG_SIZE;
