//! A deterministic host bridge for a pairing-based threshold cryptosystem.
//!
//! The bridge owns fixed-capacity byte buffers for a secret key, a public
//! key, a signature, a message and a ciphertext, plus a small queue of
//! caller-supplied 32-bit entropy words.  A caller fills the input buffers
//! one byte (or one word) at a time, invokes one of the five operations —
//! key derivation, signing, verification, encryption, decryption — and reads
//! the output buffer back byte by byte.  Only scalars cross the boundary.
//!
//! Encryption draws its randomness exclusively from the entropy queue, so
//! ciphertexts are reproducible run to run for identical inputs.

use vstd::prelude::*;

pub mod bridge;
pub mod entropy;
pub mod scheme;

pub use bridge::Bridge;
pub use bridge::BridgeError;
pub use entropy::EntropyQueue;

verus! {

/// Capacity of the secret-key buffer in bytes.
pub const SK_LEN: usize = 32;

/// Capacity of the public-key buffer in bytes.
pub const PK_LEN: usize = 48;

/// Capacity of the signature buffer in bytes.
pub const SIG_LEN: usize = 96;

/// Capacity of the message buffer in bytes (1 MiB plus 1 KiB).
pub const MSG_CAP: usize = 1_049_600;

/// Capacity of the ciphertext buffer in bytes (1 MiB plus 1 KiB).
pub const CT_CAP: usize = 1_049_600;

} // verus!
