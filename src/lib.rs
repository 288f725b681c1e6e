//! Passphrase-based key derivation: a memory-hard stretch of the passphrase
//! into a root secret, and a labelled expansion of that root into the keys
//! that the rest of the tool consumes.

pub mod crypto;
pub mod passphrase;
