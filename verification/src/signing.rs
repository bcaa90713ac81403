//! Signing: the errors of a signer and the handling of what the Sawtooth
//! signing context hands back.

pub mod sawtooth;

use vstd::prelude::*;

verus! {

/// The errors of a signer.
pub enum Error {
    /// Signing, or reading the key to sign with, failed; the text says why.
    SigningError(String),
}

} // verus!
