use vstd::prelude::*;

verus! {

/// The ways an operation of this library can fail.
#[derive(Debug, Clone, Copy, PartialEq, Eq, Structural)]
pub enum Error {
    /// The requested global index lies outside the retained window.
    IndexOutOfBounds,
    /// No checkpoint is in the signing state.
    NoCheckpointToSign,
    /// The signer is not part of the signatory set, has signed before, or the
    /// signature does not verify.
    SignatureRejected,
    /// A registered extended public key yields no signing key for the
    /// checkpoint index.
    KeyDerivation,
}

} // verus!
