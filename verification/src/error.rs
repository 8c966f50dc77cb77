//! Why a request is turned away.

use vstd::prelude::*;

verus! {

/// The ways in which input is rejected or authorization denied.
#[derive(Clone, Copy, Debug, PartialEq, Eq, Structural)]
pub enum AccessError {
    /// A buffer does not have the fixed length required of it.
    MalformedInput,
    /// The caller is not on the allow-list and offers no proof.
    Unauthorized,
    /// The proof engine rejected the proof, or failed.
    VerificationFailed,
    /// The nullifier of the proof has been recorded before.
    ReplayDetected,
}

} // verus!
