//! The native functions that the library stands behind.

use vstd::prelude::*;

verus! {

/// A native function, as the host binds it to an implementation.
#[derive(Clone, Copy, Debug, PartialEq, Eq)]
pub enum NativeFunction {
    /// Verifies a halo2 proof.
    VerifyHalo2Proof,
    /// Hashes two 128-bit numbers with Poseidon.
    PoseidonHash,
}

} // verus!
