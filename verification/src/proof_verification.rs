//! The proof-verification native: under which name it is registered, how
//! many bytes it charges for, and which circuit size it hands to the verifier.

use crate::natives::NativeFunction;
use vstd::prelude::*;

verus! {

/// The least number of bytes that a verification is charged for.
pub const MINIMUM_CHARGED_BYTES: u64 = 1024;

/// The bytes of the five inputs of a verification together.
pub open spec fn input_bytes(
    params: nat,
    vk_bytes: nat,
    circuit_info: nat,
    public_inputs: nat,
    proof: nat,
) -> nat {
    proof + circuit_info + public_inputs + vk_bytes + params
}

/// Number of bytes that a verification is charged for: the bytes of its five
/// inputs together, and at least one kilobyte. Nothing where the sum does not
/// fit in 64 bits.
pub fn charged_bytes(
    params: usize,
    vk_bytes: usize,
    circuit_info: usize,
    public_inputs: usize,
    proof: usize,
) -> (r: Option<u64>)
    ensures
        r == if input_bytes(
            params as nat,
            vk_bytes as nat,
            circuit_info as nat,
            public_inputs as nat,
            proof as nat,
        ) > u64::MAX {
            None::<u64>
        } else if input_bytes(
            params as nat,
            vk_bytes as nat,
            circuit_info as nat,
            public_inputs as nat,
            proof as nat,
        ) < MINIMUM_CHARGED_BYTES {
            Some(MINIMUM_CHARGED_BYTES)
        } else {
            Some(
                input_bytes(
                    params as nat,
                    vk_bytes as nat,
                    circuit_info as nat,
                    public_inputs as nat,
                    proof as nat,
                ) as u64,
            )
        },
{
    let total_bytes: u128 = proof as u128 + circuit_info as u128 + public_inputs as u128
        + vk_bytes as u128 + params as u128;
    if total_bytes > u64::MAX as u128 {
        None
    } else if total_bytes < MINIMUM_CHARGED_BYTES as u128 {
        // at least 1KB
        Some(MINIMUM_CHARGED_BYTES)
    } else {
        Some(total_bytes as u64)
    }
}

/// The circuit size that is handed to the verifier: `k` where the caller
/// gave one.
pub fn k_option(k: u32, k_present: bool) -> (r: Option<u32>)
    ensures
        r == if k_present {
            Some(k)
        } else {
            None::<u32>
        },
{
    if k_present {
        Some(k)
    } else {
        None
    }
}

/// The natives of this module, each with the name under which it is
/// registered.
pub fn make_all() -> (r: Vec<(String, NativeFunction)>)
    ensures
        r@.len() == 1,
        r@[0].0@ == "verify_halo2_proof"@,
        r@[0].1 == NativeFunction::VerifyHalo2Proof,
{
    let mut natives: Vec<(String, NativeFunction)> = Vec::new();
    natives.push(("verify_halo2_proof".to_owned(), NativeFunction::VerifyHalo2Proof));
    natives
}

} // verus!
