//! The Poseidon hash native: under which name it is registered, with which
//! domain it hashes, and how its digest becomes a 256-bit number.

use crate::natives::NativeFunction;
use crate::traced_value::U256;
use vstd::bytes::spec_u128_from_le_bytes;
use vstd::prelude::*;

verus! {

/// Domain spec for Poseidon hash.
pub const DOMAIN_SPEC: u64 = 1;

/// The 256-bit number whose 32 bytes, least significant first, are the
/// digest `repr`.
pub fn hash_value(repr: &[u8; 32]) -> (r: U256)
    ensures
        r.lo == spec_u128_from_le_bytes(repr@.subrange(0, 16)),
        r.hi == spec_u128_from_le_bytes(repr@.subrange(16, 32)),
{
    U256::from_le_bytes(repr)
}

/// The natives of this module, each with the name under which it is
/// registered.
pub fn make_all() -> (r: Vec<(String, NativeFunction)>)
    ensures
        r@.len() == 1,
        r@[0].0@ == "poseidon_hash"@,
        r@[0].1 == NativeFunction::PoseidonHash,
{
    let mut natives: Vec<(String, NativeFunction)> = Vec::new();
    natives.push(("poseidon_hash".to_owned(), NativeFunction::PoseidonHash));
    natives
}

} // verus!
