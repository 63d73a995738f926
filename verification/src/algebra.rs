//! Exponentiation in the algebraic structures that support it.
//!
//! An element is held by the canonical integers of its coefficients over the
//! base prime field, each as 64-bit limbs, least significant limb first. The
//! arithmetic itself is done by `ark_ff` and the curve crates.

use ark_ff::{BigInt, Field, PrimeField};
use vstd::prelude::*;

verus! {

/// The algebraic structures that elements can belong to.
#[derive(Clone, Copy, Debug, PartialEq, Eq)]
pub enum Structure {
    BLS12381G1,
    BLS12381G2,
    BLS12381Gt,
    BLS12381Fr,
    BLS12381Fq12,
    BN254G1,
    BN254G2,
    BN254Gt,
    BN254Fr,
    BN254Fq,
    BN254Fq12,
}

/// An element of a field in which exponentiation is offered.
#[derive(Clone, Debug, PartialEq, Eq)]
pub enum FieldElement {
    /// An element of the scalar field of BLS12-381.
    BLS12381Fr([u64; 4]),
    /// An element of the degree-12 extension of the base field of BLS12-381:
    /// twelve coefficients.
    BLS12381Fq12(Vec<[u64; 6]>),
    /// An element of the scalar field of BN254.
    BN254Fr([u64; 4]),
    /// An element of the base field of BN254.
    BN254Fq([u64; 4]),
    /// An element of the degree-12 extension of the base field of BN254:
    /// twelve coefficients.
    BN254Fq12(Vec<[u64; 4]>),
}

/// Why an exponentiation was not done.
#[derive(Clone, Copy, Debug, PartialEq, Eq)]
pub enum PowAbort {
    /// The structure is unknown, or it offers no exponentiation.
    NotImplemented,
    /// The element does not belong to the structure asked for, or it is not
    /// held in canonical form.
    InvariantViolated,
}

/// The structure that `element` belongs to.
pub open spec fn structure_of(element: FieldElement) -> Structure {
    match element {
        FieldElement::BLS12381Fr(_) => Structure::BLS12381Fr,
        FieldElement::BLS12381Fq12(_) => Structure::BLS12381Fq12,
        FieldElement::BN254Fr(_) => Structure::BN254Fr,
        FieldElement::BN254Fq(_) => Structure::BN254Fq,
        FieldElement::BN254Fq12(_) => Structure::BN254Fq12,
    }
}

/// The structure offers exponentiation.
pub open spec fn offers_pow(structure: Structure) -> bool {
    ||| structure is BLS12381Fr
    ||| structure is BLS12381Fq12
    ||| structure is BN254Fr
    ||| structure is BN254Fq
    ||| structure is BN254Fq12
}

/// The limbs of each coefficient of an element of an extension field.
pub open spec fn coefficients<const N: usize>(element: Seq<[u64; N]>) -> Seq<Seq<u64>> {
    element.map_values(|limbs: [u64; N]| limbs@)
}

/// The power `base ^ exponent` in the scalar field of BLS12-381, where
/// `base` is canonical.
pub uninterp spec fn bls12381_fr_power(base: Seq<u64>, exponent: Seq<u64>) -> Option<Seq<u64>>;

/// The power `base ^ exponent` in the degree-12 extension field of
/// BLS12-381, where `base` has twelve canonical coefficients.
pub uninterp spec fn bls12381_fq12_power(base: Seq<Seq<u64>>, exponent: Seq<u64>) -> Option<
    Seq<Seq<u64>>,
>;

/// The power `base ^ exponent` in the scalar field of BN254, where `base`
/// is canonical.
pub uninterp spec fn bn254_fr_power(base: Seq<u64>, exponent: Seq<u64>) -> Option<Seq<u64>>;

/// The power `base ^ exponent` in the base field of BN254, where `base` is
/// canonical.
pub uninterp spec fn bn254_fq_power(base: Seq<u64>, exponent: Seq<u64>) -> Option<Seq<u64>>;

/// The power `base ^ exponent` in the degree-12 extension field of BN254,
/// where `base` has twelve canonical coefficients.
pub uninterp spec fn bn254_fq12_power(base: Seq<Seq<u64>>, exponent: Seq<u64>) -> Option<
    Seq<Seq<u64>>,
>;

/// Calls `ark_ff::Field::pow` on an element of `ark_bls12_381::Fr`, made
/// from `base` by `PrimeField::from_bigint` and turned back into limbs by
/// `PrimeField::into_bigint`. Claimed: the answer depends on `base` and
/// `exponent` alone. Not claimed: what the power is, nor for which `base` there
/// is one.
#[verifier::external_body]
fn bls12381_fr_pow(base: &[u64; 4], exponent: &Vec<u64>) -> (r: Option<[u64; 4]>)
    ensures
        match r {
            Some(limbs) => bls12381_fr_power(base@, exponent@) == Some(limbs@),
            None => bls12381_fr_power(base@, exponent@) is None,
        },
{
    let element = ark_bls12_381::Fr::from_bigint(BigInt::new(*base))?;
    Some(element.pow(exponent).into_bigint().0)
}

/// Calls `ark_ff::Field::pow` on an element of `ark_bls12_381::Fq12`, made
/// from the coefficients `base` by `PrimeField::from_bigint` and
/// `Field::from_base_prime_field_elems`, and turned back into coefficients by
/// `Field::to_base_prime_field_elements` and `PrimeField::into_bigint`.
/// Claimed: the answer depends on `base` and `exponent` alone.
#[verifier::external_body]
fn bls12381_fq12_pow(base: &Vec<[u64; 6]>, exponent: &Vec<u64>) -> (r: Option<Vec<[u64; 6]>>)
    ensures
        match r {
            Some(power) => bls12381_fq12_power(coefficients(base@), exponent@) == Some(
                coefficients(power@),
            ),
            None => bls12381_fq12_power(coefficients(base@), exponent@) is None,
        },
{
    let parts: Option<Vec<ark_bls12_381::Fq>> = base.iter().map(
        |limbs| ark_bls12_381::Fq::from_bigint(BigInt::new(*limbs)),
    ).collect();
    let element = ark_bls12_381::Fq12::from_base_prime_field_elems(&parts?)?;
    Some(element.pow(exponent).to_base_prime_field_elements().map(|c| c.into_bigint().0).collect())
}

/// Calls `ark_ff::Field::pow` on an element of `ark_bn254::Fr`, made from
/// `base` by `PrimeField::from_bigint` and turned back into limbs by
/// `PrimeField::into_bigint`. Claimed: the answer depends on `base` and
/// `exponent` alone.
#[verifier::external_body]
fn bn254_fr_pow(base: &[u64; 4], exponent: &Vec<u64>) -> (r: Option<[u64; 4]>)
    ensures
        match r {
            Some(limbs) => bn254_fr_power(base@, exponent@) == Some(limbs@),
            None => bn254_fr_power(base@, exponent@) is None,
        },
{
    let element = ark_bn254::Fr::from_bigint(BigInt::new(*base))?;
    Some(element.pow(exponent).into_bigint().0)
}

/// Calls `ark_ff::Field::pow` on an element of `ark_bn254::Fq`, made from
/// `base` by `PrimeField::from_bigint` and turned back into limbs by
/// `PrimeField::into_bigint`. Claimed: the answer depends on `base` and
/// `exponent` alone.
#[verifier::external_body]
fn bn254_fq_pow(base: &[u64; 4], exponent: &Vec<u64>) -> (r: Option<[u64; 4]>)
    ensures
        match r {
            Some(limbs) => bn254_fq_power(base@, exponent@) == Some(limbs@),
            None => bn254_fq_power(base@, exponent@) is None,
        },
{
    let element = ark_bn254::Fq::from_bigint(BigInt::new(*base))?;
    Some(element.pow(exponent).into_bigint().0)
}

/// Calls `ark_ff::Field::pow` on an element of `ark_bn254::Fq12`, made from
/// the coefficients `base` by `PrimeField::from_bigint` and
/// `Field::from_base_prime_field_elems`, and turned back into coefficients by
/// `Field::to_base_prime_field_elements` and `PrimeField::into_bigint`.
/// Claimed: the answer depends on `base` and `exponent` alone.
#[verifier::external_body]
fn bn254_fq12_pow(base: &Vec<[u64; 4]>, exponent: &Vec<u64>) -> (r: Option<Vec<[u64; 4]>>)
    ensures
        match r {
            Some(power) => bn254_fq12_power(coefficients(base@), exponent@) == Some(
                coefficients(power@),
            ),
            None => bn254_fq12_power(coefficients(base@), exponent@) is None,
        },
{
    let parts: Option<Vec<ark_bn254::Fq>> = base.iter().map(
        |limbs| ark_bn254::Fq::from_bigint(BigInt::new(*limbs)),
    ).collect();
    let element = ark_bn254::Fq12::from_base_prime_field_elems(&parts?)?;
    Some(element.pow(exponent).to_base_prime_field_elements().map(|c| c.into_bigint().0).collect())
}

/// The structure in which `element` is to be raised to a power: the one
/// asked for, where it offers exponentiation and `element` belongs to it.
pub open spec fn pow_structure_of(structure_opt: Option<Structure>, element: FieldElement) -> Result<
    Structure,
    PowAbort,
> {
    match structure_opt {
        Some(structure) if offers_pow(structure) => if structure_of(element) == structure {
            Ok(structure)
        } else {
            Err(PowAbort::InvariantViolated)
        },
        _ => Err(PowAbort::NotImplemented),
    }
}

/// Decides, before anything is charged or computed, whether `element` can
/// be raised to a power in the structure `structure_opt`.
pub fn pow_structure(structure_opt: Option<Structure>, element: &FieldElement) -> (r: Result<
    Structure,
    PowAbort,
>)
    ensures
        r == pow_structure_of(structure_opt, *element),
{
    match structure_opt {
        Some(Structure::BLS12381Fr) => match element {
            FieldElement::BLS12381Fr(_) => Ok(Structure::BLS12381Fr),
            _ => Err(PowAbort::InvariantViolated),
        },
        Some(Structure::BLS12381Fq12) => match element {
            FieldElement::BLS12381Fq12(_) => Ok(Structure::BLS12381Fq12),
            _ => Err(PowAbort::InvariantViolated),
        },
        Some(Structure::BN254Fr) => match element {
            FieldElement::BN254Fr(_) => Ok(Structure::BN254Fr),
            _ => Err(PowAbort::InvariantViolated),
        },
        Some(Structure::BN254Fq) => match element {
            FieldElement::BN254Fq(_) => Ok(Structure::BN254Fq),
            _ => Err(PowAbort::InvariantViolated),
        },
        Some(Structure::BN254Fq12) => match element {
            FieldElement::BN254Fq12(_) => Ok(Structure::BN254Fq12),
            _ => Err(PowAbort::InvariantViolated),
        },
        _ => Err(PowAbort::NotImplemented),
    }
}

/// What an exponentiation that was asked of the arithmetic yields: the power
/// where there is one, else a violated invariant.
pub fn powered(power: Option<FieldElement>) -> (r: Result<FieldElement, PowAbort>)
    ensures
        r == match power {
            Some(element) => Ok::<FieldElement, PowAbort>(element),
            None => Err::<FieldElement, PowAbort>(PowAbort::InvariantViolated),
        },
{
    match power {
        Some(element) => Ok(element),
        None => Err(PowAbort::InvariantViolated),
    }
}

/// Raises `element` to the power `exp_limbs`, an integer in 64-bit limbs,
/// least significant first, in the structure `structure_opt`.
///
/// A structure that is unknown or offers no exponentiation is refused as not
/// implemented, whatever the element. An element of another structure, or one
/// for which the arithmetic has no power, violates an invariant.
pub fn pow_internal(
    structure_opt: Option<Structure>,
    element: &FieldElement,
    exp_limbs: &Vec<u64>,
) -> (r: Result<FieldElement, PowAbort>)
    ensures
        match structure_opt {
            Some(structure) if offers_pow(structure) => if structure_of(*element) != structure {
                r == Err::<FieldElement, PowAbort>(PowAbort::InvariantViolated)
            } else {
                match *element {
                    FieldElement::BLS12381Fr(base) => match bls12381_fr_power(base@, exp_limbs@) {
                        Some(limbs) => r matches Ok(FieldElement::BLS12381Fr(power)) && power@
                            == limbs,
                        None => r == Err::<FieldElement, PowAbort>(PowAbort::InvariantViolated),
                    },
                    FieldElement::BLS12381Fq12(base) => match bls12381_fq12_power(
                        coefficients(base@),
                        exp_limbs@,
                    ) {
                        Some(parts) => r matches Ok(FieldElement::BLS12381Fq12(power))
                            && coefficients(power@) == parts,
                        None => r == Err::<FieldElement, PowAbort>(PowAbort::InvariantViolated),
                    },
                    FieldElement::BN254Fr(base) => match bn254_fr_power(base@, exp_limbs@) {
                        Some(limbs) => r matches Ok(FieldElement::BN254Fr(power)) && power@
                            == limbs,
                        None => r == Err::<FieldElement, PowAbort>(PowAbort::InvariantViolated),
                    },
                    FieldElement::BN254Fq(base) => match bn254_fq_power(base@, exp_limbs@) {
                        Some(limbs) => r matches Ok(FieldElement::BN254Fq(power)) && power@
                            == limbs,
                        None => r == Err::<FieldElement, PowAbort>(PowAbort::InvariantViolated),
                    },
                    FieldElement::BN254Fq12(base) => match bn254_fq12_power(
                        coefficients(base@),
                        exp_limbs@,
                    ) {
                        Some(parts) => r matches Ok(FieldElement::BN254Fq12(power))
                            && coefficients(power@) == parts,
                        None => r == Err::<FieldElement, PowAbort>(PowAbort::InvariantViolated),
                    },
                }
            },
            _ => r == Err::<FieldElement, PowAbort>(PowAbort::NotImplemented),
        },
{
    match structure_opt {
        Some(Structure::BLS12381Fr) => match element {
            FieldElement::BLS12381Fr(base) => powered(
                match bls12381_fr_pow(base, exp_limbs) {
                    Some(power) => Some(FieldElement::BLS12381Fr(power)),
                    None => None,
                },
            ),
            _ => Err(PowAbort::InvariantViolated),
        },
        Some(Structure::BLS12381Fq12) => match element {
            FieldElement::BLS12381Fq12(base) => powered(
                match bls12381_fq12_pow(base, exp_limbs) {
                    Some(power) => Some(FieldElement::BLS12381Fq12(power)),
                    None => None,
                },
            ),
            _ => Err(PowAbort::InvariantViolated),
        },
        Some(Structure::BN254Fr) => match element {
            FieldElement::BN254Fr(base) => powered(
                match bn254_fr_pow(base, exp_limbs) {
                    Some(power) => Some(FieldElement::BN254Fr(power)),
                    None => None,
                },
            ),
            _ => Err(PowAbort::InvariantViolated),
        },
        Some(Structure::BN254Fq) => match element {
            FieldElement::BN254Fq(base) => powered(
                match bn254_fq_pow(base, exp_limbs) {
                    Some(power) => Some(FieldElement::BN254Fq(power)),
                    None => None,
                },
            ),
            _ => Err(PowAbort::InvariantViolated),
        },
        Some(Structure::BN254Fq12) => match element {
            FieldElement::BN254Fq12(base) => powered(
                match bn254_fq12_pow(base, exp_limbs) {
                    Some(power) => Some(FieldElement::BN254Fq12(power)),
                    None => None,
                },
            ),
            _ => Err(PowAbort::InvariantViolated),
        },
        _ => Err(PowAbort::NotImplemented),
    }
}

} // verus!
