//! The BN254 group elements the verifier handles, and the group operations
//! it defers to `halo2curves`.
//!
//! Points are opaque here: the verifier never looks inside one. It only
//! carries them through its symbolic linear combinations and hands the final
//! multi-scalar multiplication and pairing to the curve library.

use crate::msm::MsmTerm;
use crate::scalar::Scalar;
use vstd::prelude::*;

verus! {

#[verifier::external_type_specification]
#[verifier::external_body]
pub struct ExG1(halo2curves::bn256::G1);

#[verifier::external_type_specification]
#[verifier::external_body]
pub struct ExG2Affine(halo2curves::bn256::G2Affine);

/// Relies on `Clone` for `halo2curves::bn256::G1`, a derived `Copy` type:
/// cloning yields the same point.
pub assume_specification[ <halo2curves::bn256::G1 as Clone>::clone ](
    p: &halo2curves::bn256::G1,
) -> (r: halo2curves::bn256::G1)
    ensures
        r == *p,
;

/// The negation of a point. Points are opaque here, so the group inverse is
/// named rather than written out; `point_neg` computes it.
pub uninterp spec fn neg_of(p: halo2curves::bn256::G1) -> halo2curves::bn256::G1;

/// What a term list evaluates to: the group element
/// `sum coeff_i * base_i`, with each coefficient taken in the scalar field.
/// Named rather than written out — `msm_eval` computes it; the deferred
/// pairing identity is stated over it.
pub uninterp spec fn msm_of(
    ts: Seq<(nat, halo2curves::bn256::G1)>,
) -> halo2curves::bn256::G1;

/// The outcome of the deferred pairing identity `e(a, s_g2) == e(b, g2)`.
/// Named rather than written out; `pairing_check` computes it.
pub uninterp spec fn pairing_ok(
    a: halo2curves::bn256::G1,
    b: halo2curves::bn256::G1,
    s_g2: halo2curves::bn256::G2Affine,
    g2: halo2curves::bn256::G2Affine,
) -> bool;

/// Relies on `Neg` for `halo2curves::bn256::G1`: point negation, a function
/// of the point alone.
#[verifier::external_body]
pub(crate) fn point_neg(p: &halo2curves::bn256::G1) -> (r: halo2curves::bn256::G1)
    ensures
        r == neg_of(*p),
{
    -p
}

/// The public parameters the verifier needs: the designated base generator
/// `g0` of the trusted setup (with its negation, used to subtract claimed
/// values from the commitment side), and the two G2 elements of the
/// verifying key, `s_g2 = [s]_2` and `g2 = [1]_2`.
///
/// Immutable and shared by reference across all verifications.
pub struct ParamsKzg {
    pub g0: halo2curves::bn256::G1,
    pub neg_g0: halo2curves::bn256::G1,
    pub s_g2: halo2curves::bn256::G2Affine,
    pub g2: halo2curves::bn256::G2Affine,
}

impl ParamsKzg {
    pub fn new(
        g0: halo2curves::bn256::G1,
        s_g2: halo2curves::bn256::G2Affine,
        g2: halo2curves::bn256::G2Affine,
    ) -> (r: Self)
        ensures
            r.g0 == g0,
            r.neg_g0 == neg_of(g0),
            r.s_g2 == s_g2,
            r.g2 == g2,
    {
        let neg_g0 = point_neg(&g0);
        ParamsKzg { g0, neg_g0, s_g2, g2 }
    }
}

/// Relies on `halo2curves::msm::msm_serial` (into an accumulator started at
/// `Group::identity`): one multi-scalar multiplication evaluating
/// `sum coeff_i * base_i` over all accumulated terms. Serial, so the result
/// depends on the term values alone; its bucket sums go through the curve's
/// complete addition formulas, which handle the identity point, so it is
/// total — a commitment to the zero polynomial or the witness of a constant
/// one is an identity base, and must be summed, not refused.
#[verifier::external_body]
pub(crate) fn msm_eval(terms: &Vec<MsmTerm>) -> (r: halo2curves::bn256::G1)
    ensures
        r == msm_of(crate::msm::terms_value(terms@)),
{
    let coeffs: Vec<halo2curves::bn256::Fr> = terms
        .iter()
        .map(|t| halo2curves::bn256::Fr::from_raw([t.coeff.l0, t.coeff.l1, t.coeff.l2, t.coeff.l3]))
        .collect();
    let bases: Vec<halo2curves::bn256::G1Affine> =
        terms.iter().map(|t| group::Curve::to_affine(&t.base)).collect();
    let mut acc = <halo2curves::bn256::G1 as group::Group>::identity();
    halo2curves::msm::msm_serial(&coeffs, &bases, &mut acc);
    acc
}

/// Relies on the BN254 pairing (`Bn256::pairing` from `halo2curves`):
/// returns whether e(a, s_g2) == e(b, g2), the deferred opening identity of
/// the commitment scheme. The outcome depends on the four points alone.
#[verifier::external_body]
pub(crate) fn pairing_check(
    a: &halo2curves::bn256::G1,
    b: &halo2curves::bn256::G1,
    s_g2: &halo2curves::bn256::G2Affine,
    g2: &halo2curves::bn256::G2Affine,
) -> (r: bool)
    ensures
        r == pairing_ok(*a, *b, *s_g2, *g2),
{
    let a_aff = group::Curve::to_affine(a);
    let b_aff = group::Curve::to_affine(b);
    let lhs = <halo2curves::bn256::Bn256 as halo2curves::pairing::Engine>::pairing(&a_aff, s_g2);
    let rhs = <halo2curves::bn256::Bn256 as halo2curves::pairing::Engine>::pairing(&b_aff, g2);
    lhs == rhs
}

/// Relies on `ff::Field::random` for `Fr` with entropy from
/// `rand_core::OsRng`: some canonically represented field element; nothing
/// is promised about which one.
#[verifier::external_body]
pub(crate) fn entropy_scalar() -> (r: Scalar)
    ensures
        r.wf(),
{
    let f = <halo2curves::bn256::Fr as ff::Field>::random(rand_core::OsRng);
    let c = f.to_bytes();
    Scalar {
        l0: u64::from_le_bytes(c[0..8].try_into().unwrap()),
        l1: u64::from_le_bytes(c[8..16].try_into().unwrap()),
        l2: u64::from_le_bytes(c[16..24].try_into().unwrap()),
        l3: u64::from_le_bytes(c[24..32].try_into().unwrap()),
    }
}

} // verus!
