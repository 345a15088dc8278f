use ff::Field;
use halo2curves::bn256::{Fr, G1};
use kzg_multiopen::msm::MsmAccumulator;
use kzg_multiopen::multiopen::fold_group;
use kzg_multiopen::query::{CommitmentRef, OpeningQuery, PointGroup};
use kzg_multiopen::scalar::{scalar_from_u64, scalar_one, scalar_zero, Scalar};
use kzg_multiopen::strategy::{RandomSource, SplitMixSource};

fn fr_to_scalar(f: Fr) -> Scalar {
    let b = f.to_bytes();
    Scalar {
        l0: u64::from_le_bytes(b[0..8].try_into().unwrap()),
        l1: u64::from_le_bytes(b[8..16].try_into().unwrap()),
        l2: u64::from_le_bytes(b[16..24].try_into().unwrap()),
        l3: u64::from_le_bytes(b[24..32].try_into().unwrap()),
    }
}

fn query_with_eval(point: Scalar, eval: Scalar) -> OpeningQuery {
    OpeningQuery { point, commitment: CommitmentRef::Direct(G1::generator()), eval }
}

/// With `v = 1` the evaluation fold is a plain field sum.
#[test]
fn eval_fold_adds_in_the_field() {
    let p = scalar_from_u64(9);
    let group = PointGroup {
        point: p,
        queries: vec![query_with_eval(p, scalar_from_u64(3)), query_with_eval(p, scalar_from_u64(4))],
    };
    let (_, eval) = fold_group(&scalar_one(), &group).unwrap();
    assert_eq!(eval, scalar_from_u64(7));
}

/// Field addition wraps at the field order: (order - 1) + 1 == 0.
#[test]
fn eval_fold_wraps_at_field_order() {
    let p = scalar_from_u64(9);
    let minus_one = fr_to_scalar(Fr::zero() - Fr::one());
    let group = PointGroup {
        point: p,
        queries: vec![query_with_eval(p, minus_one), query_with_eval(p, scalar_one())],
    };
    let (_, eval) = fold_group(&scalar_one(), &group).unwrap();
    assert_eq!(eval, scalar_zero());
}

#[test]
fn msm_scale_multiplies_every_coefficient() {
    let g = G1::generator();
    let mut acc = MsmAccumulator::new();
    acc.append_term(scalar_from_u64(2), g);
    acc.append_term(scalar_from_u64(5), g * Fr::from(3u64));
    acc.scale(&scalar_from_u64(10));
    assert_eq!(acc.terms.len(), 2);
    assert_eq!(acc.terms[0].coeff, scalar_from_u64(20));
    assert_eq!(acc.terms[1].coeff, scalar_from_u64(50));
    assert_eq!(acc.terms[1].base, g * Fr::from(3u64));
}

/// Scaling agrees with the field's multiplication on large values too.
#[test]
fn msm_scale_matches_field_mul() {
    let a = Fr::zero() - Fr::from(0xdeadbeefu64);
    let b = Fr::zero() - Fr::from(12345u64);
    let mut acc = MsmAccumulator::new();
    acc.append_term(fr_to_scalar(a), G1::generator());
    acc.scale(&fr_to_scalar(b));
    assert_eq!(acc.terms[0].coeff, fr_to_scalar(a * b));
    assert_ne!(acc.terms[0].coeff, fr_to_scalar(a));
    assert_ne!(acc.terms[0].coeff, fr_to_scalar(b));
}

#[test]
fn msm_add_msm_concatenates_in_order() {
    let g = G1::generator();
    let mut a = MsmAccumulator::new();
    a.append_term(scalar_from_u64(1), g);
    let mut b = MsmAccumulator::new();
    b.append_term(scalar_from_u64(2), g * Fr::from(2u64));
    b.append_term(scalar_from_u64(3), g * Fr::from(3u64));
    a.add_msm(&b);
    assert_eq!(a.terms.len(), 3);
    assert_eq!(a.terms[0].coeff, scalar_from_u64(1));
    assert_eq!(a.terms[1].coeff, scalar_from_u64(2));
    assert_eq!(a.terms[2].coeff, scalar_from_u64(3));
}

#[test]
fn scale_on_zero_accumulator_keeps_it_zero() {
    // an empty accumulator stays empty under any sequence of scalings
    let mut acc = MsmAccumulator::new();
    let mut rng = SplitMixSource::new(99);
    for _ in 0..5 {
        let s = rng.random_scalar();
        acc.scale(&s);
        assert_eq!(acc.terms.len(), 0);
    }
}

#[test]
fn splitmix_is_reproducible_and_moves() {
    let mut a = SplitMixSource::new(42);
    let mut b = SplitMixSource::new(42);
    let a1 = a.random_scalar();
    let a2 = a.random_scalar();
    let b1 = b.random_scalar();
    let b2 = b.random_scalar();
    assert_eq!(a1, b1);
    assert_eq!(a2, b2);
    assert_ne!(a1, a2);
}

#[test]
fn entropy_source_draws_canonical_scalars() {
    let mut e = kzg_multiopen::strategy::EntropySource;
    let x = e.random_scalar();
    let y = e.random_scalar();
    // canonical: round-trips through the field unchanged
    assert_eq!(x, fr_to_scalar(Fr::from_raw([x.l0, x.l1, x.l2, x.l3])));
    assert_eq!(y, fr_to_scalar(Fr::from_raw([y.l0, y.l1, y.l2, y.l3])));
}
