use ff::Field;
use group::{Curve, Group};
use halo2curves::bn256::{Fr, G1Affine, G2Affine, G1, G2};
use kzg_multiopen::curve::ParamsKzg;
use kzg_multiopen::msm::{DualAccumulator, MsmAccumulator};
use kzg_multiopen::multiopen::{fold_group, VerifierGWC};
use kzg_multiopen::query::{CommitmentRef, OpeningQuery, PointGroup};
use kzg_multiopen::scalar::Scalar;
use kzg_multiopen::strategy::{BatchVerifier, SplitMixSource};
use kzg_multiopen::transcript::SequenceTranscript;
use kzg_multiopen::VerifyError;

fn fr_to_scalar(f: Fr) -> Scalar {
    let b = f.to_bytes();
    Scalar {
        l0: u64::from_le_bytes(b[0..8].try_into().unwrap()),
        l1: u64::from_le_bytes(b[8..16].try_into().unwrap()),
        l2: u64::from_le_bytes(b[16..24].try_into().unwrap()),
        l3: u64::from_le_bytes(b[24..32].try_into().unwrap()),
    }
}

/// An insecure test setup: the secret `s` is known, so commitments and
/// witnesses can be computed directly in the scalar field.
fn setup(s: Fr) -> ParamsKzg {
    let s_g2: G2Affine = (G2::generator() * s).to_affine();
    ParamsKzg::new(G1::generator(), s_g2, G2Affine::generator())
}

/// One group of claims at point `z`: pairs `(c, e)` where the commitment is
/// `c * g0` and `e` is the claimed evaluation.
struct TestGroup {
    z: Fr,
    claims: Vec<(Fr, Fr)>,
}

/// The witness commitment for one group, for challenge `v`:
/// `(sum_j v^(m-1-j) (c_j - e_j)) / (s - z) * g0`.
fn witness_for_group(s: Fr, v: Fr, g: &TestGroup) -> G1 {
    let mut acc = Fr::zero();
    for (c, e) in &g.claims {
        acc = acc * v + (*c - *e);
    }
    let w = acc * (s - g.z).invert().unwrap();
    G1::generator() * w
}

fn query(z: Fr, c: Fr, e: Fr) -> OpeningQuery {
    OpeningQuery {
        point: fr_to_scalar(z),
        commitment: CommitmentRef::Direct(G1::generator() * c),
        eval: fr_to_scalar(e),
    }
}

/// A transcript for one proof over `groups` (in first-occurrence order) with
/// predetermined challenges `v` and `u`.
fn transcript_for(s: Fr, v: Fr, u: Fr, groups: &[TestGroup]) -> SequenceTranscript {
    let elements = groups.iter().map(|g| Some(witness_for_group(s, v, g))).collect();
    SequenceTranscript::new(elements, vec![fr_to_scalar(v), fr_to_scalar(u)])
}

#[test]
fn honest_single_point_proof_verifies() {
    let s = Fr::from(7717u64);
    let params = setup(s);
    let (v, u) = (Fr::from(3u64), Fr::from(5u64));
    let g = TestGroup { z: Fr::from(2u64), claims: vec![(Fr::from(11u64), Fr::from(4u64))] };
    let mut t = transcript_for(s, v, u, &[g]);
    let queries = vec![query(Fr::from(2u64), Fr::from(11u64), Fr::from(4u64))];
    let verifier = VerifierGWC::new(&params);
    let guard = verifier.verify_proof(&mut t, queries, DualAccumulator::new()).unwrap();
    assert!(guard.check(&params));
}

#[test]
fn tampered_eval_is_rejected() {
    let s = Fr::from(7717u64);
    let params = setup(s);
    let (v, u) = (Fr::from(3u64), Fr::from(5u64));
    let g = TestGroup { z: Fr::from(2u64), claims: vec![(Fr::from(11u64), Fr::from(4u64))] };
    let mut t = transcript_for(s, v, u, &[g]);
    // same witness, one claimed evaluation changed
    let queries = vec![query(Fr::from(2u64), Fr::from(11u64), Fr::from(9u64))];
    let verifier = VerifierGWC::new(&params);
    let guard = verifier.verify_proof(&mut t, queries, DualAccumulator::new()).unwrap();
    assert!(!guard.check(&params));
}

/// Two points, queries interleaved [z2, z1, z2, z1]: groups come in
/// first-occurrence order [z2, z1], and only two witness points are read.
#[test]
fn interleaved_points_group_in_first_occurrence_order() {
    let (z1, z2) = (Fr::from(31u64), Fr::from(17u64));
    let claims = [
        (z2, Fr::from(5u64), Fr::from(6u64)),
        (z1, Fr::from(7u64), Fr::from(8u64)),
        (z2, Fr::from(9u64), Fr::from(10u64)),
        (z1, Fr::from(11u64), Fr::from(12u64)),
    ];
    let queries: Vec<OpeningQuery> = claims.iter().map(|(z, c, e)| query(*z, *c, *e)).collect();
    let groups = kzg_multiopen::grouping::group_queries(queries);
    assert_eq!(groups.len(), 2);
    assert_eq!(groups[0].point, fr_to_scalar(z2));
    assert_eq!(groups[1].point, fr_to_scalar(z1));
    assert_eq!(groups[0].queries.len(), 2);
    assert_eq!(groups[1].queries.len(), 2);
    assert_eq!(groups[0].queries[0].eval, fr_to_scalar(Fr::from(6u64)));
    assert_eq!(groups[0].queries[1].eval, fr_to_scalar(Fr::from(10u64)));
    assert_eq!(groups[1].queries[0].eval, fr_to_scalar(Fr::from(8u64)));
    assert_eq!(groups[1].queries[1].eval, fr_to_scalar(Fr::from(12u64)));
}

#[test]
fn interleaved_points_proof_reads_two_witnesses_and_verifies() {
    let s = Fr::from(424242u64);
    let params = setup(s);
    let (v, u) = (Fr::from(19u64), Fr::from(23u64));
    let (z1, z2) = (Fr::from(31u64), Fr::from(17u64));
    let g_z2 = TestGroup {
        z: z2,
        claims: vec![(Fr::from(5u64), Fr::from(6u64)), (Fr::from(9u64), Fr::from(10u64))],
    };
    let g_z1 = TestGroup {
        z: z1,
        claims: vec![(Fr::from(7u64), Fr::from(8u64)), (Fr::from(11u64), Fr::from(12u64))],
    };
    // group order is first-occurrence order: z2 before z1
    let mut t = transcript_for(s, v, u, &[g_z2, g_z1]);
    let queries = vec![
        query(z2, Fr::from(5u64), Fr::from(6u64)),
        query(z1, Fr::from(7u64), Fr::from(8u64)),
        query(z2, Fr::from(9u64), Fr::from(10u64)),
        query(z1, Fr::from(11u64), Fr::from(12u64)),
    ];
    let verifier = VerifierGWC::new(&params);
    let guard = verifier.verify_proof(&mut t, queries, DualAccumulator::new()).unwrap();
    // exactly the two witness elements were read, not four
    assert_eq!(t.next_element, 2);

    // the exact Horner weights: witnesses carry u^(N-1-i)
    let left = &guard.msm_accumulator.left.terms;
    assert_eq!(left.len(), 2);
    assert_eq!(left[0].coeff, fr_to_scalar(u));
    assert_eq!(left[1].coeff, fr_to_scalar(Fr::one()));
    // right side: z_i u^(N-1-i) witness terms, v/u-weighted commitments,
    // then the evaluation term against the negated base generator
    let right = &guard.msm_accumulator.right.terms;
    assert_eq!(right.len(), 7);
    assert_eq!(right[0].coeff, fr_to_scalar(z2 * u));
    assert_eq!(right[1].coeff, fr_to_scalar(z1));
    assert_eq!(right[2].coeff, fr_to_scalar(v * u));
    assert_eq!(right[3].coeff, fr_to_scalar(u));
    assert_eq!(right[4].coeff, fr_to_scalar(v));
    assert_eq!(right[5].coeff, fr_to_scalar(Fr::one()));
    let eval_multi = (Fr::from(6u64) * v + Fr::from(10u64)) * u + Fr::from(8u64) * v
        + Fr::from(12u64);
    assert_eq!(right[6].coeff, fr_to_scalar(eval_multi));
    assert_eq!(right[6].base, params.neg_g0);

    assert!(guard.check(&params));
}

#[test]
fn nested_commitment_verifies() {
    let s = Fr::from(987654u64);
    let params = setup(s);
    let (v, u) = (Fr::from(3u64), Fr::from(5u64));
    // the commitment is a pending linear combination a1*P1 + a2*P2
    let (x1, x2) = (Fr::from(21u64), Fr::from(22u64));
    let (a1, a2) = (Fr::from(2u64), Fr::from(3u64));
    let c = a1 * x1 + a2 * x2;
    let e = Fr::from(77u64);
    let z = Fr::from(4u64);
    let mut nested = MsmAccumulator::new();
    nested.append_term(fr_to_scalar(a1), G1::generator() * x1);
    nested.append_term(fr_to_scalar(a2), G1::generator() * x2);
    let queries = vec![OpeningQuery {
        point: fr_to_scalar(z),
        commitment: CommitmentRef::Nested(nested),
        eval: fr_to_scalar(e),
    }];
    let g = TestGroup { z, claims: vec![(c, e)] };
    let mut t = transcript_for(s, v, u, &[g]);
    let verifier = VerifierGWC::new(&params);
    let guard = verifier.verify_proof(&mut t, queries, DualAccumulator::new()).unwrap();
    assert!(guard.check(&params));
}

/// A claim whose evaluation equals its committed value has the zero quotient
/// polynomial: its witness commitment is the identity point. A commitment to
/// the zero polynomial is the identity too. Both are legitimate and must be
/// accepted, not rejected or crashed on.
#[test]
fn identity_witness_and_commitment_verify() {
    let s = Fr::from(7717u64);
    let params = setup(s);
    let (v, u) = (Fr::from(3u64), Fr::from(5u64));
    let z = Fr::from(2u64);
    // constant polynomial: c == e, plus the zero polynomial: both columns zero
    let g = TestGroup { z, claims: vec![(Fr::from(11u64), Fr::from(11u64)), (Fr::zero(), Fr::zero())] };
    let mut t = transcript_for(s, v, u, &[g]);
    let queries = vec![
        query(z, Fr::from(11u64), Fr::from(11u64)),
        query(z, Fr::zero(), Fr::zero()),
    ];
    let verifier = VerifierGWC::new(&params);
    let guard = verifier.verify_proof(&mut t, queries, DualAccumulator::new()).unwrap();
    assert!(guard.check(&params));
}

/// Many terms, with identity bases of equal coefficients among them: the
/// evaluation must stay total and exact. The left side sums to
/// `(sum i^2) * g0` and the right to the same value times `s`, so the
/// deferred identity `e(left, [s]_2) == e(right, [1]_2)` holds.
#[test]
fn accumulator_with_identity_bases_checks_correctly() {
    let s = Fr::from(5050u64);
    let params = setup(s);
    let g = G1::generator();
    let mut left = MsmAccumulator::new();
    let mut total = Fr::zero();
    for i in 1..40u64 {
        let c = Fr::from(i);
        left.append_term(fr_to_scalar(c), g * c);
        total += c * c;
    }
    left.append_term(fr_to_scalar(Fr::from(2u64)), G1::identity());
    left.append_term(fr_to_scalar(Fr::from(2u64)), G1::identity());
    let mut right = MsmAccumulator::new();
    right.append_term(fr_to_scalar(total * s), g);
    let acc = DualAccumulator { left, right };
    assert!(acc.check(&params));
}

#[test]
fn empty_query_set_verifies_as_zero_identity() {
    let s = Fr::from(5u64);
    let params = setup(s);
    let mut t = SequenceTranscript::new(vec![], vec![]);
    let verifier = VerifierGWC::new(&params);
    let guard = verifier.verify_proof(&mut t, vec![], DualAccumulator::new()).unwrap();
    assert!(guard.check(&params));
}

#[test]
fn undecodable_point_gives_sampling_error() {
    let s = Fr::from(7717u64);
    let params = setup(s);
    let queries = vec![query(Fr::from(2u64), Fr::from(11u64), Fr::from(4u64))];
    // the single witness slot holds bytes that decode to no point
    let mut t = SequenceTranscript::new(
        vec![None],
        vec![fr_to_scalar(Fr::from(3u64)), fr_to_scalar(Fr::from(5u64))],
    );
    let verifier = VerifierGWC::new(&params);
    let r = verifier.verify_proof(&mut t, queries, DualAccumulator::new());
    assert_eq!(r.unwrap_err(), VerifyError::SamplingError);
}

#[test]
fn mismatched_group_point_gives_invalid_query_set() {
    let group = PointGroup {
        point: fr_to_scalar(Fr::from(1u64)),
        queries: vec![query(Fr::from(2u64), Fr::from(11u64), Fr::from(4u64))],
    };
    let r = fold_group(&fr_to_scalar(Fr::from(3u64)), &group);
    assert_eq!(r.unwrap_err(), VerifyError::InvalidQuerySet);
}

#[test]
fn empty_group_gives_invalid_query_set() {
    let group = PointGroup { point: fr_to_scalar(Fr::from(1u64)), queries: vec![] };
    let r = fold_group(&fr_to_scalar(Fr::from(3u64)), &group);
    assert_eq!(r.unwrap_err(), VerifyError::InvalidQuerySet);
}

#[test]
fn well_formed_group_folds_ok() {
    let group = PointGroup {
        point: fr_to_scalar(Fr::from(2u64)),
        queries: vec![
            query(Fr::from(2u64), Fr::from(11u64), Fr::from(4u64)),
            query(Fr::from(2u64), Fr::from(13u64), Fr::from(6u64)),
        ],
    };
    let (batch, eval) = fold_group(&fr_to_scalar(Fr::from(3u64)), &group).unwrap();
    assert_eq!(batch.terms.len(), 2);
    // eval fold is Horner over v: 4 * 3 + 6
    assert_eq!(eval, fr_to_scalar(Fr::from(18u64)));
    // the first commitment's coefficient was scaled once by v
    assert_eq!(batch.terms[0].coeff, fr_to_scalar(Fr::from(3u64)));
    assert_eq!(batch.terms[1].coeff, fr_to_scalar(Fr::from(1u64)));
}

#[test]
fn verification_is_deterministic_byte_for_byte() {
    let s = Fr::from(31337u64);
    let params = setup(s);
    let (v, u) = (Fr::from(3u64), Fr::from(5u64));
    let mk_group = || TestGroup {
        z: Fr::from(2u64),
        claims: vec![(Fr::from(11u64), Fr::from(4u64)), (Fr::from(13u64), Fr::from(6u64))],
    };
    let mk_queries = || {
        vec![
            query(Fr::from(2u64), Fr::from(11u64), Fr::from(4u64)),
            query(Fr::from(2u64), Fr::from(13u64), Fr::from(6u64)),
        ]
    };
    let verifier = VerifierGWC::new(&params);
    let mut t1 = transcript_for(s, v, u, &[mk_group()]);
    let mut t2 = transcript_for(s, v, u, &[mk_group()]);
    let g1 = verifier.verify_proof(&mut t1, mk_queries(), DualAccumulator::new()).unwrap();
    let g2 = verifier.verify_proof(&mut t2, mk_queries(), DualAccumulator::new()).unwrap();
    let (l1, r1) = (&g1.msm_accumulator.left.terms, &g1.msm_accumulator.right.terms);
    let (l2, r2) = (&g2.msm_accumulator.left.terms, &g2.msm_accumulator.right.terms);
    assert_eq!(l1.len(), l2.len());
    assert_eq!(r1.len(), r2.len());
    for (a, b) in l1.iter().zip(l2.iter()) {
        assert_eq!(a.coeff, b.coeff);
        assert_eq!(a.base, b.base);
    }
    for (a, b) in r1.iter().zip(r2.iter()) {
        assert_eq!(a.coeff, b.coeff);
        assert_eq!(a.base, b.base);
    }
}

fn run_batch(s: Fr, tampered: Option<usize>, k: usize) -> bool {
    let params = setup(s);
    let verifier = VerifierGWC::new(&params);
    let mut bv = BatchVerifier::new(SplitMixSource::new(7));
    for i in 0..k {
        let z = Fr::from(100 + i as u64);
        let c = Fr::from(200 + i as u64);
        let honest_e = Fr::from(300 + i as u64);
        let (v, u) = (Fr::from(3 + i as u64), Fr::from(5 + i as u64));
        let g = TestGroup { z, claims: vec![(c, honest_e)] };
        let mut t = transcript_for(s, v, u, &[g]);
        let e = if tampered == Some(i) { honest_e + Fr::one() } else { honest_e };
        let queries = vec![query(z, c, e)];
        bv = bv.process(|acc| verifier.verify_proof(&mut t, queries, acc)).unwrap();
    }
    bv.finalize(&params)
}

#[test]
fn honest_batches_of_various_sizes_verify() {
    let s = Fr::from(2024u64);
    assert!(run_batch(s, None, 1));
    assert!(run_batch(s, None, 2));
    assert!(run_batch(s, None, 10));
}

#[test]
fn one_tampered_proof_fails_the_batch_but_not_the_others() {
    let s = Fr::from(2024u64);
    assert!(!run_batch(s, Some(3), 10));
    // every other proof still verifies in isolation
    let params = setup(s);
    let verifier = VerifierGWC::new(&params);
    for i in 0..10usize {
        if i == 3 {
            continue;
        }
        let z = Fr::from(100 + i as u64);
        let c = Fr::from(200 + i as u64);
        let e = Fr::from(300 + i as u64);
        let (v, u) = (Fr::from(3 + i as u64), Fr::from(5 + i as u64));
        let g = TestGroup { z, claims: vec![(c, e)] };
        let mut t = transcript_for(s, v, u, &[g]);
        let guard = verifier.verify_proof(&mut t, vec![query(z, c, e)], DualAccumulator::new()).unwrap();
        assert!(guard.check(&params));
    }
}

#[test]
fn finalize_strict_reports_rejection() {
    let s = Fr::from(2024u64);
    let params = setup(s);
    let verifier = VerifierGWC::new(&params);
    let z = Fr::from(2u64);
    let (v, u) = (Fr::from(3u64), Fr::from(5u64));
    let g = TestGroup { z, claims: vec![(Fr::from(11u64), Fr::from(4u64))] };
    let mut t = transcript_for(s, v, u, &[g]);
    // tampered claim: strict finalize names the rejection
    let queries = vec![query(z, Fr::from(11u64), Fr::from(5u64))];
    let bv = BatchVerifier::new(SplitMixSource::new(1));
    let bv = bv.process(|acc| verifier.verify_proof(&mut t, queries, acc)).unwrap();
    assert_eq!(bv.finalize_strict(&params).unwrap_err(), VerifyError::RejectedProof);
}

#[test]
fn finalize_strict_accepts_honest_proof() {
    let s = Fr::from(2024u64);
    let params = setup(s);
    let verifier = VerifierGWC::new(&params);
    let z = Fr::from(2u64);
    let (v, u) = (Fr::from(3u64), Fr::from(5u64));
    let g = TestGroup { z, claims: vec![(Fr::from(11u64), Fr::from(4u64))] };
    let mut t = transcript_for(s, v, u, &[g]);
    let queries = vec![query(z, Fr::from(11u64), Fr::from(4u64))];
    let bv = BatchVerifier::new(SplitMixSource::new(1));
    let bv = bv.process(|acc| verifier.verify_proof(&mut t, queries, acc)).unwrap();
    assert!(bv.finalize_strict(&params).is_ok());
}

#[test]
fn dual_accumulator_scale_keeps_zero_at_zero() {
    let mut acc = DualAccumulator::new();
    acc.scale(&fr_to_scalar(Fr::from(12345u64)));
    assert_eq!(acc.left.terms.len(), 0);
    assert_eq!(acc.right.terms.len(), 0);
    // a zero identity passes its pairing check
    let params = setup(Fr::from(5u64));
    assert!(acc.check(&params));
}

/// A point-affine round trip sanity check on the parameters.
#[test]
fn params_keep_their_inputs() {
    let s = Fr::from(9u64);
    let params = setup(s);
    assert_eq!(G1Affine::from(params.g0), G1Affine::from(G1::generator()));
    assert_eq!(params.g2, G2Affine::generator());
    // neg_g0 really is the negation: their sum is the identity
    assert!(bool::from((params.g0 + params.neg_g0).is_identity()));
}
