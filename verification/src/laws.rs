//! General laws of the verifier, stated and proved once.

use crate::curve::ParamsKzg;
use crate::grouping::first_points;
use crate::msm::{scale_terms, DualAccumulator, MsmAccumulator, MsmTerm};
use crate::multiopen::{failed_read_at, state_after_reads, verify_proof_post};
use crate::query::OpeningQuery;
use crate::scalar::{lemma_val_injective, Scalar};
use crate::strategy::{Guard, RandomSource, SplitMixSource};
use crate::transcript::Transcript;
use crate::VerifyError;
use vstd::prelude::*;

verus! {

/// Two accumulators whose term lists agree in value are byte-for-byte the
/// same list: equal coefficient values force equal limbs.
pub proof fn lemma_equal_views_equal_terms(x: MsmAccumulator, y: MsmAccumulator)
    requires
        x@ == y@,
    ensures
        x.terms@ == y.terms@,
{
    assert(x@.len() == x.terms@.len());
    assert(y@.len() == y.terms@.len());
    assert forall|k: int| 0 <= k < x.terms@.len() implies x.terms@[k] == y.terms@[k] by {
        assert(x@[k] == (x.terms@[k].coeff.val(), x.terms@[k].base));
        assert(y@[k] == (y.terms@[k].coeff.val(), y.terms@[k].base));
        assert(x.terms@[k].coeff.val() == y.terms@[k].coeff.val());
        lemma_val_injective(x.terms@[k].coeff, y.terms@[k].coeff);
        assert(x.terms@[k] == MsmTerm { coeff: y.terms@[k].coeff, base: y.terms@[k].base });
    }
    assert(x.terms@ =~= y.terms@);
}

/// Determinism of verification: from the same transcript state, over the
/// same queries and the same starting accumulator, two verification runs
/// agree exactly — both succeed or both fail, a failure is the same error,
/// the transcript is left in the same state either way, and a success
/// carries byte-for-byte the same accumulator term lists (the same
/// challenges were drawn, so the same scalars were computed).
pub proof fn lemma_verify_deterministic<T: Transcript>(
    st0: T::St,
    qs: Seq<OpeningQuery>,
    acc0: DualAccumulator,
    params: ParamsKzg,
    r1: Result<Guard, VerifyError>,
    st1: T::St,
    r2: Result<Guard, VerifyError>,
    st2: T::St,
)
    requires
        verify_proof_post::<T>(st0, qs, acc0, params, r1, st1),
        verify_proof_post::<T>(st0, qs, acc0, params, r2, st2),
    ensures
        r1 is Ok <==> r2 is Ok,
        r1 is Err ==> r1 == r2,
        st1 == st2,
        (r1 is Ok && r2 is Ok) ==> {
            &&& (r1->Ok_0).msm_accumulator.left.terms@ == (r2->Ok_0).msm_accumulator.left.terms@
            &&& (r1->Ok_0).msm_accumulator.right.terms@ == (r2->Ok_0).msm_accumulator.right.terms@
        },
{
    if r1 is Ok && r2 is Ok {
        let g1 = r1->Ok_0;
        let g2 = r2->Ok_0;
        lemma_equal_views_equal_terms(g1.msm_accumulator.left, g2.msm_accumulator.left);
        lemma_equal_views_equal_terms(g1.msm_accumulator.right, g2.msm_accumulator.right);
    } else {
        // both runs stopped at the first undecodable read, which is unique
        let sv = T::after_challenge(st0);
        let n = first_points(qs).len();
        let j1 = choose|j: nat| #[trigger] failed_read_at::<T>(sv, n, j, st1);
        let j2 = choose|j: nat| #[trigger] failed_read_at::<T>(sv, n, j, st2);
        if j1 < j2 {
            assert(T::point_of(state_after_reads::<T>(sv, j1)) is Some);
        }
        if j2 < j1 {
            assert(T::point_of(state_after_reads::<T>(sv, j2)) is Some);
        }
    }
}

/// Batch re-randomization is reproducible given a fixed seed: two splitmix
/// sources in the same state draw the same scalar and move to the same
/// state, so equal-seeded batch runs over the same proofs agree.
pub proof fn lemma_splitmix_reproducible(
    pre1: SplitMixSource,
    post1: SplitMixSource,
    r1: Scalar,
    pre2: SplitMixSource,
    post2: SplitMixSource,
    r2: Scalar,
)
    requires
        pre1.state == pre2.state,
        SplitMixSource::draw_rel(pre1, post1, r1),
        SplitMixSource::draw_rel(pre2, post2, r2),
    ensures
        r1 == r2,
        post1.state == post2.state,
{
}

/// Scaling a zero accumulator leaves it representing zero, for any scalar:
/// an empty term list stays empty.
pub proof fn lemma_scale_zero(s: nat)
    ensures
        scale_terms(s, Seq::<(nat, halo2curves::bn256::G1)>::empty()) == Seq::<
            (nat, halo2curves::bn256::G1),
        >::empty(),
{
    assert(scale_terms(s, Seq::<(nat, halo2curves::bn256::G1)>::empty()) =~= Seq::<
        (nat, halo2curves::bn256::G1),
    >::empty());
}

} // verus!
