//! The multi-open verifier (GWC variant).
//!
//! One proof's claims are folded into a single algebraic identity in an
//! exactly specified order: a challenge `v` is drawn, queries are grouped by
//! evaluation point, one witness commitment is read per group, a challenge
//! `u` is drawn, and a Horner fold over `v` (within a group) and `u` (across
//! groups) combines everything into the supplied dual accumulator. The
//! ensures below pin every term of the result as a function of the
//! transcript's starting state and the queries.

use crate::curve::ParamsKzg;
use crate::grouping::{at_point, first_points, group_points, group_queries, grouped};
use crate::msm::{scale_terms, DualAccumulator, MsmAccumulator};
use crate::query::{queries_wf, CommitmentRef, OpeningQuery, PointGroup};
use crate::scalar::{sc_add, sc_mul, Scalar};
use crate::strategy::Guard;
use crate::transcript::Transcript;
use crate::VerifyError;
use vstd::prelude::*;

verus! {

/// The commitment terms one query contributes to the fold: its direct
/// commitment with coefficient one, or its nested accumulator's whole term
/// list.
pub open spec fn query_comm_terms(q: OpeningQuery) -> Seq<(nat, halo2curves::bn256::G1)> {
    match q.commitment {
        CommitmentRef::Direct(c) => seq![(1nat, c)],
        CommitmentRef::Nested(m) => m@,
    }
}

/// Horner fold over `v` of one group's commitments: the terms contributed by
/// the group's `j`-th query end up scaled by `v^(m-1-j)`.
pub open spec fn group_comm_terms(v: nat, qs: Seq<OpeningQuery>) -> Seq<
    (nat, halo2curves::bn256::G1),
>
    decreases qs.len(),
{
    if qs.len() == 0 {
        Seq::empty()
    } else {
        scale_terms(v, group_comm_terms(v, qs.drop_last())) + query_comm_terms(qs.last())
    }
}

/// Horner fold over `v` of one group's claimed evaluations.
pub open spec fn group_eval(v: nat, qs: Seq<OpeningQuery>) -> nat
    decreases qs.len(),
{
    if qs.len() == 0 {
        0
    } else {
        sc_add(sc_mul(group_eval(v, qs.drop_last()), v), qs.last().eval.val())
    }
}

/// Horner fold over `u` of the per-group commitment folds, one group per
/// distinct point in `pts`.
pub open spec fn multi_comm_terms(u: nat, v: nat, qs: Seq<OpeningQuery>, pts: Seq<Scalar>) -> Seq<
    (nat, halo2curves::bn256::G1),
>
    decreases pts.len(),
{
    if pts.len() == 0 {
        Seq::empty()
    } else {
        scale_terms(u, multi_comm_terms(u, v, qs, pts.drop_last())) + group_comm_terms(
            v,
            at_point(qs, pts.last().val()),
        )
    }
}

/// Horner fold over `u` of the per-group evaluation folds.
pub open spec fn multi_eval(u: nat, v: nat, qs: Seq<OpeningQuery>, pts: Seq<Scalar>) -> nat
    decreases pts.len(),
{
    if pts.len() == 0 {
        0
    } else {
        sc_add(
            sc_mul(multi_eval(u, v, qs, pts.drop_last()), u),
            group_eval(v, at_point(qs, pts.last().val())),
        )
    }
}

/// The witness side: group `i`'s witness commitment with coefficient
/// `u^(N-1-i)`.
pub open spec fn witness_terms(u: nat, ws: Seq<halo2curves::bn256::G1>) -> Seq<
    (nat, halo2curves::bn256::G1),
>
    decreases ws.len(),
{
    if ws.len() == 0 {
        Seq::empty()
    } else {
        scale_terms(u, witness_terms(u, ws.drop_last())).push((1nat, ws.last()))
    }
}

/// The point-weighted witness side: group `i`'s witness commitment with
/// coefficient `z_i * u^(N-1-i)`.
pub open spec fn witness_aux_terms(
    u: nat,
    pts: Seq<Scalar>,
    ws: Seq<halo2curves::bn256::G1>,
) -> Seq<(nat, halo2curves::bn256::G1)>
    decreases pts.len(),
{
    if pts.len() == 0 || ws.len() == 0 {
        Seq::empty()
    } else {
        scale_terms(u, witness_aux_terms(u, pts.drop_last(), ws.drop_last())).push(
            (pts.last().val(), ws.last()),
        )
    }
}

/// The transcript state after `n` point reads from state `s`.
pub open spec fn state_after_reads<T: Transcript>(s: T::St, n: nat) -> T::St
    decreases n,
{
    if n == 0 {
        s
    } else {
        T::after_point(state_after_reads::<T>(s, (n - 1) as nat))
    }
}

/// Whether `n` consecutive point reads from state `s` all decode.
pub open spec fn reads_ok<T: Transcript>(s: T::St, n: nat) -> bool {
    forall|k: nat| k < n ==> T::point_of(#[trigger] state_after_reads::<T>(s, k)) is Some
}

/// The `n` points read from state `s`, in order.
pub open spec fn read_points<T: Transcript>(s: T::St, n: nat) -> Seq<halo2curves::bn256::G1>
    decreases n,
{
    if n == 0 {
        Seq::empty()
    } else {
        let prefix = read_points::<T>(s, (n - 1) as nat);
        match T::point_of(state_after_reads::<T>(s, (n - 1) as nat)) {
            Some(p) => prefix.push(p),
            None => prefix,
        }
    }
}

/// The `j`-th point read from `sv` is the first that does not decode, and
/// the transcript stands where that failed read left it: at the state the
/// `j` successful reads reached. No read follows the failing one.
pub open spec fn failed_read_at<T: Transcript>(sv: T::St, n: nat, j: nat, st1: T::St) -> bool {
    &&& j < n
    &&& reads_ok::<T>(sv, j)
    &&& T::point_of(state_after_reads::<T>(sv, j)) is None
    &&& st1 == state_after_reads::<T>(sv, j)
}

/// Everything `verify_proof` promises, as a function of the transcript's
/// starting state `st0`, the queries, the supplied accumulator and the
/// parameters: whether it succeeds, the exact term lists of the returned
/// guard, and the transcript state `st1` it leaves behind.
pub open spec fn verify_proof_post<T: Transcript>(
    st0: T::St,
    qs: Seq<OpeningQuery>,
    acc0: DualAccumulator,
    params: ParamsKzg,
    r: Result<Guard, VerifyError>,
    st1: T::St,
) -> bool {
    let v = T::challenge_of(st0);
    let sv = T::after_challenge(st0);
    let pts = first_points(qs);
    let n = pts.len();
    if reads_ok::<T>(sv, n) {
        let ws = read_points::<T>(sv, n);
        let sw = state_after_reads::<T>(sv, n);
        let u = T::challenge_of(sw);
        match r {
            Ok(g) => {
                &&& g.msm_accumulator.wf()
                &&& g.msm_accumulator.left@ == acc0.left@ + witness_terms(u.val(), ws)
                &&& g.msm_accumulator.right@ == acc0.right@ + witness_aux_terms(u.val(), pts, ws)
                    + multi_comm_terms(u.val(), v.val(), qs, pts) + seq![
                    (multi_eval(u.val(), v.val(), qs, pts), params.neg_g0),
                ]
                &&& st1 == T::after_challenge(sw)
            },
            Err(_) => false,
        }
    } else {
        &&& r == Err::<Guard, VerifyError>(VerifyError::SamplingError)
        &&& exists|j: nat| #[trigger] failed_read_at::<T>(sv, n, j, st1)
    }
}

/// Fold one group's queries over `v`: the combined commitment terms and the
/// combined claimed evaluation.
///
/// Rejects, with `InvalidQuerySet`, exactly the malformed groups: an empty
/// group, or one holding a query whose point differs from the group's.
pub fn fold_group(v: &Scalar, group: &PointGroup) -> (r: Result<
    (MsmAccumulator, Scalar),
    VerifyError,
>)
    requires
        v.wf(),
        queries_wf(group.queries@),
    ensures
        r is Ok <==> (group.queries@.len() > 0 && forall|k: int|
            0 <= k < group.queries@.len() ==> (#[trigger] group.queries@[k]).point.val()
                == group.point.val()),
        r is Err ==> r == Err::<(MsmAccumulator, Scalar), VerifyError>(
            VerifyError::InvalidQuerySet,
        ),
        r matches Ok(out) ==> {
            &&& out.0.wf()
            &&& out.0@ == group_comm_terms(v.val(), group.queries@)
            &&& out.1.wf()
            &&& out.1.val() == group_eval(v.val(), group.queries@)
        },
{
    if group.queries.len() == 0 {
        return Err(VerifyError::InvalidQuerySet);
    }
    let ghost gq = group.queries@;
    let mut commitment_batch = MsmAccumulator::new();
    let mut eval_batch = crate::scalar::scalar_zero();
    let mut j: usize = 0;
    while j < group.queries.len()
        invariant
            0 <= j <= gq.len(),
            group.queries@ == gq,
            v.wf(),
            queries_wf(gq),
            commitment_batch.wf(),
            eval_batch.wf(),
            commitment_batch@ == group_comm_terms(v.val(), gq.take(j as int)),
            eval_batch.val() == group_eval(v.val(), gq.take(j as int)),
            forall|k: int| 0 <= k < j ==> (#[trigger] gq[k]).point.val() == group.point.val(),
        decreases gq.len() - j,
    {
        let q = &group.queries[j];
        if q.point != group.point {
            proof {
                if gq[j as int].point.val() == group.point.val() {
                    crate::scalar::lemma_val_injective(gq[j as int].point, group.point);
                }
            }
            return Err(VerifyError::InvalidQuerySet);
        }
        commitment_batch.scale(v);
        match &q.commitment {
            CommitmentRef::Direct(c) => {
                commitment_batch.append_term(crate::scalar::scalar_one(), c.clone());
            },
            CommitmentRef::Nested(m) => {
                commitment_batch.add_msm(m);
            },
        }
        eval_batch = crate::scalar::scalar_mul(&eval_batch, v);
        eval_batch = crate::scalar::scalar_add(&eval_batch, &q.eval);
        proof {
            assert(gq.take(j + 1).drop_last() =~= gq.take(j as int));
            assert(gq.take(j + 1).last() == gq[j as int]);
            match gq[j as int].commitment {
                CommitmentRef::Direct(c) => {
                    assert(commitment_batch@ =~= scale_terms(
                        v.val(),
                        group_comm_terms(v.val(), gq.take(j as int)),
                    ) + query_comm_terms(gq[j as int]));
                },
                CommitmentRef::Nested(_) => {},
            }
        }
        j = j + 1;
    }
    proof {
        assert(gq.take(gq.len() as int) =~= gq);
    }
    Ok((commitment_batch, eval_batch))
}

/// The multi-open verifier: holds the scheme's public parameters.
pub struct VerifierGWC<'params> {
    pub params: &'params ParamsKzg,
}

impl<'params> VerifierGWC<'params> {
    pub fn new(params: &'params ParamsKzg) -> (r: Self)
        ensures
            r.params == params,
    {
        VerifierGWC { params }
    }

    /// Verify one proof's opening claims into the supplied accumulator.
    ///
    /// Exactly in this order: draw `v`, group the queries by point, read one
    /// witness commitment per group, draw `u`, then fold. On success the
    /// returned guard's accumulator extends the supplied one by the folded
    /// terms; no pairing has been computed yet. Fails with `SamplingError`
    /// exactly when one of the point reads does not decode.
    #[verifier::loop_isolation(false)]
    pub fn verify_proof<T: Transcript>(
        &self,
        transcript: &mut T,
        queries: Vec<OpeningQuery>,
        msm_accumulator: DualAccumulator,
    ) -> (r: Result<Guard, VerifyError>)
        requires
            old(transcript).inv(),
            queries_wf(queries@),
            msm_accumulator.wf(),
        ensures
            final(transcript).inv(),
            verify_proof_post::<T>(
                old(transcript).st(),
                queries@,
                msm_accumulator,
                *self.params,
                r,
                final(transcript).st(),
            ),
    {
        let ghost st0 = old(transcript).st();
        let ghost qs = queries@;

        let v = transcript.squeeze_challenge();
        let ghost sv = T::after_challenge(st0);

        let groups = group_queries(queries);
        let n = groups.len();
        let ghost pts = first_points(qs);
        proof {
            assert(group_points(groups@) == pts);
            assert(pts.len() == groups@.len());
        }

        let mut w: Vec<halo2curves::bn256::G1> = Vec::new();
        let mut i: usize = 0;
        while i < n
            invariant
                0 <= i <= n,
                transcript.inv(),
                transcript.st() == state_after_reads::<T>(sv, i as nat),
                reads_ok::<T>(sv, i as nat),
                w@ == read_points::<T>(sv, i as nat),
                w@.len() == i,
            decreases n - i,
        {
            match transcript.read_point() {
                Ok(p) => {
                    w.push(p);
                    proof {
                        assert(T::point_of(state_after_reads::<T>(sv, i as nat)) is Some);
                        assert forall|k: nat| k < (i + 1) as nat implies T::point_of(
                            #[trigger] state_after_reads::<T>(sv, k),
                        ) is Some by {
                            if k < i as nat {
                                assert(reads_ok::<T>(sv, i as nat));
                            }
                        }
                    }
                },
                Err(_) => {
                    proof {
                        assert(T::point_of(state_after_reads::<T>(sv, i as nat)) is None);
                        assert(reads_ok::<T>(sv, pts.len()) ==> T::point_of(
                            state_after_reads::<T>(sv, i as nat),
                        ) is Some);
                        assert(!reads_ok::<T>(sv, pts.len()));
                        assert(failed_read_at::<T>(sv, pts.len(), i as nat, transcript.st()));
                    }
                    return Err(VerifyError::SamplingError);
                },
            }
            i = i + 1;
        }
        proof {
            assert(reads_ok::<T>(sv, pts.len()));
        }
        let ghost ws = read_points::<T>(sv, pts.len());
        let ghost sw = state_after_reads::<T>(sv, pts.len());

        let u = transcript.squeeze_challenge();

        let mut commitment_multi = MsmAccumulator::new();
        let mut eval_multi = crate::scalar::scalar_zero();
        let mut witness = MsmAccumulator::new();
        let mut witness_with_aux = MsmAccumulator::new();

        let mut i2: usize = 0;
        while i2 < n
            invariant
                0 <= i2 <= n,
                n == groups@.len(),
                n == pts.len(),
                n == w@.len(),
                w@ == ws,
                v.wf(),
                u.wf(),
                grouped(qs, groups@),
                group_points(groups@) == pts,
                queries_wf(qs),
                forall|k: int| 0 <= k < groups@.len() ==> (#[trigger] groups@[k]).queries@.len()
                    > 0,
                forall|k: int| 0 <= k < groups@.len() ==> (#[trigger] groups@[k]).point.wf(),
                forall|k: int|
                    0 <= k < groups@.len() ==> queries_wf((#[trigger] groups@[k]).queries@),
                witness.wf(),
                witness_with_aux.wf(),
                commitment_multi.wf(),
                eval_multi.wf(),
                witness@ == witness_terms(u.val(), ws.take(i2 as int)),
                witness_with_aux@ == witness_aux_terms(
                    u.val(),
                    pts.take(i2 as int),
                    ws.take(i2 as int),
                ),
                commitment_multi@ == multi_comm_terms(u.val(), v.val(), qs, pts.take(i2 as int)),
                eval_multi.val() == multi_eval(u.val(), v.val(), qs, pts.take(i2 as int)),
            decreases n - i2,
        {
            let group = &groups[i2];
            let ghost z = pts[i2 as int];
            proof {
                assert(group_points(groups@)[i2 as int] == groups@[i2 as int].point);
                assert(groups@[i2 as int].point == z);
                assert(groups@[i2 as int].queries@ == at_point(qs, z.val()));
            }

            witness_with_aux.scale(&u);
            witness_with_aux.append_term(group.point, w[i2].clone());
            witness.scale(&u);
            witness.append_term(crate::scalar::scalar_one(), w[i2].clone());
            commitment_multi.scale(&u);
            eval_multi = crate::scalar::scalar_mul(&eval_multi, &u);

            match fold_group(&v, group) {
                Ok(batch) => {
                    let (commitment_batch, eval_batch) = batch;
                    commitment_multi.add_msm(&commitment_batch);
                    eval_multi = crate::scalar::scalar_add(&eval_multi, &eval_batch);
                },
                Err(e) => {
                    proof {
                        crate::grouping::lemma_at_point_members(qs, z.val());
                        assert(false);
                    }
                    return Err(e);
                },
            }

            proof {
                assert(ws.take(i2 + 1).drop_last() =~= ws.take(i2 as int));
                assert(ws.take(i2 + 1).last() == ws[i2 as int]);
                assert(pts.take(i2 + 1).drop_last() =~= pts.take(i2 as int));
                assert(pts.take(i2 + 1).last() == pts[i2 as int]);
            }
            i2 = i2 + 1;
        }
        proof {
            assert(ws.take(ws.len() as int) =~= ws);
            assert(pts.take(pts.len() as int) =~= pts);
        }

        let mut acc = msm_accumulator;
        acc.left.add_msm(&witness);
        acc.right.add_msm(&witness_with_aux);
        acc.right.add_msm(&commitment_multi);
        acc.right.append_term(eval_multi, self.params.neg_g0.clone());
        proof {
            assert(acc.right@ =~= msm_accumulator.right@ + witness_aux_terms(u.val(), pts, ws)
                + multi_comm_terms(u.val(), v.val(), qs, pts) + seq![
                (multi_eval(u.val(), v.val(), qs, pts), self.params.neg_g0),
            ]);
        }
        Ok(Guard::new(acc))
    }
}

} // verus!
