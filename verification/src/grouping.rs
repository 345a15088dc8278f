//! Partition of opening queries by evaluation point.
//!
//! Groups appear in the order their point is first encountered in the input
//! (stable, not sorted), and each group keeps its members' relative input
//! order. Equality of points is equality of field values, not of object
//! identity.

use crate::query::{queries_wf, OpeningQuery, PointGroup};
use crate::scalar::{lemma_val_injective, Scalar};
use vstd::prelude::*;

verus! {

/// Whether some scalar in the sequence has field value `v`.
pub open spec fn contains_point(ps: Seq<Scalar>, v: nat) -> bool {
    exists|i: int| 0 <= i < ps.len() && ps[i].val() == v
}

/// The distinct evaluation points of a query sequence, in the order each is
/// first encountered.
pub open spec fn first_points(qs: Seq<OpeningQuery>) -> Seq<Scalar>
    decreases qs.len(),
{
    if qs.len() == 0 {
        Seq::empty()
    } else {
        let prefix = first_points(qs.drop_last());
        if contains_point(prefix, qs.last().point.val()) {
            prefix
        } else {
            prefix.push(qs.last().point)
        }
    }
}

/// The queries whose point has field value `p`, in input order.
pub open spec fn at_point(qs: Seq<OpeningQuery>, p: nat) -> Seq<OpeningQuery> {
    qs.filter(|q: OpeningQuery| q.point.val() == p)
}

/// The points of a group sequence.
pub open spec fn group_points(gs: Seq<PointGroup>) -> Seq<Scalar> {
    gs.map_values(|g: PointGroup| g.point)
}

/// `gs` is the partition of `qs` by evaluation point: one group per distinct
/// point, in first-occurrence order, each holding exactly the queries at its
/// point, in input order.
pub open spec fn grouped(qs: Seq<OpeningQuery>, gs: Seq<PointGroup>) -> bool {
    &&& group_points(gs) == first_points(qs)
    &&& forall|i: int|
        0 <= i < gs.len() ==> (#[trigger] gs[i]).queries@ == at_point(qs, gs[i].point.val())
}

/// A sequence in which no query sits at point value `p` filters to nothing.
proof fn lemma_filter_none(qs: Seq<OpeningQuery>, p: nat)
    requires
        forall|i: int| 0 <= i < qs.len() ==> (#[trigger] qs[i]).point.val() != p,
    ensures
        at_point(qs, p) == Seq::<OpeningQuery>::empty(),
    decreases qs.len(),
{
    reveal(Seq::filter);
    if qs.len() == 0 {
        assert(at_point(qs, p) =~= Seq::<OpeningQuery>::empty());
    } else {
        assert(forall|i: int|
            0 <= i < qs.drop_last().len() ==> (#[trigger] qs.drop_last()[i]).point.val() != p);
        lemma_filter_none(qs.drop_last(), p);
        assert(qs.last().point.val() != p);
    }
}

/// Every query selected by `at_point` sits at that point.
pub proof fn lemma_at_point_members(qs: Seq<OpeningQuery>, p: nat)
    ensures
        forall|k: int|
            0 <= k < at_point(qs, p).len() ==> (#[trigger] at_point(qs, p)[k]).point.val() == p,
    decreases qs.len(),
{
    reveal(Seq::filter);
    if qs.len() > 0 {
        lemma_at_point_members(qs.drop_last(), p);
        let prefix = at_point(qs.drop_last(), p);
        assert forall|k: int| 0 <= k < at_point(qs, p).len() implies (#[trigger] at_point(
            qs,
            p,
        )[k]).point.val() == p by {
            if k < prefix.len() {
                assert(at_point(qs, p)[k] == prefix[k]);
            }
        }
    }
}

/// Every query's point value occurs among the distinct points.
pub proof fn lemma_point_in_first_points(qs: Seq<OpeningQuery>, m: int)
    requires
        0 <= m < qs.len(),
    ensures
        contains_point(first_points(qs), qs[m].point.val()),
    decreases qs.len(),
{
    let prefix = first_points(qs.drop_last());
    if m == qs.len() - 1 {
        if !contains_point(prefix, qs.last().point.val()) {
            assert(first_points(qs)[prefix.len() as int].val() == qs[m].point.val());
        }
    } else {
        lemma_point_in_first_points(qs.drop_last(), m);
        let w = choose|w: int| 0 <= w < prefix.len() && prefix[w].val() == qs[m].point.val();
        assert(first_points(qs)[w].val() == qs[m].point.val());
    }
}

/// A query that sits at point value `p` is kept by `at_point`.
pub proof fn lemma_at_point_complete(qs: Seq<OpeningQuery>, p: nat, m: int)
    requires
        0 <= m < qs.len(),
        qs[m].point.val() == p,
    ensures
        at_point(qs, p).contains(qs[m]),
    decreases qs.len(),
{
    reveal(Seq::filter);
    let prefix = at_point(qs.drop_last(), p);
    if m == qs.len() - 1 {
        assert(at_point(qs, p)[prefix.len() as int] == qs[m]);
    } else {
        lemma_at_point_complete(qs.drop_last(), p, m);
        let w = choose|w: int| 0 <= w < prefix.len() && prefix[w] == qs.drop_last()[m];
        assert(at_point(qs, p)[w] == qs[m]);
    }
}

/// The distinct points really are distinct: no value occurs twice.
pub proof fn lemma_first_points_distinct(qs: Seq<OpeningQuery>)
    ensures
        forall|i: int, j: int|
            0 <= i < j < first_points(qs).len() ==> first_points(qs)[i].val() != first_points(
                qs,
            )[j].val(),
    decreases qs.len(),
{
    if qs.len() > 0 {
        lemma_first_points_distinct(qs.drop_last());
        let prefix = first_points(qs.drop_last());
        if !contains_point(prefix, qs.last().point.val()) {
            assert forall|i: int, j: int|
                0 <= i < j < first_points(qs).len() implies first_points(qs)[i].val()
                != first_points(qs)[j].val() by {
                if j < prefix.len() {
                } else {
                    assert(first_points(qs)[i] == prefix[i]);
                }
            }
        }
    }
}

/// A partition is a partition: every input query lands in exactly one group.
pub proof fn lemma_partition_covers(qs: Seq<OpeningQuery>, gs: Seq<PointGroup>, m: int)
    requires
        grouped(qs, gs),
        0 <= m < qs.len(),
    ensures
        exists|i: int| 0 <= i < gs.len() && (#[trigger] gs[i]).queries@.contains(qs[m]),
        forall|i: int, j: int|
            0 <= i < j < gs.len() ==> !(#[trigger] gs[i]).queries@.contains(qs[m]) || !(
            #[trigger] gs[j]).queries@.contains(qs[m]),
{
    let p = qs[m].point.val();
    lemma_point_in_first_points(qs, m);
    let w = choose|w: int|
        0 <= w < first_points(qs).len() && first_points(qs)[w].val() == p;
    assert(group_points(gs)[w] == gs[w].point);
    lemma_at_point_complete(qs, p, m);
    assert(gs[w].queries@.contains(qs[m]));
    lemma_first_points_distinct(qs);
    assert forall|i: int, j: int|
        0 <= i < j < gs.len() implies !(#[trigger] gs[i]).queries@.contains(qs[m]) || !(
    #[trigger] gs[j]).queries@.contains(qs[m]) by {
        assert(group_points(gs)[i] == gs[i].point);
        assert(group_points(gs)[j] == gs[j].point);
        if gs[i].queries@.contains(qs[m]) && gs[j].queries@.contains(qs[m]) {
            lemma_at_point_members(qs, gs[i].point.val());
            lemma_at_point_members(qs, gs[j].point.val());
            let a = choose|a: int|
                0 <= a < gs[i].queries@.len() && gs[i].queries@[a] == qs[m];
            let b = choose|b: int|
                0 <= b < gs[j].queries@.len() && gs[j].queries@[b] == qs[m];
            assert(gs[i].point.val() == qs[m].point.val());
            assert(gs[j].point.val() == qs[m].point.val());
        }
    }
}

/// Partition `queries` into point groups.
pub fn group_queries(queries: Vec<OpeningQuery>) -> (r: Vec<PointGroup>)
    requires
        queries_wf(queries@),
    ensures
        grouped(queries@, r@),
        forall|i: int| 0 <= i < r@.len() ==> (#[trigger] r@[i]).queries@.len() > 0,
        forall|i: int, j: int|
            0 <= i < j < r@.len() ==> r@[i].point.val() != r@[j].point.val(),
        forall|i: int| 0 <= i < r@.len() ==> (#[trigger] r@[i]).point.wf(),
        forall|i: int| 0 <= i < r@.len() ==> queries_wf((#[trigger] r@[i]).queries@),
{
    let ghost qs = queries@;
    let mut rest = queries;
    let mut groups: Vec<PointGroup> = Vec::new();
    let ghost mut k: int = 0;
    proof {
        assert(qs.take(0) =~= Seq::<OpeningQuery>::empty());
        assert(group_points(groups@) =~= first_points(qs.take(0)));
    }
    while rest.len() > 0
        invariant
            0 <= k <= qs.len(),
            rest@ == qs.skip(k),
            queries_wf(qs),
            grouped(qs.take(k), groups@),
            forall|i: int| 0 <= i < groups@.len() ==> (#[trigger] groups@[i]).queries@.len() > 0,
            forall|i: int, j: int|
                0 <= i < j < groups@.len() ==> groups@[i].point.val() != groups@[j].point.val(),
            forall|i: int| 0 <= i < groups@.len() ==> (#[trigger] groups@[i]).point.wf(),
            forall|i: int|
                0 <= i < groups@.len() ==> queries_wf((#[trigger] groups@[i]).queries@),
            forall|m: int|
                0 <= m < k ==> contains_point(
                    group_points(groups@),
                    (#[trigger] qs[m]).point.val(),
                ),
        decreases rest@.len(),
    {
        let q = rest.remove(0);
        proof {
            assert(q == qs[k]);
            assert(rest@ =~= qs.skip(k + 1));
            assert(qs.take(k + 1) =~= qs.take(k).push(q));
            assert(qs.take(k + 1).drop_last() =~= qs.take(k));
        }
        // find the group already holding this point, if any
        let mut idx: usize = groups.len();
        let mut j: usize = 0;
        while j < groups.len()
            invariant
                0 <= j <= groups@.len(),
                idx <= groups@.len(),
                idx < groups@.len() ==> groups@[idx as int].point.val() == q.point.val(),
                idx == groups@.len() ==> forall|m: int|
                    0 <= m < j ==> groups@[m].point.val() != q.point.val(),
            decreases groups@.len() - j,
        {
            if groups[j].point == q.point {
                idx = j;
            } else {
                proof {
                    if groups@[j as int].point.val() == q.point.val() {
                        lemma_val_injective(groups@[j as int].point, q.point);
                    }
                }
            }
            j = j + 1;
        }
        if idx < groups.len() {
            let ghost prevg = groups@;
            let mut g = groups.remove(idx);
            g.queries.push(q);
            groups.insert(idx, g);
            proof {
                assert(groups@ =~= prevg.update(
                    idx as int,
                    PointGroup { point: prevg[idx as int].point, queries: g.queries },
                ));
                assert(group_points(groups@) =~= group_points(prevg));
                assert(group_points(prevg)[idx as int] == prevg[idx as int].point);
                assert(first_points(qs.take(k))[idx as int].val() == q.point.val());
                assert(contains_point(first_points(qs.take(k)), q.point.val()));
                assert(first_points(qs.take(k + 1)) == first_points(qs.take(k)));
                assert forall|i: int| 0 <= i < groups@.len() implies (#[trigger] groups@[i]).queries@
                    == at_point(qs.take(k + 1), groups@[i].point.val()) by {
                    reveal(Seq::filter);
                    let p = groups@[i].point.val();
                    if i == idx as int {
                        assert(prevg[i].queries@ == at_point(qs.take(k), p));
                        assert(at_point(qs.take(k + 1), p) == at_point(qs.take(k), p).push(q));
                    } else {
                        assert(prevg[i].queries@ == at_point(qs.take(k), p));
                        assert(p != q.point.val());
                        assert(at_point(qs.take(k + 1), p) == at_point(qs.take(k), p));
                    }
                }
                assert forall|m: int| 0 <= m < k + 1 implies contains_point(
                    group_points(groups@),
                    (#[trigger] qs[m]).point.val(),
                ) by {
                    if m == k {
                        assert(group_points(groups@)[idx as int].val() == q.point.val());
                    } else {
                        assert(contains_point(group_points(prevg), qs[m].point.val()));
                    }
                }
                k = k + 1;
            }
        } else {
            let ghost prevg = groups@;
            let gp = q.point;
            let mut qv: Vec<OpeningQuery> = Vec::new();
            qv.push(q);
            groups.push(PointGroup { point: gp, queries: qv });
            proof {
                assert(groups@ =~= prevg.push(groups@.last()));
                assert(group_points(groups@) =~= group_points(prevg).push(gp));
                assert forall|i: int|
                    0 <= i < first_points(qs.take(k)).len() implies first_points(qs.take(k))[i].val()
                    != q.point.val() by {
                    assert(first_points(qs.take(k))[i] == group_points(prevg)[i]);
                    assert(group_points(prevg)[i] == prevg[i].point);
                }
                assert(!contains_point(first_points(qs.take(k)), q.point.val()));
                assert(first_points(qs.take(k + 1)) == first_points(qs.take(k)).push(gp));
                assert forall|m: int| 0 <= m < qs.take(k).len() implies (#[trigger] qs.take(
                    k,
                )[m]).point.val() != q.point.val() by {
                    assert(contains_point(group_points(prevg), qs[m].point.val()));
                    let w = choose|w: int|
                        0 <= w < group_points(prevg).len() && group_points(prevg)[w].val() == qs[
                            m
                        ].point.val();
                    assert(group_points(prevg)[w] == prevg[w].point);
                }
                lemma_filter_none(qs.take(k), q.point.val());
                assert forall|i: int| 0 <= i < groups@.len() implies (#[trigger] groups@[i]).queries@
                    == at_point(qs.take(k + 1), groups@[i].point.val()) by {
                    reveal(Seq::filter);
                    let p = groups@[i].point.val();
                    if i < prevg.len() {
                        assert(groups@[i] == prevg[i]);
                        assert(prevg[i].queries@ == at_point(qs.take(k), p));
                        assert(p != q.point.val());
                        assert(at_point(qs.take(k + 1), p) == at_point(qs.take(k), p));
                    } else {
                        assert(p == q.point.val());
                        assert(at_point(qs.take(k + 1), p) == at_point(qs.take(k), p).push(q));
                        assert(groups@[i].queries@ =~= at_point(qs.take(k), p).push(q));
                    }
                }
                assert forall|m: int| 0 <= m < k + 1 implies contains_point(
                    group_points(groups@),
                    (#[trigger] qs[m]).point.val(),
                ) by {
                    if m == k {
                        assert(group_points(groups@)[prevg.len() as int].val() == q.point.val());
                    } else {
                        assert(contains_point(group_points(prevg), qs[m].point.val()));
                        let w = choose|w: int|
                            0 <= w < group_points(prevg).len() && group_points(prevg)[w].val()
                                == qs[m].point.val();
                        assert(group_points(groups@)[w].val() == qs[m].point.val());
                    }
                }
                k = k + 1;
            }
        }
    }
    proof {
        assert(qs.take(k) =~= qs);
    }
    groups
}

} // verus!
