//! The lazy multi-scalar-multiplication accumulator.
//!
//! An accumulator is an ordered list of `(coefficient, point)` terms standing
//! for the group element `sum coeff_i * base_i`, kept symbolic so that many
//! proofs' work can be merged before any group arithmetic is paid for. Its
//! contract is exact at the term-list level: every operation says precisely
//! which terms the accumulator holds afterwards.

use crate::curve::msm_eval;
use crate::scalar::{sc_mul, Scalar};
use vstd::prelude::*;

verus! {

/// One pending term `coeff * base`.
#[derive(Debug)]
pub struct MsmTerm {
    pub coeff: Scalar,
    pub base: halo2curves::bn256::G1,
}

impl Clone for MsmTerm {
    fn clone(&self) -> (r: Self)
        ensures
            r == *self,
    {
        MsmTerm { coeff: self.coeff, base: self.base.clone() }
    }
}

/// The value of a term list: each coefficient as a field value, each base as
/// the opaque point it multiplies.
pub open spec fn terms_value(ts: Seq<MsmTerm>) -> Seq<(nat, halo2curves::bn256::G1)> {
    ts.map_values(|t: MsmTerm| (t.coeff.val(), t.base))
}

/// A term list with every coefficient multiplied (in the field) by `s`.
pub open spec fn scale_terms(
    s: nat,
    ts: Seq<(nat, halo2curves::bn256::G1)>,
) -> Seq<(nat, halo2curves::bn256::G1)> {
    ts.map_values(|t: (nat, halo2curves::bn256::G1)| (sc_mul(t.0, s), t.1))
}

/// Valuing a term list commutes with appending a term.
pub proof fn lemma_terms_value_push(ts: Seq<MsmTerm>, t: MsmTerm)
    ensures
        terms_value(ts.push(t)) == terms_value(ts).push((t.coeff.val(), t.base)),
{
    assert(terms_value(ts.push(t)) =~= terms_value(ts).push((t.coeff.val(), t.base)));
}

/// Scaling a term list commutes with appending a term.
pub proof fn lemma_scale_terms_push(
    s: nat,
    ts: Seq<(nat, halo2curves::bn256::G1)>,
    t: (nat, halo2curves::bn256::G1),
)
    ensures
        scale_terms(s, ts.push(t)) == scale_terms(s, ts).push((sc_mul(t.0, s), t.1)),
{
    assert(scale_terms(s, ts.push(t)) =~= scale_terms(s, ts).push((sc_mul(t.0, s), t.1)));
}

/// A deferred linear combination of group elements.
#[derive(Debug)]
pub struct MsmAccumulator {
    pub terms: Vec<MsmTerm>,
}

impl View for MsmAccumulator {
    type V = Seq<(nat, halo2curves::bn256::G1)>;

    open spec fn view(&self) -> Seq<(nat, halo2curves::bn256::G1)> {
        terms_value(self.terms@)
    }
}

impl MsmAccumulator {
    /// Every stored coefficient is in canonical form.
    pub open spec fn wf(self) -> bool {
        forall|i: int| 0 <= i < self.terms@.len() ==> (#[trigger] self.terms@[i]).coeff.wf()
    }

    /// The additive identity: no terms.
    pub fn new() -> (r: Self)
        ensures
            r.wf(),
            r@ == Seq::<(nat, halo2curves::bn256::G1)>::empty(),
    {
        let r = MsmAccumulator { terms: Vec::new() };
        proof {
            assert(r@ =~= Seq::<(nat, halo2curves::bn256::G1)>::empty());
        }
        r
    }

    /// Multiply every term's coefficient by `s`: the represented group
    /// element is scaled by `s`.
    pub fn scale(&mut self, s: &Scalar)
        requires
            old(self).wf(),
            s.wf(),
        ensures
            final(self).wf(),
            final(self)@ == scale_terms(s.val(), old(self)@),
    {
        let ghost orig = self.terms@;
        let mut scaled: Vec<MsmTerm> = Vec::new();
        let mut i: usize = 0;
        while i < self.terms.len()
            invariant
                0 <= i <= self.terms@.len(),
                self.terms@ == orig,
                old(self).wf(),
                self.terms@ =~= old(self).terms@,
                terms_value(scaled@) =~= scale_terms(s.val(), terms_value(orig.take(i as int))),
                forall|k: int| 0 <= k < scaled@.len() ==> (#[trigger] scaled@[k]).coeff.wf(),
                s.wf(),
            decreases self.terms@.len() - i,
        {
            let ghost prev = scaled@;
            let t = &self.terms[i];
            let c = crate::scalar::scalar_mul(&t.coeff, s);
            scaled.push(MsmTerm { coeff: c, base: t.base.clone() });
            proof {
                assert(orig.take(i + 1) =~= orig.take(i as int).push(orig[i as int]));
                lemma_terms_value_push(orig.take(i as int), orig[i as int]);
                lemma_scale_terms_push(
                    s.val(),
                    terms_value(orig.take(i as int)),
                    (orig[i as int].coeff.val(), orig[i as int].base),
                );
                lemma_terms_value_push(prev, MsmTerm { coeff: c, base: t.base });
            }
            i = i + 1;
        }
        proof {
            assert(orig.take(orig.len() as int) =~= orig);
        }
        self.terms = scaled;
    }

    /// Add the single term `coeff * base` at the end.
    pub fn append_term(&mut self, coeff: Scalar, base: halo2curves::bn256::G1)
        requires
            old(self).wf(),
            coeff.wf(),
        ensures
            final(self).wf(),
            final(self)@ == old(self)@.push((coeff.val(), base)),
    {
        self.terms.push(MsmTerm { coeff, base });
        proof {
            assert(self@ =~= old(self)@.push((coeff.val(), base)));
        }
    }

    /// Merge another accumulator's full term list in, in order: the
    /// represented group elements are added.
    pub fn add_msm(&mut self, other: &MsmAccumulator)
        requires
            old(self).wf(),
            other.wf(),
        ensures
            final(self).wf(),
            final(self)@ == old(self)@ + other@,
    {
        let mut j: usize = 0;
        while j < other.terms.len()
            invariant
                0 <= j <= other.terms@.len(),
                other.wf(),
                self.wf(),
                self@ =~= old(self)@ + terms_value(other.terms@.take(j as int)),
            decreases other.terms@.len() - j,
        {
            let ghost prev = self.terms@;
            let t = other.terms[j].clone();
            self.terms.push(t);
            proof {
                let ot = other.terms@[j as int];
                assert(other.terms@.take(j + 1) =~= other.terms@.take(j as int).push(ot));
                lemma_terms_value_push(other.terms@.take(j as int), ot);
                lemma_terms_value_push(prev, ot);
                assert(terms_value(prev).push((ot.coeff.val(), ot.base)) =~= old(self)@
                    + terms_value(other.terms@.take(j + 1)));
            }
            j = j + 1;
        }
        proof {
            assert(other.terms@.take(other.terms@.len() as int) =~= other.terms@);
            assert(self@ =~= old(self)@ + other@);
        }
    }

    /// Evaluate the accumulated linear combination as one multi-scalar
    /// multiplication. This is the deferred group arithmetic; it is paid for
    /// once, when a pairing check needs the actual point.
    pub(crate) fn eval(&self) -> (r: halo2curves::bn256::G1)
        ensures
            r == crate::curve::msm_of(self@),
    {
        msm_eval(&self.terms)
    }
}

/// The two sides of a deferred pairing identity
/// `e(left, s_g2) == e(right, g2)`.
///
/// Both sides stay symbolic until `check`, so that many proofs can be merged
/// into one identity and the pairing paid for once.
#[derive(Debug)]
pub struct DualAccumulator {
    pub left: MsmAccumulator,
    pub right: MsmAccumulator,
}

impl DualAccumulator {
    pub open spec fn wf(self) -> bool {
        self.left.wf() && self.right.wf()
    }

    /// The zero identity: both sides empty.
    pub fn new() -> (r: Self)
        ensures
            r.wf(),
            r.left@ == Seq::<(nat, halo2curves::bn256::G1)>::empty(),
            r.right@ == Seq::<(nat, halo2curves::bn256::G1)>::empty(),
    {
        DualAccumulator { left: MsmAccumulator::new(), right: MsmAccumulator::new() }
    }

    /// Scale both sides uniformly by `s`: the identity is re-randomized but
    /// its truth is unchanged.
    pub fn scale(&mut self, s: &Scalar)
        requires
            old(self).wf(),
            s.wf(),
        ensures
            final(self).wf(),
            final(self).left@ == scale_terms(s.val(), old(self).left@),
            final(self).right@ == scale_terms(s.val(), old(self).right@),
    {
        self.left.scale(s);
        self.right.scale(s);
    }

    /// Evaluate both sides and perform the deferred pairing check: whether
    /// `e(left, s_g2) == e(right, g2)` for the scheme's G2 elements, each
    /// side evaluated as one multi-scalar multiplication over its full term
    /// list. This is the only point where the pairing primitive is invoked.
    pub fn check(self, params: &crate::curve::ParamsKzg) -> (r: bool)
        ensures
            r == crate::curve::pairing_ok(
                crate::curve::msm_of(self.left@),
                crate::curve::msm_of(self.right@),
                params.s_g2,
                params.g2,
            ),
    {
        let l = self.left.eval();
        let r = self.right.eval();
        crate::curve::pairing_check(&l, &r, &params.s_g2, &params.g2)
    }
}

} // verus!
