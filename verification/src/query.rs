//! Opening claims as the verifier receives them.

use crate::msm::MsmAccumulator;
use crate::scalar::Scalar;
use vstd::prelude::*;

verus! {

/// What a claim's commitment is: a single group element, or a linear
/// combination computed earlier in the protocol and still held symbolically.
pub enum CommitmentRef {
    Direct(halo2curves::bn256::G1),
    Nested(MsmAccumulator),
}

/// One opening claim: the polynomial committed to by `commitment` evaluates
/// to `eval` at `point`.
pub struct OpeningQuery {
    pub point: Scalar,
    pub commitment: CommitmentRef,
    pub eval: Scalar,
}

/// All queries opened at one evaluation point, in input order.
pub struct PointGroup {
    pub point: Scalar,
    pub queries: Vec<OpeningQuery>,
}

impl OpeningQuery {
    /// The evaluation point of the claim.
    pub fn point(&self) -> (r: Scalar)
        ensures
            r == self.point,
    {
        self.point
    }

    /// The claimed evaluation.
    pub fn eval(&self) -> (r: Scalar)
        ensures
            r == self.eval,
    {
        self.eval
    }

    /// The commitment the claim is against.
    pub fn commitment(&self) -> (r: &CommitmentRef)
        ensures
            r == &self.commitment,
    {
        &self.commitment
    }

    /// Scalars canonical; a nested commitment's accumulator well-formed.
    pub open spec fn wf(self) -> bool {
        &&& self.point.wf()
        &&& self.eval.wf()
        &&& match self.commitment {
            CommitmentRef::Direct(_) => true,
            CommitmentRef::Nested(m) => m.wf(),
        }
    }
}

/// Every query in the sequence is well-formed.
pub open spec fn queries_wf(qs: Seq<OpeningQuery>) -> bool {
    forall|i: int| 0 <= i < qs.len() ==> (#[trigger] qs[i]).wf()
}

} // verus!
