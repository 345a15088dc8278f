//! Verifier side of a KZG-style multi-open polynomial-commitment protocol
//! over the BN254 curve.
//!
//! Many opening claims (commitment, evaluation point, claimed value) are
//! folded into a single deferred pairing identity: queries are grouped by
//! evaluation point, each group is combined by a Horner fold over a
//! transcript challenge `v`, the groups are combined by a second fold over a
//! challenge `u`, and the resulting linear combinations are stored
//! symbolically in accumulators. The expensive pairing is evaluated once per
//! batch, after any number of proofs have been merged in.

use vstd::prelude::*;

pub mod curve;
pub mod grouping;
pub mod laws;
pub mod msm;
pub mod query;
pub mod scalar;
pub mod strategy;
pub mod transcript;
pub mod multiopen;

verus! {

/// Why a proof was not accepted.
///
/// A malformed input (the first two variants) is a different condition than a
/// well-formed but false proof (the last one), and callers may need to tell
/// them apart.
#[derive(Clone, Copy, Debug, PartialEq, Eq, Structural)]
pub enum VerifyError {
    /// The transcript's next bytes do not decode to a curve point.
    SamplingError,
    /// A query's point disagrees with the point of the group it was assigned
    /// to, or a group is empty.
    InvalidQuerySet,
    /// The final pairing check returned false.
    RejectedProof,
}

} // verus!
