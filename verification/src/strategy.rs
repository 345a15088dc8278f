//! Batching of many proofs into one deferred pairing check.

use crate::curve::{entropy_scalar, msm_of, pairing_ok, ParamsKzg};
use crate::msm::{scale_terms, DualAccumulator};
use crate::scalar::Scalar;
use crate::VerifyError;
use vstd::prelude::*;

verus! {

/// A not-yet-checked pairing obligation, as one proof's verification leaves
/// it: consumed exactly once, by further batching or by a terminal check.
#[derive(Debug)]
pub struct Guard {
    pub msm_accumulator: DualAccumulator,
}

impl Guard {
    pub fn new(msm_accumulator: DualAccumulator) -> (r: Self)
        ensures
            r.msm_accumulator == msm_accumulator,
    {
        Guard { msm_accumulator }
    }

    /// Perform the deferred pairing check now.
    pub fn check(self, params: &ParamsKzg) -> (r: bool)
        ensures
            r == pairing_ok(
                msm_of(self.msm_accumulator.left@),
                msm_of(self.msm_accumulator.right@),
                params.s_g2,
                params.g2,
            ),
    {
        self.msm_accumulator.check(params)
    }
}

/// A source of batching randomness: an injected dependency, so that a run
/// can be reproduced in tests by seeding.
pub trait RandomSource: Sized {
    /// What one draw does: how the state after the draw and the drawn scalar
    /// relate to the state before. A deterministic source pins both; a source
    /// backed by real entropy can promise nothing here.
    spec fn draw_rel(pre: Self, post: Self, r: Scalar) -> bool;

    /// Some canonically represented scalar; which one is the source's
    /// business, within its own `draw_rel`.
    fn random_scalar(&mut self) -> (r: Scalar)
        ensures
            r.wf(),
            Self::draw_rel(*old(self), *final(self), r),
    ;
}

/// Randomness from the operating system.
pub struct EntropySource;

impl RandomSource for EntropySource {
    /// Nothing holds of an entropy draw beyond well-formedness.
    open spec fn draw_rel(pre: Self, post: Self, r: Scalar) -> bool {
        true
    }

    fn random_scalar(&mut self) -> (r: Scalar) {
        entropy_scalar()
    }
}

/// A small deterministic generator (splitmix64) for reproducible batching
/// in tests. Not a cryptographic source.
pub struct SplitMixSource {
    pub state: u64,
}

/// The state after one splitmix64 step.
pub open spec fn splitmix_next(state: u64) -> u64 {
    vstd::wrapping::u64_specs::wrapping_add(state, 0x9e3779b97f4a7c15)
}

/// The value one splitmix64 step yields from `state`.
pub open spec fn splitmix_output(state: u64) -> u64 {
    let s = splitmix_next(state);
    let z1 = vstd::wrapping::u64_specs::wrapping_mul(s ^ (s >> 30), 0xbf58476d1ce4e5b9);
    let z2 = vstd::wrapping::u64_specs::wrapping_mul(z1 ^ (z1 >> 27), 0x94d049bb133111eb);
    z2 ^ (z2 >> 31)
}

impl SplitMixSource {
    pub fn new(seed: u64) -> (r: Self)
        ensures
            r.state == seed,
    {
        SplitMixSource { state: seed }
    }
}

impl RandomSource for SplitMixSource {
    /// Fully deterministic: the new state and the drawn scalar are exact
    /// functions of the old state, so a run is reproducible from its seed.
    open spec fn draw_rel(pre: Self, post: Self, r: Scalar) -> bool {
        &&& post.state == splitmix_next(pre.state)
        &&& r == (Scalar { l0: splitmix_output(pre.state), l1: 0, l2: 0, l3: 0 })
    }

    fn random_scalar(&mut self) -> (r: Scalar) {
        self.state = self.state.wrapping_add(0x9e3779b97f4a7c15);
        let mut z = self.state;
        z = (z ^ (z >> 30)).wrapping_mul(0xbf58476d1ce4e5b9);
        z = (z ^ (z >> 27)).wrapping_mul(0x94d049bb133111eb);
        z = z ^ (z >> 31);
        crate::scalar::scalar_from_u64(z)
    }
}

/// `a` is `base` with both sides scaled by `s`.
pub open spec fn scaled_by(a: DualAccumulator, s: Scalar, base: DualAccumulator) -> bool {
    &&& a.left@ == scale_terms(s.val(), base.left@)
    &&& a.right@ == scale_terms(s.val(), base.right@)
}

/// Batch verification: a running dual accumulator plus an owned randomness
/// source. Each proof's contribution is re-randomized by a fresh scalar
/// before being folded in — a distinct random weight per proof keeps a
/// forged term from cancelling an honest one when the equations are summed —
/// and the pairing is paid once, in `finalize`.
pub struct BatchVerifier<R: RandomSource> {
    pub msm_accumulator: DualAccumulator,
    pub rng: R,
}

impl<R: RandomSource> BatchVerifier<R> {
    pub open spec fn wf(self) -> bool {
        self.msm_accumulator.wf()
    }

    /// Start a batch: zero accumulator, injected randomness source.
    pub fn new(rng: R) -> (r: Self)
        ensures
            r.wf(),
            r.msm_accumulator.left@ == Seq::<(nat, halo2curves::bn256::G1)>::empty(),
            r.msm_accumulator.right@ == Seq::<(nat, halo2curves::bn256::G1)>::empty(),
            r.rng == rng,
    {
        BatchVerifier { msm_accumulator: DualAccumulator::new(), rng }
    }

    /// Continue a batch from an already-accumulated state.
    pub fn with(msm_accumulator: DualAccumulator, rng: R) -> (r: Self)
        requires
            msm_accumulator.wf(),
        ensures
            r.wf(),
            r.msm_accumulator == msm_accumulator,
            r.rng == rng,
    {
        BatchVerifier { msm_accumulator, rng }
    }

    /// Fold one proof into the batch: draw a fresh random scalar, scale the
    /// running accumulator by it, and hand the scaled accumulator to `f`,
    /// which is expected to run a single-proof verification into it and
    /// return the resulting guard. The guard's accumulator becomes the new
    /// running accumulator.
    ///
    /// The ensures names the scaled accumulator `a` that `f` was called
    /// with: on success the new batch state is exactly the accumulator of
    /// the guard `f` produced from `a`, and on failure the error is the one
    /// `f` returned for `a`.
    pub fn process<F: FnOnce(DualAccumulator) -> Result<Guard, VerifyError>>(self, f: F) -> (r:
        Result<Self, VerifyError>)
        requires
            self.wf(),
            forall|a: DualAccumulator| a.wf() ==> #[trigger] call_requires(f, (a,)),
            forall|a: DualAccumulator, res: Result<Guard, VerifyError>|
                #[trigger] call_ensures(f, (a,), res) ==> (res matches Ok(g)
                    ==> g.msm_accumulator.wf()),
        ensures
            r matches Ok(b) ==> b.wf(),
            r matches Ok(b) ==> exists|s: Scalar, a: DualAccumulator|
                {
                    &&& s.wf()
                    &&& a.wf()
                    &&& #[trigger] scaled_by(a, s, self.msm_accumulator)
                    &&& R::draw_rel(self.rng, b.rng, s)
                    &&& call_ensures(
                        f,
                        (a,),
                        Ok::<Guard, VerifyError>((Guard { msm_accumulator: b.msm_accumulator })),
                    )
                },
            r matches Err(e) ==> exists|s: Scalar, a: DualAccumulator|
                {
                    &&& s.wf()
                    &&& a.wf()
                    &&& #[trigger] scaled_by(a, s, self.msm_accumulator)
                    &&& call_ensures(f, (a,), Err::<Guard, VerifyError>(e))
                },
    {
        let mut this = self;
        let s = this.rng.random_scalar();
        this.msm_accumulator.scale(&s);
        let BatchVerifier { msm_accumulator, rng } = this;
        let ghost a = msm_accumulator;
        match f(msm_accumulator) {
            Ok(guard) => {
                let next = BatchVerifier::with(guard.msm_accumulator, rng);
                proof {
                    assert(scaled_by(a, s, self.msm_accumulator));
                    assert(call_ensures(
                        f,
                        (a,),
                        Ok::<Guard, VerifyError>((Guard { msm_accumulator: next.msm_accumulator })),
                    ));
                }
                Ok(next)
            },
            Err(e) => {
                proof {
                    assert(scaled_by(a, s, self.msm_accumulator));
                }
                Err(e)
            },
        }
    }

    /// The single, amortized pairing check over everything folded in:
    /// whether `e(left, s_g2) == e(right, g2)` holds of the two evaluated
    /// sides of the running accumulator.
    pub fn finalize(self, params: &ParamsKzg) -> (r: bool)
        ensures
            r == pairing_ok(
                msm_of(self.msm_accumulator.left@),
                msm_of(self.msm_accumulator.right@),
                params.s_g2,
                params.g2,
            ),
    {
        self.msm_accumulator.check(params)
    }

    /// As `finalize`, but reporting a rejected batch as `RejectedProof`, so
    /// that a false proof stays distinguishable from a malformed one.
    pub fn finalize_strict(self, params: &ParamsKzg) -> (r: Result<(), VerifyError>)
        ensures
            r is Ok <==> pairing_ok(
                msm_of(self.msm_accumulator.left@),
                msm_of(self.msm_accumulator.right@),
                params.s_g2,
                params.g2,
            ),
            r matches Err(e) ==> e == VerifyError::RejectedProof,
    {
        if self.finalize(params) {
            Ok(())
        } else {
            Err(VerifyError::RejectedProof)
        }
    }
}

} // verus!
