//! The transcript oracle the verifier draws challenges and proof elements
//! from.
//!
//! The oracle is deterministic: what it answers is a function of its state,
//! and each operation moves the state forward. The trait exposes that
//! structure and nothing else — how challenges are actually derived from
//! prior transcript bytes is the implementation's business.

use crate::scalar::Scalar;
use crate::VerifyError;
use vstd::prelude::*;

verus! {

/// A deterministic, stateful source of challenges and proof points.
///
/// `St` is the implementation's model of its own state; `challenge_of`,
/// `point_of` and the two `after_*` functions say what each operation
/// answers in a given state and which state it leads to. Verification
/// results are therefore functions of the starting state alone.
pub trait Transcript: Sized {
    /// The abstract transcript state.
    type St;

    /// The implementation's invariant.
    spec fn inv(&self) -> bool;

    /// The current abstract state.
    spec fn st(&self) -> Self::St;

    /// The challenge squeezed in state `s`.
    spec fn challenge_of(s: Self::St) -> Scalar;

    /// The state after squeezing a challenge in state `s`.
    spec fn after_challenge(s: Self::St) -> Self::St;

    /// The point read in state `s`, or `None` if the next bytes do not
    /// decode to a curve point.
    spec fn point_of(s: Self::St) -> Option<halo2curves::bn256::G1>;

    /// The state after a successful point read in state `s`.
    spec fn after_point(s: Self::St) -> Self::St;

    /// Draw the next challenge scalar.
    fn squeeze_challenge(&mut self) -> (r: Scalar)
        requires
            old(self).inv(),
        ensures
            final(self).inv(),
            r == Self::challenge_of(old(self).st()),
            r.wf(),
            final(self).st() == Self::after_challenge(old(self).st()),
    ;

    /// Read the next proof element as a curve point.
    fn read_point(&mut self) -> (r: Result<halo2curves::bn256::G1, VerifyError>)
        requires
            old(self).inv(),
        ensures
            final(self).inv(),
            match Self::point_of(old(self).st()) {
                Some(p) => r == Ok::<halo2curves::bn256::G1, VerifyError>(p) && final(self).st()
                    == Self::after_point(old(self).st()),
                None => r == Err::<halo2curves::bn256::G1, VerifyError>(
                    VerifyError::SamplingError,
                ) && final(self).st() == old(self).st(),
            },
    ;
}

/// A transcript replayed from prepared material: a list of proof elements
/// (already decoded, `None` standing for bytes that do not decode) and a
/// list of challenge scalars.
///
/// Its state is what remains of both lists. A squeeze on an exhausted
/// challenge list answers zero.
pub struct SequenceTranscript {
    pub elements: Vec<Option<halo2curves::bn256::G1>>,
    pub challenges: Vec<Scalar>,
    pub next_element: usize,
    pub next_challenge: usize,
}

impl SequenceTranscript {
    pub fn new(
        elements: Vec<Option<halo2curves::bn256::G1>>,
        challenges: Vec<Scalar>,
    ) -> (r: Self)
        requires
            forall|i: int| 0 <= i < challenges@.len() ==> (#[trigger] challenges@[i]).wf(),
        ensures
            r.inv(),
            r.st() == (elements@, challenges@),
    {
        let r = SequenceTranscript { elements, challenges, next_element: 0, next_challenge: 0 };
        proof {
            assert(r.st().0 =~= r.elements@);
            assert(r.st().1 =~= r.challenges@);
        }
        r
    }
}

impl Transcript for SequenceTranscript {
    /// What is still to be served: remaining elements, remaining challenges.
    type St = (Seq<Option<halo2curves::bn256::G1>>, Seq<Scalar>);

    open spec fn inv(&self) -> bool {
        &&& self.next_element <= self.elements@.len()
        &&& self.next_challenge <= self.challenges@.len()
        &&& forall|i: int| 0 <= i < self.challenges@.len() ==> (#[trigger] self.challenges@[i]).wf()
    }

    open spec fn st(&self) -> Self::St {
        (self.elements@.skip(self.next_element as int), self.challenges@.skip(
            self.next_challenge as int,
        ))
    }

    open spec fn challenge_of(s: Self::St) -> Scalar {
        if s.1.len() > 0 {
            s.1[0]
        } else {
            Scalar { l0: 0, l1: 0, l2: 0, l3: 0 }
        }
    }

    open spec fn after_challenge(s: Self::St) -> Self::St {
        if s.1.len() > 0 {
            (s.0, s.1.skip(1))
        } else {
            s
        }
    }

    open spec fn point_of(s: Self::St) -> Option<halo2curves::bn256::G1> {
        if s.0.len() > 0 {
            s.0[0]
        } else {
            None
        }
    }

    open spec fn after_point(s: Self::St) -> Self::St {
        if s.0.len() > 0 {
            (s.0.skip(1), s.1)
        } else {
            s
        }
    }

    fn squeeze_challenge(&mut self) -> (r: Scalar) {
        if self.next_challenge < self.challenges.len() {
            let c = self.challenges[self.next_challenge];
            self.next_challenge = self.next_challenge + 1;
            proof {
                assert(self.challenges@.skip(self.next_challenge as int) =~= old(
                    self,
                ).challenges@.skip(old(self).next_challenge as int).skip(1));
            }
            c
        } else {
            proof {
                assert(old(self).st().1.len() == 0);
            }
            Scalar { l0: 0, l1: 0, l2: 0, l3: 0 }
        }
    }

    fn read_point(&mut self) -> (r: Result<halo2curves::bn256::G1, VerifyError>) {
        if self.next_element < self.elements.len() {
            let e = &self.elements[self.next_element];
            match e {
                Some(p) => {
                    let out = p.clone();
                    self.next_element = self.next_element + 1;
                    proof {
                        assert(self.elements@.skip(self.next_element as int) =~= old(
                            self,
                        ).elements@.skip(old(self).next_element as int).skip(1));
                    }
                    Ok(out)
                },
                None => Err(VerifyError::SamplingError),
            }
        } else {
            proof {
                assert(old(self).st().0.len() == 0);
            }
            Err(VerifyError::SamplingError)
        }
    }
}

} // verus!
