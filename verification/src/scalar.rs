//! Elements of the BN254 scalar field, held in canonical limb form.
//!
//! The verifier's algebra is stated over the mathematical value of each
//! scalar (a natural number below the field order); the field arithmetic
//! itself is done by `halo2curves`.

use vstd::arithmetic::div_mod::lemma_fundamental_div_mod_converse;
use vstd::prelude::*;

verus! {

/// An element of the BN254 scalar field, as the four little-endian 64-bit
/// limbs of its canonical (fully reduced) representation.
#[derive(Clone, Copy, Debug, PartialEq, Eq, Structural)]
pub struct Scalar {
    pub l0: u64,
    pub l1: u64,
    pub l2: u64,
    pub l3: u64,
}

/// The order of the BN254 scalar field,
/// 0x30644e72e131a029b85045b68181585d2833e84879b9709143e1f593f0000001,
/// written over its little-endian 64-bit limbs.
pub open spec fn fr_order() -> nat {
    0x43e1f593f0000001 + 0x10000000000000000 * (0x2833e84879b97091 + 0x10000000000000000
        * (0xb85045b68181585d + 0x10000000000000000 * 0x30644e72e131a029nat))
}

/// Addition in the scalar field, on values.
pub open spec fn sc_add(a: nat, b: nat) -> nat {
    (a + b) % fr_order()
}

/// Multiplication in the scalar field, on values.
pub open spec fn sc_mul(a: nat, b: nat) -> nat {
    (a * b) % fr_order()
}

impl Scalar {
    /// The natural number encoded by the limbs.
    pub open spec fn val(self) -> nat {
        (self.l0 as nat) + 0x10000000000000000 * ((self.l1 as nat) + 0x10000000000000000
            * ((self.l2 as nat) + 0x10000000000000000 * (self.l3 as nat)))
    }

    /// The limbs are the canonical representation: their value is reduced.
    pub open spec fn wf(self) -> bool {
        self.val() < fr_order()
    }
}

/// Two scalars with the same value have the same limbs: the limbs are the
/// base-2^64 digits of the value, and digits are unique.
pub proof fn lemma_val_injective(a: Scalar, b: Scalar)
    requires
        a.val() == b.val(),
    ensures
        a == b,
{
    let base: int = 0x10000000000000000;
    let qa: int = a.l1 + base * (a.l2 + base * a.l3);
    let qb: int = b.l1 + base * (b.l2 + base * b.l3);
    assert(a.val() as int == base * qa + a.l0);
    assert(b.val() as int == base * qb + b.l0);
    lemma_fundamental_div_mod_converse(a.val() as int, base, qa, a.l0 as int);
    lemma_fundamental_div_mod_converse(b.val() as int, base, qb, b.l0 as int);
    let qa2: int = a.l2 + base * a.l3;
    let qb2: int = b.l2 + base * b.l3;
    lemma_fundamental_div_mod_converse(qa, base, qa2, a.l1 as int);
    lemma_fundamental_div_mod_converse(qb, base, qb2, b.l1 as int);
    lemma_fundamental_div_mod_converse(qa2, base, a.l3 as int, a.l2 as int);
    lemma_fundamental_div_mod_converse(qb2, base, b.l3 as int, b.l2 as int);
}

/// The zero scalar.
pub fn scalar_zero() -> (r: Scalar)
    ensures
        r.wf(),
        r.val() == 0,
{
    Scalar { l0: 0, l1: 0, l2: 0, l3: 0 }
}

/// The one scalar.
pub fn scalar_one() -> (r: Scalar)
    ensures
        r.wf(),
        r.val() == 1,
{
    Scalar { l0: 1, l1: 0, l2: 0, l3: 0 }
}

/// A scalar from a small integer.
pub fn scalar_from_u64(x: u64) -> (r: Scalar)
    ensures
        r.wf(),
        r.val() == x,
{
    Scalar { l0: x, l1: 0, l2: 0, l3: 0 }
}

/// Relies on `halo2curves::bn256::Fr`: `Fr::from_raw` maps limbs to the
/// congruent field element, `+` is addition modulo the field order, and
/// `Fr::to_bytes` returns the canonical little-endian representation.
#[verifier::external_body]
pub(crate) fn scalar_add(a: &Scalar, b: &Scalar) -> (r: Scalar)
    ensures
        r.wf(),
        r.val() == sc_add(a.val(), b.val()),
{
    let x = halo2curves::bn256::Fr::from_raw([a.l0, a.l1, a.l2, a.l3]);
    let y = halo2curves::bn256::Fr::from_raw([b.l0, b.l1, b.l2, b.l3]);
    let c = (x + y).to_bytes();
    Scalar {
        l0: u64::from_le_bytes(c[0..8].try_into().unwrap()),
        l1: u64::from_le_bytes(c[8..16].try_into().unwrap()),
        l2: u64::from_le_bytes(c[16..24].try_into().unwrap()),
        l3: u64::from_le_bytes(c[24..32].try_into().unwrap()),
    }
}

/// Relies on `halo2curves::bn256::Fr`: `Fr::from_raw` maps limbs to the
/// congruent field element, `*` is multiplication modulo the field order,
/// and `Fr::to_bytes` returns the canonical little-endian representation.
#[verifier::external_body]
pub(crate) fn scalar_mul(a: &Scalar, b: &Scalar) -> (r: Scalar)
    ensures
        r.wf(),
        r.val() == sc_mul(a.val(), b.val()),
{
    let x = halo2curves::bn256::Fr::from_raw([a.l0, a.l1, a.l2, a.l3]);
    let y = halo2curves::bn256::Fr::from_raw([b.l0, b.l1, b.l2, b.l3]);
    let c = (x * y).to_bytes();
    Scalar {
        l0: u64::from_le_bytes(c[0..8].try_into().unwrap()),
        l1: u64::from_le_bytes(c[8..16].try_into().unwrap()),
        l2: u64::from_le_bytes(c[16..24].try_into().unwrap()),
        l3: u64::from_le_bytes(c[24..32].try_into().unwrap()),
    }
}

} // verus!
