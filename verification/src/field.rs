//! The scalar field `Zr` of BN254, as integers below the group order.

use ark_bn254::Fr;
use ark_ff::{BigInt, Field, PrimeField, UniformRand};
use rand::thread_rng;
use vstd::prelude::*;
use vstd::std_specs::cmp::PartialEqSpecImpl;

verus! {

/// The prime order `r` of the groups, which is the size of the scalar field.
pub open spec fn modulus() -> nat {
    21888242871839275222246405745257275088548364400416034343698204186575808495617nat
}

/// The least significant of the four 64-bit limbs of the modulus.
pub const MODULUS_LIMB_0: u64 = 0x43e1f593f0000001u64;

/// The second limb of the modulus.
pub const MODULUS_LIMB_1: u64 = 0x2833e84879b97091u64;

/// The third limb of the modulus.
pub const MODULUS_LIMB_2: u64 = 0xb85045b68181585du64;

/// The most significant limb of the modulus.
pub const MODULUS_LIMB_3: u64 = 0x30644e72e131a029u64;

/// The integer that four little-endian 64-bit limbs stand for.
pub open spec fn limbs_value(limbs: Seq<u64>) -> nat
    recommends
        limbs.len() == 4,
{
    (limbs[0] as nat) + (limbs[1] as nat) * 0x1_0000_0000_0000_0000nat + (limbs[2] as nat)
        * 0x1_0000_0000_0000_0000_0000_0000_0000_0000nat + (limbs[3] as nat)
        * 0x1_0000_0000_0000_0000_0000_0000_0000_0000_0000_0000_0000_0000nat
}

/// Whether `x` is the inverse of `d` in the scalar field: reduced, with
/// `d * x = 1 (mod r)`.
pub open spec fn is_inverse(d: nat, x: nat) -> bool {
    x < modulus() && (d * x) % modulus() == 1
}

/// The inverse of `d` in the scalar field. Meaningful for `d` that have one,
/// that is for `d` that `r` does not divide.
pub open spec fn field_inverse(d: nat) -> nat {
    choose|x: nat| is_inverse(d, x)
}

/// Whether `d` is a scalar that can be inverted: reduced, not zero, and with
/// an inverse in the field.
pub open spec fn invertible(d: nat) -> bool {
    0 < d < modulus() && is_inverse(d, field_inverse(d))
}

/// A scalar has at most one inverse below the modulus.
pub proof fn lemma_inverse_unique(d: nat, x: nat, y: nat)
    requires
        is_inverse(d, x),
        is_inverse(d, y),
    ensures
        x == y,
{
    let m = modulus() as int;
    let (d, x, y) = (d as int, x as int, y as int);
    assert(x * (d * y) == (d * x) * y) by (nonlinear_arith);
    vstd::arithmetic::div_mod::lemma_mul_mod_noop_right(x, d * y, m);
    vstd::arithmetic::div_mod::lemma_mul_mod_noop_left(d * x, y, m);
    assert((x * 1) % m == x) by {
        vstd::arithmetic::div_mod::lemma_small_mod(x as nat, m as nat);
    }
    assert((1 * y) % m == y) by {
        vstd::arithmetic::div_mod::lemma_small_mod(y as nat, m as nat);
    }
}

/// An element of the scalar field, held as the reduced integer that stands
/// for it.
#[derive(Clone, Copy, Debug)]
pub struct Scalar {
    limbs: [u64; 4],
}

impl View for Scalar {
    type V = nat;

    closed spec fn view(&self) -> nat {
        limbs_value(self.limbs@)
    }
}

/// Whether four limbs hold an integer below the modulus.
fn below_modulus(limbs: &[u64; 4]) -> (r: bool)
    ensures
        r == (limbs_value(limbs@) < modulus()),
{
    if limbs[3] != MODULUS_LIMB_3 {
        limbs[3] < MODULUS_LIMB_3
    } else if limbs[2] != MODULUS_LIMB_2 {
        limbs[2] < MODULUS_LIMB_2
    } else if limbs[1] != MODULUS_LIMB_1 {
        limbs[1] < MODULUS_LIMB_1
    } else {
        limbs[0] < MODULUS_LIMB_0
    }
}

/// `ark_ff::Field::inverse` on `ark_bn254::Fr`. The contract claims what its
/// documentation says: nothing for zero, and for any other scalar the reduced
/// scalar whose product with it is one.
#[verifier::external_body]
fn fr_inverse(limbs: &[u64; 4]) -> (r: Option<[u64; 4]>)
    requires
        limbs_value(limbs@) < modulus(),
    ensures
        limbs_value(limbs@) == 0 ==> r is None,
        limbs_value(limbs@) != 0 ==> r is Some && is_inverse(
            limbs_value(limbs@),
            limbs_value(r->0@),
        ),
{
    let d = Fr::from_bigint(BigInt::new(*limbs)).unwrap();
    match d.inverse() {
        Some(x) => Some(x.into_bigint().0),
        None => None,
    }
}

/// `ark_ff::UniformRand::rand` on `ark_bn254::Fr`, fed by `rand::thread_rng`.
/// The result is drawn at random, so the contract keeps only what holds of
/// every draw: it is a reduced scalar.
#[verifier::external_body]
fn fr_sample() -> (r: [u64; 4])
    ensures
        limbs_value(r@) < modulus(),
{
    let mut rng = thread_rng();
    Fr::rand(&mut rng).into_bigint().0
}

impl Scalar {
    /// Every scalar is reduced.
    #[verifier::type_invariant]
    pub open spec fn wf(&self) -> bool {
        self@ < modulus()
    }

    /// The scalar that stands for a small integer.
    pub fn from_u64(x: u64) -> (r: Scalar)
        ensures
            r@ == x,
    {
        Scalar { limbs: [x, 0, 0, 0] }
    }

    /// The scalar with the given little-endian limbs, if they hold an
    /// integer below the modulus.
    pub fn from_limbs(limbs: [u64; 4]) -> (r: Option<Scalar>)
        ensures
            limbs_value(limbs@) < modulus() ==> r is Some && r->0@ == limbs_value(limbs@),
            limbs_value(limbs@) >= modulus() ==> r is None,
    {
        if below_modulus(&limbs) {
            Some(Scalar { limbs })
        } else {
            None
        }
    }

    /// The little-endian limbs of the reduced integer.
    pub fn limbs(&self) -> (r: [u64; 4])
        ensures
            limbs_value(r@) == self@,
            self.wf(),
    {
        proof {
            use_type_invariant(self);
        }
        self.limbs
    }

    /// Whether this is the zero of the field.
    pub fn is_zero(&self) -> (r: bool)
        ensures
            r == (self@ == 0),
    {
        self.limbs[0] == 0 && self.limbs[1] == 0 && self.limbs[2] == 0 && self.limbs[3] == 0
    }

    /// The multiplicative inverse, which every scalar but zero has.
    pub fn inverse(&self) -> (r: Option<Scalar>)
        ensures
            self@ == 0 ==> r is None,
            self@ != 0 ==> r is Some && r->0@ == field_inverse(self@),
            self@ != 0 ==> invertible(self@),
            self@ != 0 ==> field_inverse(self@) != 0,
    {
        proof {
            use_type_invariant(self);
        }
        match fr_inverse(&self.limbs) {
            Some(limbs) => {
                proof {
                    let x = limbs_value(limbs@);
                    let y = field_inverse(self@);
                    lemma_inverse_unique(self@, x, y);
                    assert(y != 0) by {
                        assert(self@ * 0 == 0);
                    }
                }
                Some(Scalar { limbs })
            },
            None => None,
        }
    }

    /// Whether two scalars are the same.
    pub fn equals(&self, other: &Scalar) -> (r: bool)
        ensures
            r == (self@ == other@),
    {
        self.limbs[0] == other.limbs[0] && self.limbs[1] == other.limbs[1] && self.limbs[2]
            == other.limbs[2] && self.limbs[3] == other.limbs[3]
    }

    /// A scalar drawn uniformly at random from the thread's generator.
    pub fn random() -> (r: Scalar)
        ensures
            r.wf(),
    {
        let limbs = fr_sample();
        Scalar { limbs }
    }
}

impl PartialEq for Scalar {
    fn eq(&self, other: &Scalar) -> (r: bool) {
        self.equals(other)
    }
}

impl Eq for Scalar {

}

impl PartialEqSpecImpl for Scalar {
    open spec fn obeys_eq_spec() -> bool {
        true
    }

    open spec fn eq_spec(&self, other: &Scalar) -> bool {
        self@ == other@
    }
}

} // verus!
