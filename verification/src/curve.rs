//! The three groups of the BN254 pairing and the pairing itself.
//!
//! An element of `G1`, `G2` or `Gt` is held as its canonical compressed
//! encoding, the one form in which two equal elements are equal byte for
//! byte. The arithmetic is done by the arkworks crates; here each operation
//! has a name, and the contracts of this library say which operations were
//! applied to which elements, in which order.

use crate::encoding::same_bytes;
use crate::error::Error;
use crate::field::{limbs_value, modulus, Scalar};
use ark_bn254::{Bn254, Fr, G1Projective, G2Projective};
use ark_ec::pairing::{Pairing, PairingOutput};
use ark_ec::AdditiveGroup;
use ark_ff::{BigInt, PrimeField};
use ark_serialize::{CanonicalDeserialize, CanonicalSerialize};
use vstd::prelude::*;
use vstd::std_specs::cmp::PartialEqSpecImpl;

verus! {

/// Length of the encoding of an element of `G1`.
pub const G1_SIZE: usize = 32;

/// Length of the encoding of an element of `G2`.
pub const G2_SIZE: usize = 64;

/// Length of the encoding of an element of `Gt`.
pub const GT_SIZE: usize = 384;

/// The element of `G1` that the first 32 bytes encode, as its canonical
/// encoding; `None` where they encode no element.
pub uninterp spec fn g1_decode(bytes: Seq<u8>) -> Option<Seq<u8>>;

/// The element of `G2` that the first 64 bytes encode, as its canonical
/// encoding; `None` where they encode no element.
pub uninterp spec fn g2_decode(bytes: Seq<u8>) -> Option<Seq<u8>>;

/// The element of `Gt` that the first 384 bytes encode, as its canonical
/// encoding; `None` where they encode no element.
pub uninterp spec fn gt_decode(bytes: Seq<u8>) -> Option<Seq<u8>>;

/// The sum of the two elements of `G1` that `a` and `b` encode, as its
/// canonical encoding.
pub uninterp spec fn g1_sum(a: Seq<u8>, b: Seq<u8>) -> Seq<u8>;

/// The element of `G1` that `p` encodes, taken `s` times, as its canonical
/// encoding.
pub uninterp spec fn g1_scaled(p: Seq<u8>, s: nat) -> Seq<u8>;

/// The sum of the two elements of `G2` that `a` and `b` encode, as its
/// canonical encoding.
pub uninterp spec fn g2_sum(a: Seq<u8>, b: Seq<u8>) -> Seq<u8>;

/// The element of `G2` that `p` encodes, taken `s` times, as its canonical
/// encoding.
pub uninterp spec fn g2_scaled(p: Seq<u8>, s: nat) -> Seq<u8>;

/// The sum of the two elements of `Gt` that `a` and `b` encode, the group
/// written additively, as its canonical encoding.
pub uninterp spec fn gt_sum(a: Seq<u8>, b: Seq<u8>) -> Seq<u8>;

/// The element of `Gt` that `p` encodes, taken `s` times, as its canonical
/// encoding.
pub uninterp spec fn gt_scaled(p: Seq<u8>, s: nat) -> Seq<u8>;

/// The pairing `e(p, q)` of the element of `G1` that `p` encodes with the
/// element of `G2` that `q` encodes, as its canonical encoding.
pub uninterp spec fn pairing(p: Seq<u8>, q: Seq<u8>) -> Seq<u8>;

/// Whether the bytes are the canonical encoding of an element of `G1`.
pub open spec fn is_g1(bytes: Seq<u8>) -> bool {
    bytes.len() == G1_SIZE && g1_decode(bytes) == Some(bytes)
}

/// Whether the bytes are the canonical encoding of an element of `G2`.
pub open spec fn is_g2(bytes: Seq<u8>) -> bool {
    bytes.len() == G2_SIZE && g2_decode(bytes) == Some(bytes)
}

/// Whether the bytes are the canonical encoding of an element of `Gt`.
pub open spec fn is_gt(bytes: Seq<u8>) -> bool {
    bytes.len() == GT_SIZE && gt_decode(bytes) == Some(bytes)
}

/// The encoding of the neutral element of `Gt`: the one of the field that
/// hosts the group, whose first coefficient is 1 and whose others are 0.
pub open spec fn gt_identity() -> Seq<u8> {
    Seq::new(GT_SIZE as nat, |i: int| if i == 0 { 1u8 } else { 0u8 })
}

/// `CanonicalDeserialize::deserialize_compressed` on
/// `ark_bn254::G1Projective`, the point written back with
/// `CanonicalSerialize::serialize_compressed`. The contract names the result
/// and claims that what was written back decodes to itself.
#[verifier::external_body]
fn g1_read(bytes: &[u8]) -> (r: Option<[u8; 32]>)
    ensures
        r is Some <==> g1_decode(bytes@) is Some,
        r matches Some(c) ==> g1_decode(bytes@) == Some(c@) && is_g1(c@),
{
    match G1Projective::deserialize_compressed(bytes) {
        Ok(p) => {
            let mut out = [0u8; 32];
            p.serialize_compressed(&mut out[..]).unwrap();
            Some(out)
        },
        Err(_) => None,
    }
}

/// `CanonicalDeserialize::deserialize_compressed` on
/// `ark_bn254::G2Projective`, the point written back with
/// `CanonicalSerialize::serialize_compressed`. The contract names the result
/// and claims that what was written back decodes to itself.
#[verifier::external_body]
fn g2_read(bytes: &[u8]) -> (r: Option<[u8; 64]>)
    ensures
        r is Some <==> g2_decode(bytes@) is Some,
        r matches Some(c) ==> g2_decode(bytes@) == Some(c@) && is_g2(c@),
{
    match G2Projective::deserialize_compressed(bytes) {
        Ok(p) => {
            let mut out = [0u8; 64];
            p.serialize_compressed(&mut out[..]).unwrap();
            Some(out)
        },
        Err(_) => None,
    }
}

/// `CanonicalDeserialize::deserialize_compressed` on
/// `ark_ec::pairing::PairingOutput<Bn254>`, the element written back with
/// `CanonicalSerialize::serialize_compressed`. The contract names the result
/// and claims that what was written back decodes to itself.
#[verifier::external_body]
fn gt_read(bytes: &[u8]) -> (r: Option<[u8; 384]>)
    ensures
        r is Some <==> gt_decode(bytes@) is Some,
        r matches Some(c) ==> gt_decode(bytes@) == Some(c@) && is_gt(c@),
{
    match PairingOutput::<Bn254>::deserialize_compressed(bytes) {
        Ok(p) => {
            let mut out = [0u8; 384];
            p.serialize_compressed(&mut out[..]).unwrap();
            Some(out)
        },
        Err(_) => None,
    }
}

/// `+` on `ark_bn254::G1Projective`. The contract names the sum and claims
/// that it is again an element in canonical encoding.
#[verifier::external_body]
fn g1_add(a: &[u8; 32], b: &[u8; 32]) -> (r: [u8; 32])
    requires
        is_g1(a@),
        is_g1(b@),
    ensures
        r@ == g1_sum(a@, b@),
        is_g1(r@),
{
    let p = G1Projective::deserialize_compressed(&a[..]).unwrap();
    let q = G1Projective::deserialize_compressed(&b[..]).unwrap();
    let mut out = [0u8; 32];
    (p + q).serialize_compressed(&mut out[..]).unwrap();
    out
}

/// `*` of an `ark_bn254::G1Projective` by an `ark_bn254::Fr`. The contract
/// names the multiple and claims that it is again an element in canonical
/// encoding.
#[verifier::external_body]
fn g1_mul(p: &[u8; 32], s: &[u64; 4]) -> (r: [u8; 32])
    requires
        is_g1(p@),
        limbs_value(s@) < modulus(),
    ensures
        r@ == g1_scaled(p@, limbs_value(s@)),
        is_g1(r@),
{
    let p = G1Projective::deserialize_compressed(&p[..]).unwrap();
    let s = Fr::from_bigint(BigInt::new(*s)).unwrap();
    let mut out = [0u8; 32];
    (p * s).serialize_compressed(&mut out[..]).unwrap();
    out
}

/// `+` on `ark_bn254::G2Projective`. The contract names the sum and claims
/// that it is again an element in canonical encoding.
#[verifier::external_body]
fn g2_add(a: &[u8; 64], b: &[u8; 64]) -> (r: [u8; 64])
    requires
        is_g2(a@),
        is_g2(b@),
    ensures
        r@ == g2_sum(a@, b@),
        is_g2(r@),
{
    let p = G2Projective::deserialize_compressed(&a[..]).unwrap();
    let q = G2Projective::deserialize_compressed(&b[..]).unwrap();
    let mut out = [0u8; 64];
    (p + q).serialize_compressed(&mut out[..]).unwrap();
    out
}

/// `*` of an `ark_bn254::G2Projective` by an `ark_bn254::Fr`. The contract
/// names the multiple and claims that it is again an element in canonical
/// encoding.
#[verifier::external_body]
fn g2_mul(p: &[u8; 64], s: &[u64; 4]) -> (r: [u8; 64])
    requires
        is_g2(p@),
        limbs_value(s@) < modulus(),
    ensures
        r@ == g2_scaled(p@, limbs_value(s@)),
        is_g2(r@),
{
    let p = G2Projective::deserialize_compressed(&p[..]).unwrap();
    let s = Fr::from_bigint(BigInt::new(*s)).unwrap();
    let mut out = [0u8; 64];
    (p * s).serialize_compressed(&mut out[..]).unwrap();
    out
}

/// `+` on `ark_ec::pairing::PairingOutput<Bn254>`. The contract names the
/// sum and claims that it is again an element in canonical encoding.
#[verifier::external_body]
fn gt_add(a: &[u8; 384], b: &[u8; 384]) -> (r: [u8; 384])
    requires
        is_gt(a@),
        is_gt(b@),
    ensures
        r@ == gt_sum(a@, b@),
        is_gt(r@),
{
    let p = PairingOutput::<Bn254>::deserialize_compressed(&a[..]).unwrap();
    let q = PairingOutput::<Bn254>::deserialize_compressed(&b[..]).unwrap();
    let mut out = [0u8; 384];
    (p + q).serialize_compressed(&mut out[..]).unwrap();
    out
}

/// `*` of an `ark_ec::pairing::PairingOutput<Bn254>` by an `ark_bn254::Fr`.
/// The contract names the multiple and claims that it is again an element in
/// canonical encoding.
#[verifier::external_body]
fn gt_mul(p: &[u8; 384], s: &[u64; 4]) -> (r: [u8; 384])
    requires
        is_gt(p@),
        limbs_value(s@) < modulus(),
    ensures
        r@ == gt_scaled(p@, limbs_value(s@)),
        is_gt(r@),
{
    let p = PairingOutput::<Bn254>::deserialize_compressed(&p[..]).unwrap();
    let s = Fr::from_bigint(BigInt::new(*s)).unwrap();
    let mut out = [0u8; 384];
    (p * s).serialize_compressed(&mut out[..]).unwrap();
    out
}

/// The constant `ZERO` of `ark_ec::pairing::PairingOutput<Bn254>`, which is
/// the one of the target field. The contract claims its encoding, byte 1
/// followed by zeros, and that this is an element in canonical encoding.
#[verifier::external_body]
fn gt_zero() -> (r: [u8; 384])
    ensures
        r@ == gt_identity(),
        is_gt(r@),
{
    let mut out = [0u8; 384];
    PairingOutput::<Bn254>::ZERO.serialize_compressed(&mut out[..]).unwrap();
    out
}

/// `ark_ec::pairing::Pairing::pairing` of `ark_bn254::Bn254`. The contract
/// names the value and claims that it is an element of `Gt` in canonical
/// encoding.
#[verifier::external_body]
fn pairing_of(p: &[u8; 32], q: &[u8; 64]) -> (r: [u8; 384])
    requires
        is_g1(p@),
        is_g2(q@),
    ensures
        r@ == pairing(p@, q@),
        is_gt(r@),
{
    let p = G1Projective::deserialize_compressed(&p[..]).unwrap();
    let q = G2Projective::deserialize_compressed(&q[..]).unwrap();
    let mut out = [0u8; 384];
    Bn254::pairing(p, q).serialize_compressed(&mut out[..]).unwrap();
    out
}

/// An element of the first source group.
#[derive(Clone, Copy, Debug)]
pub struct G1 {
    bytes: [u8; 32],
}

/// An element of the second source group.
#[derive(Clone, Copy, Debug)]
pub struct G2 {
    bytes: [u8; 64],
}

/// An element of the target group.
#[derive(Clone, Copy, Debug)]
pub struct Gt {
    bytes: [u8; 384],
}

impl View for G1 {
    type V = Seq<u8>;

    closed spec fn view(&self) -> Seq<u8> {
        self.bytes@
    }
}

impl View for G2 {
    type V = Seq<u8>;

    closed spec fn view(&self) -> Seq<u8> {
        self.bytes@
    }
}

impl View for Gt {
    type V = Seq<u8>;

    closed spec fn view(&self) -> Seq<u8> {
        self.bytes@
    }
}

impl G1 {
    /// What is held is the canonical encoding of an element.
    #[verifier::type_invariant]
    pub open spec fn wf(&self) -> bool {
        is_g1(self@)
    }

    /// The element that the bytes encode. They must be exactly as long as an
    /// encoding is; a second encoding of the point at infinity is accepted
    /// and brought to the canonical one.
    pub fn from_bytes(bytes: &[u8]) -> (r: Result<G1, Error>)
        ensures
            bytes@.len() == G1_SIZE && g1_decode(bytes@) is Some ==> r is Ok && r->Ok_0.wf()
                && Some(r->Ok_0@) == g1_decode(bytes@),
            bytes@.len() != G1_SIZE || g1_decode(bytes@) is None ==> r == Err::<G1, Error>(
                Error::SerializationError,
            ),
    {
        if bytes.len() != G1_SIZE {
            return Err(Error::SerializationError);
        }
        match g1_read(bytes) {
            Some(canonical) => Ok(G1 { bytes: canonical }),
            None => Err(Error::SerializationError),
        }
    }

    /// The canonical encoding.
    pub fn to_bytes(&self) -> (r: [u8; 32])
        ensures
            r@ == self@,
            is_g1(r@),
    {
        proof {
            use_type_invariant(self);
        }
        self.bytes
    }

    /// The sum of two elements.
    pub fn add(&self, other: &G1) -> (r: G1)
        ensures
            r@ == g1_sum(self@, other@),
            r.wf(),
    {
        proof {
            use_type_invariant(self);
            use_type_invariant(other);
        }
        G1 { bytes: g1_add(&self.bytes, &other.bytes) }
    }

    /// The element taken `s` times.
    pub fn scale(&self, s: &Scalar) -> (r: G1)
        ensures
            r@ == g1_scaled(self@, s@),
            r.wf(),
    {
        proof {
            use_type_invariant(self);
        }
        let limbs = s.limbs();
        G1 { bytes: g1_mul(&self.bytes, &limbs) }
    }

    /// Whether two elements are the same. Every byte of both is read,
    /// whatever the bytes before it were.
    pub fn equals(&self, other: &G1) -> (r: bool)
        ensures
            r == (self@ == other@),
    {
        same_bytes(self.bytes.as_slice(), other.bytes.as_slice())
    }
}

impl G2 {
    /// What is held is the canonical encoding of an element.
    #[verifier::type_invariant]
    pub open spec fn wf(&self) -> bool {
        is_g2(self@)
    }

    /// The element that the bytes encode. They must be exactly as long as an
    /// encoding is; a second encoding of the point at infinity is accepted
    /// and brought to the canonical one.
    pub fn from_bytes(bytes: &[u8]) -> (r: Result<G2, Error>)
        ensures
            bytes@.len() == G2_SIZE && g2_decode(bytes@) is Some ==> r is Ok && r->Ok_0.wf()
                && Some(r->Ok_0@) == g2_decode(bytes@),
            bytes@.len() != G2_SIZE || g2_decode(bytes@) is None ==> r == Err::<G2, Error>(
                Error::SerializationError,
            ),
    {
        if bytes.len() != G2_SIZE {
            return Err(Error::SerializationError);
        }
        match g2_read(bytes) {
            Some(canonical) => Ok(G2 { bytes: canonical }),
            None => Err(Error::SerializationError),
        }
    }

    /// The canonical encoding.
    pub fn to_bytes(&self) -> (r: [u8; 64])
        ensures
            r@ == self@,
            is_g2(r@),
    {
        proof {
            use_type_invariant(self);
        }
        self.bytes
    }

    /// The sum of two elements.
    pub fn add(&self, other: &G2) -> (r: G2)
        ensures
            r@ == g2_sum(self@, other@),
            r.wf(),
    {
        proof {
            use_type_invariant(self);
            use_type_invariant(other);
        }
        G2 { bytes: g2_add(&self.bytes, &other.bytes) }
    }

    /// The element taken `s` times.
    pub fn scale(&self, s: &Scalar) -> (r: G2)
        ensures
            r@ == g2_scaled(self@, s@),
            r.wf(),
    {
        proof {
            use_type_invariant(self);
        }
        let limbs = s.limbs();
        G2 { bytes: g2_mul(&self.bytes, &limbs) }
    }

    /// Whether two elements are the same. Every byte of both is read,
    /// whatever the bytes before it were.
    pub fn equals(&self, other: &G2) -> (r: bool)
        ensures
            r == (self@ == other@),
    {
        same_bytes(self.bytes.as_slice(), other.bytes.as_slice())
    }
}

impl Gt {
    /// What is held is the canonical encoding of an element.
    #[verifier::type_invariant]
    pub open spec fn wf(&self) -> bool {
        is_gt(self@)
    }

    /// The neutral element.
    pub fn identity() -> (r: Gt)
        ensures
            r@ == gt_identity(),
            r.wf(),
    {
        Gt { bytes: gt_zero() }
    }

    /// The element that the bytes encode. They must be exactly as long as an
    /// encoding is.
    pub fn from_bytes(bytes: &[u8]) -> (r: Result<Gt, Error>)
        ensures
            bytes@.len() == GT_SIZE && gt_decode(bytes@) is Some ==> r is Ok && r->Ok_0.wf()
                && Some(r->Ok_0@) == gt_decode(bytes@),
            bytes@.len() != GT_SIZE || gt_decode(bytes@) is None ==> r == Err::<Gt, Error>(
                Error::SerializationError,
            ),
    {
        if bytes.len() != GT_SIZE {
            return Err(Error::SerializationError);
        }
        match gt_read(bytes) {
            Some(canonical) => Ok(Gt { bytes: canonical }),
            None => Err(Error::SerializationError),
        }
    }

    /// The canonical encoding.
    pub fn to_bytes(&self) -> (r: [u8; 384])
        ensures
            r@ == self@,
            is_gt(r@),
    {
        proof {
            use_type_invariant(self);
        }
        self.bytes
    }

    /// The sum of two elements.
    pub fn add(&self, other: &Gt) -> (r: Gt)
        ensures
            r@ == gt_sum(self@, other@),
            r.wf(),
    {
        proof {
            use_type_invariant(self);
            use_type_invariant(other);
        }
        Gt { bytes: gt_add(&self.bytes, &other.bytes) }
    }

    /// The element taken `s` times.
    pub fn scale(&self, s: &Scalar) -> (r: Gt)
        ensures
            r@ == gt_scaled(self@, s@),
            r.wf(),
    {
        proof {
            use_type_invariant(self);
        }
        let limbs = s.limbs();
        Gt { bytes: gt_mul(&self.bytes, &limbs) }
    }

    /// Whether two elements are the same. Every byte of both is read,
    /// whatever the bytes before it were.
    pub fn equals(&self, other: &Gt) -> (r: bool)
        ensures
            r == (self@ == other@),
    {
        same_bytes(self.bytes.as_slice(), other.bytes.as_slice())
    }
}

impl PartialEq for G1 {
    fn eq(&self, other: &G1) -> (r: bool) {
        self.equals(other)
    }
}

impl Eq for G1 {

}

impl PartialEqSpecImpl for G1 {
    open spec fn obeys_eq_spec() -> bool {
        true
    }

    open spec fn eq_spec(&self, other: &G1) -> bool {
        self@ == other@
    }
}

impl PartialEq for G2 {
    fn eq(&self, other: &G2) -> (r: bool) {
        self.equals(other)
    }
}

impl Eq for G2 {

}

impl PartialEqSpecImpl for G2 {
    open spec fn obeys_eq_spec() -> bool {
        true
    }

    open spec fn eq_spec(&self, other: &G2) -> bool {
        self@ == other@
    }
}

impl PartialEq for Gt {
    fn eq(&self, other: &Gt) -> (r: bool) {
        self.equals(other)
    }
}

impl Eq for Gt {

}

impl PartialEqSpecImpl for Gt {
    open spec fn obeys_eq_spec() -> bool {
        true
    }

    open spec fn eq_spec(&self, other: &Gt) -> bool {
        self@ == other@
    }
}

/// The pairing of an element of `G1` with one of `G2`.
pub fn e(p: &G1, q: &G2) -> (r: Gt)
    ensures
        r@ == pairing(p@, q@),
        r.wf(),
{
    proof {
        use_type_invariant(p);
        use_type_invariant(q);
    }
    Gt { bytes: pairing_of(&p.bytes, &q.bytes) }
}

} // verus!
