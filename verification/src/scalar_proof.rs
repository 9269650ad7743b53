//! The proof of knowledge at the base case, and its verification by one
//! randomized pairing equation.

use crate::commitment::{Commitment, CommitmentView};
use crate::curve::{
    e, g1_decode, g1_scaled, g1_sum, g2_decode, g2_scaled, g2_sum, gt_scaled, gt_sum, is_g1, is_g2,
    pairing, G1, G1_SIZE, G2, G2_SIZE,
};
use crate::encoding::append_bytes;
use crate::error::Error;
use crate::field::{field_inverse, invertible, Scalar};
use crate::params::{SingleParam, SingleParamView};
use crate::witness::{Witness, WitnessView};
use vstd::prelude::*;
use vstd::slice::slice_subrange;

verus! {

/// Length of the encoding of a proof.
pub const PROOF_SIZE: usize = 96;

/// What a proof holds: an element of `G1` and one of `G2`.
pub struct ScalarProofView {
    pub e1: Seq<u8>,
    pub e2: Seq<u8>,
}

impl ScalarProofView {
    /// The two values are elements of their groups in canonical encoding.
    pub open spec fn wf(self) -> bool {
        is_g1(self.e1) && is_g2(self.e2)
    }

    /// The encoding: that of `e1`, then that of `e2`.
    pub open spec fn encoding(self) -> Seq<u8> {
        self.e1 + self.e2
    }
}

/// The proof for a witness of length one: its two elements.
pub open spec fn proof_of(w: WitnessView) -> ScalarProofView
    recommends
        w.u1.len() == 1,
        w.u2.len() == 1,
{
    ScalarProofView { e1: w.u1[0], e2: w.u2[0] }
}

/// The left side of the verification equation for the blinder `d`:
/// `e(e1 + d * g1, e2 + (1/d) * g2)`.
pub open spec fn left_side(prf: ScalarProofView, pp: SingleParamView, d: nat) -> Seq<u8> {
    pairing(
        g1_sum(prf.e1, g1_scaled(pp.g1, d)),
        g2_sum(prf.e2, g2_scaled(pp.g2, field_inverse(d))),
    )
}

/// The right side of the verification equation for the blinder `d`:
/// `c + C + d * D2 + (1/d) * D1`, summed from the left.
pub open spec fn right_side(pp: SingleParamView, com: CommitmentView, d: nat) -> Seq<u8> {
    gt_sum(
        gt_sum(gt_sum(pp.c, com.c), gt_scaled(com.d2, d)),
        gt_scaled(com.d1, field_inverse(d)),
    )
}

/// Whether the proof is accepted for the commitment when the verifier's
/// blinder is `d`: whether the two sides of the equation are the same
/// element of `Gt`.
pub open spec fn accepts(
    prf: ScalarProofView,
    pp: SingleParamView,
    com: CommitmentView,
    d: nat,
) -> bool {
    left_side(prf, pp, d) == right_side(pp, com, d)
}

/// The proof that bytes encode, if they are as long as an element of `G1`
/// and one of `G2` together and each part is the encoding of one.
pub open spec fn decoding(bytes: Seq<u8>) -> Option<ScalarProofView> {
    let e1 = g1_decode(bytes.subrange(0, G1_SIZE as int));
    let e2 = g2_decode(bytes.subrange(G1_SIZE as int, G1_SIZE + G2_SIZE));
    if bytes.len() == PROOF_SIZE && e1 is Some && e2 is Some {
        Some(ScalarProofView { e1: e1->0, e2: e2->0 })
    } else {
        None
    }
}

/// A proof decodes from its encoding.
pub proof fn lemma_decoding_of_encoding(prf: ScalarProofView)
    requires
        prf.wf(),
    ensures
        decoding(prf.encoding()) == Some(prf),
{
    let bytes = prf.encoding();
    assert(bytes.subrange(0, G1_SIZE as int) == prf.e1);
    assert(bytes.subrange(G1_SIZE as int, G1_SIZE + G2_SIZE) == prf.e2);
}

/// The proof of knowledge of the two elements under a commitment to a
/// witness of length one.
#[derive(Clone, Copy, Debug)]
pub struct ScalarProof {
    e1: G1,
    e2: G2,
}

impl View for ScalarProof {
    type V = ScalarProofView;

    closed spec fn view(&self) -> ScalarProofView {
        ScalarProofView { e1: self.e1@, e2: self.e2@ }
    }
}

impl ScalarProof {
    /// The proof for a witness that has been reduced to length one.
    pub fn new(witness: Witness) -> (r: ScalarProof)
        requires
            witness@.u1.len() == 1,
            witness@.u2.len() == 1,
        ensures
            r@ == proof_of(witness@),
    {
        ScalarProof { e1: witness.u1[0], e2: witness.u2[0] }
    }

    /// Verification with the blinder `d` in hand. A zero blinder has no
    /// inverse and is refused; for any other the answer is whether the
    /// pairing equation holds.
    pub fn verify_with_blinder(&self, pp: &SingleParam, commitment: &Commitment, d: &Scalar) -> (r:
        Result<bool, Error>)
        ensures
            d@ == 0 ==> r == Err::<bool, Error>(Error::CouldntInvertD),
            d@ != 0 ==> r == Ok::<bool, Error>(accepts(self@, pp@, commitment@, d@)),
            d@ != 0 ==> invertible(d@),
    {
        let d_inv = match d.inverse() {
            Some(d_inv) => d_inv,
            None => {
                return Err(Error::CouldntInvertD);
            },
        };
        let g1 = self.e1.add(&pp.g1().scale(d));
        let g2 = self.e2.add(&pp.g2().scale(&d_inv));
        let left_eq = e(&g1, &g2);
        let right_eq = pp.c().add(&commitment.c).add(&commitment.d2.scale(d)).add(
            &commitment.d1.scale(&d_inv),
        );
        Ok(left_eq.equals(&right_eq))
    }

    /// Verification of the proof against a commitment. The verifier draws a
    /// blinder at random; the answer is that of `verify_with_blinder` for the
    /// blinder drawn.
    pub fn verify(&self, pp: &SingleParam, commitment: &Commitment) -> (r: Result<bool, Error>)
        ensures
            match r {
                Ok(accepted) => exists|d: nat|
                    invertible(d) && accepted == #[trigger] accepts(
                        self@,
                        pp@,
                        commitment@,
                        d,
                    ),
                Err(err) => err == Error::CouldntInvertD,
            },
    {
        let d = Scalar::random();
        let r = self.verify_with_blinder(pp, commitment, &d);
        proof {
            if r is Ok {
                assert(accepts(self@, pp@, commitment@, d@) == r->Ok_0);
            }
        }
        r
    }

    /// The encoding of the proof: that of `e1`, then that of `e2`. Decoding
    /// it gives the proof back.
    pub fn to_bytes(&self) -> (r: Vec<u8>)
        ensures
            r@ == self@.encoding(),
            r@.len() == PROOF_SIZE,
            decoding(r@) == Some(self@),
    {
        let mut out: Vec<u8> = Vec::new();
        let e1 = self.e1.to_bytes();
        let e2 = self.e2.to_bytes();
        append_bytes(&mut out, e1.as_slice());
        append_bytes(&mut out, e2.as_slice());
        proof {
            assert(out@ == self@.encoding());
            lemma_decoding_of_encoding(self@);
        }
        out
    }

    /// The proof that the bytes encode.
    pub fn from_bytes(bytes: &[u8]) -> (r: Result<ScalarProof, Error>)
        ensures
            decoding(bytes@) is Some ==> r is Ok && r->Ok_0@ == decoding(bytes@)->0,
            decoding(bytes@) is None ==> r == Err::<ScalarProof, Error>(
                Error::SerializationError,
            ),
    {
        if bytes.len() != PROOF_SIZE {
            return Err(Error::SerializationError);
        }
        let e1 = match G1::from_bytes(slice_subrange(bytes, 0, G1_SIZE)) {
            Ok(e1) => e1,
            Err(err) => {
                return Err(err);
            },
        };
        let e2 = match G2::from_bytes(slice_subrange(bytes, G1_SIZE, G1_SIZE + G2_SIZE)) {
            Ok(e2) => e2,
            Err(err) => {
                return Err(err);
            },
        };
        Ok(ScalarProof { e1, e2 })
    }

    /// The element of `G1` in the proof.
    pub fn e1(&self) -> (r: G1)
        ensures
            r@ == self@.e1,
    {
        self.e1
    }

    /// The element of `G2` in the proof.
    pub fn e2(&self) -> (r: G2)
        ensures
            r@ == self@.e2,
    {
        self.e2
    }
}

} // verus!
