//! The commitment to a witness: three inner pairing products.

use crate::curve::{gt_decode, gt_identity, is_gt, Gt, GT_SIZE};
use crate::encoding::append_bytes;
use crate::error::Error;
use crate::params::{PublicParams, PublicParamsView};
use crate::vec_operations::{inner_prod, inner_product};
use crate::witness::{Witness, WitnessView};
use vstd::prelude::*;
use vstd::slice::slice_subrange;
use vstd::std_specs::cmp::PartialEqSpecImpl;

verus! {

/// Length of the encoding of a commitment.
pub const COMMITMENT_SIZE: usize = 1152;

/// What a commitment holds: three elements of `Gt`.
pub struct CommitmentView {
    pub c: Seq<u8>,
    pub d1: Seq<u8>,
    pub d2: Seq<u8>,
}

impl CommitmentView {
    /// The three values are elements of `Gt` in canonical encoding.
    pub open spec fn wf(self) -> bool {
        is_gt(self.c) && is_gt(self.d1) && is_gt(self.d2)
    }

    /// The encoding: those of `c`, `d1` and `d2`, one after the other.
    pub open spec fn encoding(self) -> Seq<u8> {
        self.c + self.d1 + self.d2
    }
}

/// Whether the three inner products of a commitment each pair two vectors of
/// one length.
pub open spec fn lengths_match(w: WitnessView, pp: PublicParamsView) -> bool {
    w.u1.len() == pp.g2v.len() && pp.g1v.len() == w.u2.len() && w.u1.len() == w.u2.len()
}

/// The commitment to a witness under the generators `pp`:
/// `c = <u1, u2>`, `d1 = <u1, g2v>`, `d2 = <g1v, u2>`.
pub open spec fn commitment_of(w: WitnessView, pp: PublicParamsView) -> CommitmentView {
    CommitmentView {
        c: inner_product(w.u1, w.u2),
        d1: inner_product(w.u1, pp.g2v),
        d2: inner_product(pp.g1v, w.u2),
    }
}

/// The commitment that bytes encode, if they are as long as three elements of
/// `Gt` and each third is the encoding of one.
pub open spec fn decoding(bytes: Seq<u8>) -> Option<CommitmentView> {
    let c = gt_decode(bytes.subrange(0, GT_SIZE as int));
    let d1 = gt_decode(bytes.subrange(GT_SIZE as int, 2 * GT_SIZE));
    let d2 = gt_decode(bytes.subrange(2 * GT_SIZE, 3 * GT_SIZE));
    if bytes.len() == COMMITMENT_SIZE && c is Some && d1 is Some && d2 is Some {
        Some(CommitmentView { c: c->0, d1: d1->0, d2: d2->0 })
    } else {
        None
    }
}

/// A commitment decodes from its encoding.
pub proof fn lemma_decoding_of_encoding(com: CommitmentView)
    requires
        com.wf(),
    ensures
        decoding(com.encoding()) == Some(com),
{
    let bytes = com.encoding();
    assert(bytes.subrange(0, GT_SIZE as int) == com.c);
    assert(bytes.subrange(GT_SIZE as int, 2 * GT_SIZE) == com.d1);
    assert(bytes.subrange(2 * GT_SIZE, 3 * GT_SIZE) == com.d2);
}

/// The commitment `(c, d1, d2)` to a witness.
#[derive(Clone, Copy, Debug)]
pub struct Commitment {
    pub c: Gt,
    pub d1: Gt,
    pub d2: Gt,
}

impl View for Commitment {
    type V = CommitmentView;

    open spec fn view(&self) -> CommitmentView {
        CommitmentView { c: self.c@, d1: self.d1@, d2: self.d2@ }
    }
}

/// The commitment to a witness under the generators `public_params`. Each of
/// the three inner products needs its two vectors to have one length.
pub fn commit(witness: Witness, public_params: &PublicParams) -> (r: Result<Commitment, Error>)
    ensures
        lengths_match(witness@, public_params@) ==> r is Ok && r->Ok_0@ == commitment_of(
            witness@,
            public_params@,
        ),
        !lengths_match(witness@, public_params@) ==> r == Err::<Commitment, Error>(
            Error::LengthMismatch,
        ),
{
    let d1 = match inner_prod(&witness.u1, public_params.g2v()) {
        Ok(d1) => d1,
        Err(err) => {
            return Err(err);
        },
    };
    let d2 = match inner_prod(public_params.g1v(), &witness.u2) {
        Ok(d2) => d2,
        Err(err) => {
            return Err(err);
        },
    };
    let c = match inner_prod(&witness.u1, &witness.u2) {
        Ok(c) => c,
        Err(err) => {
            return Err(err);
        },
    };
    Ok(Commitment { d1, d2, c })
}

impl Commitment {
    /// The encoding of the commitment: those of `c`, `d1` and `d2`, one after
    /// the other. Decoding it gives the commitment back.
    pub fn to_bytes(&self) -> (r: Vec<u8>)
        ensures
            r@ == self@.encoding(),
            r@.len() == COMMITMENT_SIZE,
            decoding(r@) == Some(self@),
    {
        let mut out: Vec<u8> = Vec::new();
        let c = self.c.to_bytes();
        let d1 = self.d1.to_bytes();
        let d2 = self.d2.to_bytes();
        append_bytes(&mut out, c.as_slice());
        append_bytes(&mut out, d1.as_slice());
        append_bytes(&mut out, d2.as_slice());
        proof {
            assert(out@ == self@.encoding());
            lemma_decoding_of_encoding(self@);
        }
        out
    }

    /// The commitment that the bytes encode.
    pub fn from_bytes(bytes: &[u8]) -> (r: Result<Commitment, Error>)
        ensures
            decoding(bytes@) is Some ==> r is Ok && r->Ok_0@ == decoding(bytes@)->0,
            decoding(bytes@) is None ==> r == Err::<Commitment, Error>(Error::SerializationError),
    {
        if bytes.len() != COMMITMENT_SIZE {
            return Err(Error::SerializationError);
        }
        let c = match Gt::from_bytes(slice_subrange(bytes, 0, GT_SIZE)) {
            Ok(c) => c,
            Err(err) => {
                return Err(err);
            },
        };
        let d1 = match Gt::from_bytes(slice_subrange(bytes, GT_SIZE, 2 * GT_SIZE)) {
            Ok(d1) => d1,
            Err(err) => {
                return Err(err);
            },
        };
        let d2 = match Gt::from_bytes(slice_subrange(bytes, 2 * GT_SIZE, 3 * GT_SIZE)) {
            Ok(d2) => d2,
            Err(err) => {
                return Err(err);
            },
        };
        Ok(Commitment { c, d1, d2 })
    }

    /// Whether two commitments hold the same three elements.
    pub fn equals(&self, other: &Commitment) -> (r: bool)
        ensures
            r == (self@ == other@),
    {
        let c = self.c.equals(&other.c);
        let d1 = self.d1.equals(&other.d1);
        let d2 = self.d2.equals(&other.d2);
        c && d1 && d2
    }
}

impl PartialEq for Commitment {
    fn eq(&self, other: &Commitment) -> (r: bool) {
        self.equals(other)
    }
}

impl Eq for Commitment {

}

impl PartialEqSpecImpl for Commitment {
    open spec fn obeys_eq_spec() -> bool {
        true
    }

    open spec fn eq_spec(&self, other: &Commitment) -> bool {
        self@ == other@
    }
}

impl Default for Commitment {
    /// The commitment whose three elements are the neutral one.
    fn default() -> (r: Commitment)
        ensures
            r@ == (CommitmentView { c: gt_identity(), d1: gt_identity(), d2: gt_identity() }),
    {
        Commitment { c: Gt::identity(), d1: Gt::identity(), d2: Gt::identity() }
    }
}

} // verus!
