//! Public parameters of the commitment scheme: the two vectors of generators
//! that a witness is built and committed against, and the three values that
//! the base case is verified against.

use crate::curve::{e, is_g1, is_g2, pairing, Gt, G1, G2};
use crate::error::Error;
use vstd::prelude::*;

verus! {

/// The encodings of a sequence of elements of `G1`.
pub open spec fn g1_values(elements: Seq<G1>) -> Seq<Seq<u8>> {
    Seq::new(elements.len(), |i: int| elements[i]@)
}

/// The encodings of a sequence of elements of `G2`.
pub open spec fn g2_values(elements: Seq<G2>) -> Seq<Seq<u8>> {
    Seq::new(elements.len(), |i: int| elements[i]@)
}

/// What a pair of generator vectors holds.
pub struct PublicParamsView {
    pub g1v: Seq<Seq<u8>>,
    pub g2v: Seq<Seq<u8>>,
}

/// What the parameters of the base case hold.
pub struct SingleParamView {
    pub g1: Seq<u8>,
    pub g2: Seq<u8>,
    pub c: Seq<u8>,
}

impl SingleParamView {
    /// The cached value is the pairing of the two generators.
    pub open spec fn wf(self) -> bool {
        &&& is_g1(self.g1)
        &&& is_g2(self.g2)
        &&& self.c == pairing(self.g1, self.g2)
    }
}

/// Two vectors of generators, one in each source group, of the same length.
#[derive(Debug)]
pub struct PublicParams {
    g1v: Vec<G1>,
    g2v: Vec<G2>,
}

impl View for PublicParams {
    type V = PublicParamsView;

    closed spec fn view(&self) -> PublicParamsView {
        PublicParamsView { g1v: g1_values(self.g1v@), g2v: g2_values(self.g2v@) }
    }
}

impl PublicParams {
    /// The two vectors have one length.
    #[verifier::type_invariant]
    pub open spec fn wf(&self) -> bool {
        self@.g1v.len() == self@.g2v.len()
    }

    /// Parameters made of the two vectors, which must have one length.
    pub fn new(g1v: Vec<G1>, g2v: Vec<G2>) -> (r: Result<PublicParams, Error>)
        ensures
            g1v.len() == g2v.len() ==> r is Ok && r->Ok_0@ == (PublicParamsView {
                g1v: g1_values(g1v@),
                g2v: g2_values(g2v@),
            }),
            g1v.len() != g2v.len() ==> r == Err::<PublicParams, Error>(Error::LengthMismatch),
    {
        if g1v.len() != g2v.len() {
            return Err(Error::LengthMismatch);
        }
        Ok(PublicParams { g1v, g2v })
    }

    /// The generators in `G1`.
    pub fn g1v(&self) -> (r: &Vec<G1>)
        ensures
            g1_values(r@) == self@.g1v,
            r.len() == self@.g2v.len(),
    {
        proof {
            use_type_invariant(self);
        }
        &self.g1v
    }

    /// The generators in `G2`.
    pub fn g2v(&self) -> (r: &Vec<G2>)
        ensures
            g2_values(r@) == self@.g2v,
            r.len() == self@.g1v.len(),
    {
        proof {
            use_type_invariant(self);
        }
        &self.g2v
    }
}

/// The parameters of the base case: one generator of each source group and
/// their pairing, kept because every verification uses it.
#[derive(Clone, Copy, Debug)]
pub struct SingleParam {
    g1: G1,
    g2: G2,
    c: Gt,
}

impl View for SingleParam {
    type V = SingleParamView;

    closed spec fn view(&self) -> SingleParamView {
        SingleParamView { g1: self.g1@, g2: self.g2@, c: self.c@ }
    }
}

impl SingleParam {
    /// The cached value is the pairing of the two generators.
    #[verifier::type_invariant]
    pub open spec fn wf(&self) -> bool {
        self@.wf()
    }

    /// The parameters over two generators; their pairing is computed here.
    pub fn new(g1: G1, g2: G2) -> (r: SingleParam)
        ensures
            r@ == (SingleParamView { g1: g1@, g2: g2@, c: pairing(g1@, g2@) }),
            r@.wf(),
    {
        proof {
            use_type_invariant(&g1);
            use_type_invariant(&g2);
        }
        let c = e(&g1, &g2);
        SingleParam { g1, g2, c }
    }

    /// The parameters made of three given values, if the third is the pairing
    /// of the first two.
    pub fn from_parts(g1: G1, g2: G2, c: Gt) -> (r: Option<SingleParam>)
        ensures
            c@ == pairing(g1@, g2@) ==> r is Some && r->0@ == (SingleParamView {
                g1: g1@,
                g2: g2@,
                c: c@,
            }),
            c@ != pairing(g1@, g2@) ==> r is None,
    {
        proof {
            use_type_invariant(&g1);
            use_type_invariant(&g2);
        }
        let expected = e(&g1, &g2);
        if expected.equals(&c) {
            Some(SingleParam { g1, g2, c })
        } else {
            None
        }
    }

    /// The generator in `G1`.
    pub fn g1(&self) -> (r: G1)
        ensures
            r@ == self@.g1,
    {
        self.g1
    }

    /// The generator in `G2`.
    pub fn g2(&self) -> (r: G2)
        ensures
            r@ == self@.g2,
    {
        self.g2
    }

    /// The pairing of the two generators.
    pub fn c(&self) -> (r: Gt)
        ensures
            r@ == self@.c,
            r@ == pairing(self@.g1, self@.g2),
    {
        proof {
            use_type_invariant(self);
        }
        self.c
    }
}

} // verus!
