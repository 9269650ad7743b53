//! The prover's witness: the generator vectors scaled, element by element,
//! by the evaluations of the polynomial that is committed to.

use crate::curve::{g1_scaled, g2_scaled, G1, G2};
use crate::error::Error;
use crate::field::Scalar;
use crate::params::{g1_values, g2_values, PublicParams, PublicParamsView};
use crate::polynomial::{scalar_values, MultilinearPolynomial};
use vstd::pervasive::unreached;
use vstd::prelude::*;

verus! {

/// What a witness holds.
pub struct WitnessView {
    pub u1: Seq<Seq<u8>>,
    pub u2: Seq<Seq<u8>>,
}

/// The smaller of two lengths.
pub open spec fn shorter(a: nat, b: nat) -> nat {
    if a <= b {
        a
    } else {
        b
    }
}

/// Generators of `G1` scaled one by one: element `i` is `a[i] * gs[i]`, for as
/// many `i` as both sequences have.
pub open spec fn g1_scaled_each(gs: Seq<Seq<u8>>, a: Seq<nat>) -> Seq<Seq<u8>> {
    Seq::new(shorter(gs.len(), a.len()), |i: int| g1_scaled(gs[i], a[i]))
}

/// Generators of `G2` scaled one by one: element `i` is `a[i] * gs[i]`, for as
/// many `i` as both sequences have.
pub open spec fn g2_scaled_each(gs: Seq<Seq<u8>>, a: Seq<nat>) -> Seq<Seq<u8>> {
    Seq::new(shorter(gs.len(), a.len()), |i: int| g2_scaled(gs[i], a[i]))
}

/// The witness for evaluations `a` under the generators `pp`.
pub open spec fn witness_of(pp: PublicParamsView, a: Seq<nat>) -> WitnessView {
    WitnessView { u1: g1_scaled_each(pp.g1v, a), u2: g2_scaled_each(pp.g2v, a) }
}

/// A vector in `G1` and a vector in `G2`.
#[derive(Debug)]
pub struct Witness {
    pub u1: Vec<G1>,
    pub u2: Vec<G2>,
}

impl View for Witness {
    type V = WitnessView;

    open spec fn view(&self) -> WitnessView {
        WitnessView { u1: g1_values(self.u1@), u2: g2_values(self.u2@) }
    }
}

impl Clone for Witness {
    /// A second witness with the same elements.
    fn clone(&self) -> (r: Witness)
        ensures
            r@ == self@,
    {
        let u1 = self.u1.clone();
        let u2 = self.u2.clone();
        proof {
            assert(g1_values(u1@) =~= g1_values(self.u1@));
            assert(g2_values(u2@) =~= g2_values(self.u2@));
        }
        Witness { u1, u2 }
    }
}

/// The generators of `G1` scaled by the evaluations, one by one.
fn scale_g1(gs: &Vec<G1>, a: &Vec<Scalar>) -> (r: Vec<G1>)
    ensures
        g1_values(r@) == g1_scaled_each(g1_values(gs@), scalar_values(a@)),
{
    let n: usize = if gs.len() <= a.len() {
        gs.len()
    } else {
        a.len()
    };
    let mut out: Vec<G1> = Vec::new();
    let mut i: usize = 0;
    while i < n
        invariant
            0 <= i <= n,
            n == shorter(gs@.len(), a@.len()),
            out@.len() == i,
            forall|j: int| 0 <= j < i ==> (#[trigger] out@[j])@ == g1_scaled(gs@[j]@, a@[j]@),
        decreases n - i,
    {
        out.push(gs[i].scale(&a[i]));
        i += 1;
    }
    proof {
        assert(g1_values(out@) =~= g1_scaled_each(g1_values(gs@), scalar_values(a@)));
    }
    out
}

/// The generators of `G2` scaled by the evaluations, one by one.
fn scale_g2(gs: &Vec<G2>, a: &Vec<Scalar>) -> (r: Vec<G2>)
    ensures
        g2_values(r@) == g2_scaled_each(g2_values(gs@), scalar_values(a@)),
{
    let n: usize = if gs.len() <= a.len() {
        gs.len()
    } else {
        a.len()
    };
    let mut out: Vec<G2> = Vec::new();
    let mut i: usize = 0;
    while i < n
        invariant
            0 <= i <= n,
            n == shorter(gs@.len(), a@.len()),
            out@.len() == i,
            forall|j: int| 0 <= j < i ==> (#[trigger] out@[j])@ == g2_scaled(gs@[j]@, a@[j]@),
        decreases n - i,
    {
        out.push(gs[i].scale(&a[i]));
        i += 1;
    }
    proof {
        assert(g2_values(out@) =~= g2_scaled_each(g2_values(gs@), scalar_values(a@)));
    }
    out
}

impl Witness {
    /// The witness for a polynomial in dense form: `u1[i] = a[i] * g1v[i]` and
    /// `u2[i] = a[i] * g2v[i]`, where `a` are its evaluations. Where there are
    /// more generators than evaluations, or the other way round, the witness
    /// is as long as the shorter of the two.
    pub fn new(params: &PublicParams, poly: &MultilinearPolynomial) -> (r: Witness)
        requires
            poly is LargeScalars,
        ensures
            r@ == witness_of(params@, poly->LargeScalars_0@),
    {
        match poly {
            MultilinearPolynomial::LargeScalars(dense) => {
                let evals = dense.evals_ref();
                let u1 = scale_g1(params.g1v(), evals);
                let u2 = scale_g2(params.g2v(), evals);
                Witness { u1, u2 }
            },
            MultilinearPolynomial::U64Scalars(_) => unreached(),
        }
    }

    /// The witness for a polynomial, which must be in dense form: any other
    /// form is turned away.
    pub fn for_polynomial(params: &PublicParams, poly: &MultilinearPolynomial) -> (r: Result<
        Witness,
        Error,
    >)
        ensures
            poly is LargeScalars ==> r is Ok && r->Ok_0@ == witness_of(
                params@,
                poly->LargeScalars_0@,
            ),
            !(poly is LargeScalars) ==> r == Err::<Witness, Error>(Error::InvalidPolynomialForm),
    {
        if poly.is_dense() {
            Ok(Witness::new(params, poly))
        } else {
            Err(Error::InvalidPolynomialForm)
        }
    }
}

} // verus!
