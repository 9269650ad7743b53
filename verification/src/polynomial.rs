//! Multilinear polynomials over the scalar field, as far as the commitment
//! scheme looks at them: it reads the list of evaluations of a polynomial in
//! dense form and turns every other form away.

use crate::field::Scalar;
use vstd::prelude::*;

verus! {

/// The integers that a sequence of scalars stands for.
pub open spec fn scalar_values(scalars: Seq<Scalar>) -> Seq<nat> {
    Seq::new(scalars.len(), |i: int| scalars[i]@)
}

/// A multilinear polynomial given by its value at every point of the Boolean
/// hypercube.
#[derive(Debug)]
pub struct DensePolynomial {
    pub evals: Vec<Scalar>,
}

impl View for DensePolynomial {
    type V = Seq<nat>;

    open spec fn view(&self) -> Seq<nat> {
        scalar_values(self.evals@)
    }
}

impl DensePolynomial {
    /// The polynomial with these evaluations.
    pub fn new(evals: Vec<Scalar>) -> (r: DensePolynomial)
        ensures
            r.evals == evals,
    {
        DensePolynomial { evals }
    }

    /// The evaluations, in the order of the points.
    pub fn evals_ref(&self) -> (r: &Vec<Scalar>)
        ensures
            r == &self.evals,
    {
        &self.evals
    }

    /// The number of evaluations.
    pub fn len(&self) -> (r: usize)
        ensures
            r == self@.len(),
    {
        self.evals.len()
    }
}

impl Clone for DensePolynomial {
    /// A second polynomial with the same evaluations.
    fn clone(&self) -> (r: DensePolynomial)
        ensures
            r.evals@ == self.evals@,
    {
        let evals = self.evals.clone();
        proof {
            assert(evals@ =~= self.evals@);
        }
        DensePolynomial { evals }
    }
}

/// A multilinear polynomial in one of its representations.
#[derive(Debug)]
pub enum MultilinearPolynomial {
    /// Dense evaluations over the scalar field.
    LargeScalars(DensePolynomial),
    /// Evaluations that are small integers, kept as machine words.
    U64Scalars(Vec<u64>),
}

impl Clone for MultilinearPolynomial {
    /// A second polynomial in the same form with the same evaluations.
    fn clone(&self) -> (r: MultilinearPolynomial)
        ensures
            self matches MultilinearPolynomial::LargeScalars(dense) ==> r is LargeScalars
                && r->LargeScalars_0.evals@ == dense.evals@,
            self matches MultilinearPolynomial::U64Scalars(words) ==> r is U64Scalars
                && r->U64Scalars_0@ == words@,
    {
        match self {
            MultilinearPolynomial::LargeScalars(dense) => MultilinearPolynomial::LargeScalars(
                dense.clone(),
            ),
            MultilinearPolynomial::U64Scalars(words) => {
                let copy = words.clone();
                proof {
                    assert(copy@ =~= words@);
                }
                MultilinearPolynomial::U64Scalars(copy)
            },
        }
    }
}

impl MultilinearPolynomial {
    /// Whether the polynomial is given by dense evaluations over the field.
    pub fn is_dense(&self) -> (r: bool)
        ensures
            r == (self is LargeScalars),
    {
        match self {
            MultilinearPolynomial::LargeScalars(_) => true,
            MultilinearPolynomial::U64Scalars(_) => false,
        }
    }
}

} // verus!
