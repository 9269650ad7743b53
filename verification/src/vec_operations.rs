//! Operations on vectors of group elements: the inner pairing product.

use crate::curve::{e, gt_identity, gt_sum, pairing, Gt, G1, G2};
use crate::error::Error;
use crate::params::{g1_values, g2_values};
use vstd::prelude::*;

verus! {

/// The inner pairing product of two vectors of one length: the sum over `i`
/// of `e(xs[i], ys[i])`, which for no terms is the neutral element of `Gt`.
pub open spec fn inner_product(xs: Seq<Seq<u8>>, ys: Seq<Seq<u8>>) -> Seq<u8>
    recommends
        xs.len() == ys.len(),
    decreases xs.len(),
{
    if xs.len() == 0 {
        gt_identity()
    } else if xs.len() == 1 {
        pairing(xs[0], ys[0])
    } else {
        gt_sum(inner_product(xs.drop_last(), ys.drop_last()), pairing(xs.last(), ys.last()))
    }
}

/// The inner pairing product over the first `n` terms is the one over the
/// first `n - 1` with the `n`-th pairing added.
proof fn lemma_inner_product_step(xs: Seq<Seq<u8>>, ys: Seq<Seq<u8>>, n: int)
    requires
        2 <= n <= xs.len(),
        n <= ys.len(),
    ensures
        inner_product(xs.take(n), ys.take(n)) == gt_sum(
            inner_product(xs.take(n - 1), ys.take(n - 1)),
            pairing(xs[n - 1], ys[n - 1]),
        ),
{
    assert(xs.take(n).drop_last() == xs.take(n - 1));
    assert(ys.take(n).drop_last() == ys.take(n - 1));
}

/// The inner pairing product of a vector in `G1` with one in `G2`, which must
/// have the same length.
pub fn inner_prod(xs: &Vec<G1>, ys: &Vec<G2>) -> (r: Result<Gt, Error>)
    ensures
        xs.len() == ys.len() ==> r is Ok && r->Ok_0@ == inner_product(
            g1_values(xs@),
            g2_values(ys@),
        ),
        xs.len() != ys.len() ==> r == Err::<Gt, Error>(Error::LengthMismatch),
{
    let n: usize = xs.len();
    if n != ys.len() {
        return Err(Error::LengthMismatch);
    }
    if n == 0 {
        return Ok(Gt::identity());
    }
    let ghost gs = g1_values(xs@);
    let ghost hs = g2_values(ys@);
    let mut acc: Gt = e(&xs[0], &ys[0]);
    let mut i: usize = 1;
    while i < n
        invariant
            1 <= i <= n,
            n == xs.len(),
            n == ys.len(),
            gs == g1_values(xs@),
            hs == g2_values(ys@),
            acc@ == inner_product(gs.take(i as int), hs.take(i as int)),
        decreases n - i,
    {
        let term: Gt = e(&xs[i], &ys[i]);
        acc = acc.add(&term);
        proof {
            lemma_inner_product_step(gs, hs, i + 1);
        }
        i += 1;
    }
    proof {
        assert(gs.take(n as int) == gs);
        assert(hs.take(n as int) == hs);
    }
    Ok(acc)
}

} // verus!
