//! What holds of the scheme as a whole.
//!
//! The first law needs nothing but the definitions. The others are the
//! algebra behind the verification equation. They rest on the laws of a
//! bilinear pairing between groups of prime order, which this library cannot
//! prove of the curve arithmetic it calls: those laws are written down here
//! as predicates over the operations, and each theorem names the ones it
//! uses as its hypotheses.

use crate::commitment::{commitment_of, Commitment, CommitmentView};
use crate::curve::{
    g1_scaled, g1_sum, g2_scaled, g2_sum, gt_scaled, gt_sum, is_g1, is_g2, is_gt, pairing,
};
use crate::field::{field_inverse, invertible, is_inverse, modulus};
use crate::params::{PublicParamsView, SingleParamView};
use crate::scalar_proof::{accepts, left_side, proof_of, right_side, ScalarProofView};
use crate::transcript::{AppendToTranscript, Transcript};
use crate::witness::WitnessView;
use vstd::prelude::*;

verus! {

/// The parameters of the base case that belong to generator vectors of
/// length one.
pub open spec fn single_of(pp: PublicParamsView) -> SingleParamView
    recommends
        pp.g1v.len() == 1,
        pp.g2v.len() == 1,
{
    SingleParamView { g1: pp.g1v[0], g2: pp.g2v[0], c: pairing(pp.g1v[0], pp.g2v[0]) }
}

/// The commitment to a witness of length one is three single pairings:
/// `c = e(u1[0], u2[0])`, `d1 = e(u1[0], g2)` and `d2 = e(g1, u2[0])`.
pub proof fn lemma_commit_expand(w: WitnessView, pp: PublicParamsView)
    requires
        w.u1.len() == 1,
        w.u2.len() == 1,
        pp.g1v.len() == 1,
        pp.g2v.len() == 1,
    ensures
        commitment_of(w, pp) == (CommitmentView {
            c: pairing(w.u1[0], w.u2[0]),
            d1: pairing(w.u1[0], single_of(pp).g2),
            d2: pairing(single_of(pp).g1, w.u2[0]),
        }),
{
}

/// Two transcripts that have absorbed the same messages and are then fed the
/// same commitment have again absorbed the same messages: those from before
/// and then `c`, `d1` and `d2`, in this order. Whatever a transcript derives
/// from what it absorbed is therefore the same for both.
pub proof fn lemma_transcripts_agree<A: Transcript, B: Transcript>(
    a: A,
    b: B,
    a_fed: A,
    b_fed: B,
    com: Commitment,
)
    requires
        a.absorbed() == b.absorbed(),
        a_fed.absorbed() == a.absorbed() + com.messages(),
        b_fed.absorbed() == b.absorbed() + com.messages(),
    ensures
        a_fed.absorbed() == b_fed.absorbed(),
        a_fed.absorbed() == a.absorbed().push(com@.c).push(com@.d1).push(com@.d2),
{
    assert(a.absorbed() + com.messages() =~= a.absorbed().push(com@.c).push(com@.d1).push(com@.d2));
}

/// The sums, the multiples and the pairing of elements are elements.
pub open spec fn groups_closed() -> bool {
    &&& forall|a: Seq<u8>, b: Seq<u8>| is_g1(a) && is_g1(b) ==> is_g1(#[trigger] g1_sum(a, b))
    &&& forall|a: Seq<u8>, b: Seq<u8>| is_g2(a) && is_g2(b) ==> is_g2(#[trigger] g2_sum(a, b))
    &&& forall|a: Seq<u8>, b: Seq<u8>| is_gt(a) && is_gt(b) ==> is_gt(#[trigger] gt_sum(a, b))
    &&& forall|p: Seq<u8>, s: nat| is_g1(p) && s < modulus() ==> is_g1(#[trigger] g1_scaled(p, s))
    &&& forall|p: Seq<u8>, s: nat| is_g2(p) && s < modulus() ==> is_g2(#[trigger] g2_scaled(p, s))
    &&& forall|p: Seq<u8>, s: nat| is_gt(p) && s < modulus() ==> is_gt(#[trigger] gt_scaled(p, s))
    &&& forall|p: Seq<u8>, q: Seq<u8>| is_g1(p) && is_g2(q) ==> is_gt(#[trigger] pairing(p, q))
}

/// The pairing is linear in each argument: it turns sums into sums and
/// multiples into multiples.
pub open spec fn pairing_bilinear() -> bool {
    &&& forall|a: Seq<u8>, b: Seq<u8>, q: Seq<u8>|
        is_g1(a) && is_g1(b) && is_g2(q) ==> #[trigger] pairing(g1_sum(a, b), q) == gt_sum(
            pairing(a, q),
            pairing(b, q),
        )
    &&& forall|p: Seq<u8>, a: Seq<u8>, b: Seq<u8>|
        is_g1(p) && is_g2(a) && is_g2(b) ==> #[trigger] pairing(p, g2_sum(a, b)) == gt_sum(
            pairing(p, a),
            pairing(p, b),
        )
    &&& forall|p: Seq<u8>, q: Seq<u8>, s: nat|
        is_g1(p) && is_g2(q) && s < modulus() ==> #[trigger] pairing(g1_scaled(p, s), q)
            == gt_scaled(pairing(p, q), s)
    &&& forall|p: Seq<u8>, q: Seq<u8>, s: nat|
        is_g1(p) && is_g2(q) && s < modulus() ==> #[trigger] pairing(p, g2_scaled(q, s))
            == gt_scaled(pairing(p, q), s)
}

/// The target group is commutative, its sum associates and cancels, and the
/// scalars act on it as the field of its order does.
#[verifier::opaque]
pub open spec fn target_group_laws() -> bool {
    &&& forall|a: Seq<u8>, b: Seq<u8>|
        is_gt(a) && is_gt(b) ==> #[trigger] gt_sum(a, b) == gt_sum(b, a)
    &&& forall|a: Seq<u8>, b: Seq<u8>, c: Seq<u8>|
        is_gt(a) && is_gt(b) && is_gt(c) ==> #[trigger] gt_sum(gt_sum(a, b), c) == gt_sum(
            a,
            gt_sum(b, c),
        )
    &&& forall|a: Seq<u8>, b: Seq<u8>, c: Seq<u8>|
        is_gt(a) && is_gt(b) && is_gt(c) && #[trigger] gt_sum(a, c) == #[trigger] gt_sum(b, c)
            ==> a == b
    &&& forall|x: Seq<u8>, s: nat, t: nat|
        is_gt(x) && s < modulus() && t < modulus() ==> #[trigger] gt_scaled(gt_scaled(x, s), t)
            == gt_scaled(x, (s * t) % modulus())
    &&& forall|x: Seq<u8>| is_gt(x) ==> #[trigger] gt_scaled(x, 1) == x
}

/// Only the neutral elements pair to the same value with two different
/// elements: if `e(a, q) = e(b, q)` then `a = b` or `q` is neutral, and
/// likewise on the other side. The neutral element is written as the zeroth
/// multiple.
pub open spec fn pairing_nondegenerate() -> bool {
    &&& forall|a: Seq<u8>, b: Seq<u8>, q: Seq<u8>|
        is_g1(a) && is_g1(b) && is_g2(q) && #[trigger] pairing(a, q) == #[trigger] pairing(b, q)
            ==> a == b || q == g2_scaled(q, 0)
    &&& forall|p: Seq<u8>, a: Seq<u8>, b: Seq<u8>|
        is_g1(p) && is_g2(a) && is_g2(b) && #[trigger] pairing(p, a) == #[trigger] pairing(p, b)
            ==> a == b || p == g1_scaled(p, 0)
}

/// What the verifier is given when everybody is honest: the proof for a
/// witness of length one, the commitment to that witness, and the parameters
/// that belong to the generators.
pub open spec fn honest(w: WitnessView, pp: PublicParamsView) -> bool {
    &&& w.u1.len() == 1
    &&& w.u2.len() == 1
    &&& pp.g1v.len() == 1
    &&& pp.g2v.len() == 1
    &&& is_g1(w.u1[0])
    &&& is_g2(w.u2[0])
    &&& is_g1(pp.g1v[0])
    &&& is_g2(pp.g2v[0])
}

/// The sum in the target group commutes.
proof fn lemma_commutes(a: Seq<u8>, b: Seq<u8>)
    requires
        target_group_laws(),
        is_gt(a),
        is_gt(b),
    ensures
        gt_sum(a, b) == gt_sum(b, a),
{
    reveal(target_group_laws);
}

/// The sum in the target group associates.
proof fn lemma_associates(a: Seq<u8>, b: Seq<u8>, c: Seq<u8>)
    requires
        target_group_laws(),
        is_gt(a),
        is_gt(b),
        is_gt(c),
    ensures
        gt_sum(gt_sum(a, b), c) == gt_sum(a, gt_sum(b, c)),
{
    reveal(target_group_laws);
}

/// A summand on the right can be cancelled.
proof fn lemma_cancels_right(a: Seq<u8>, b: Seq<u8>, c: Seq<u8>)
    requires
        target_group_laws(),
        is_gt(a),
        is_gt(b),
        is_gt(c),
        gt_sum(a, c) == gt_sum(b, c),
    ensures
        a == b,
{
    reveal(target_group_laws);
}

/// A summand on the left can be cancelled.
proof fn lemma_cancels_left(c: Seq<u8>, a: Seq<u8>, b: Seq<u8>)
    requires
        target_group_laws(),
        is_gt(a),
        is_gt(b),
        is_gt(c),
        gt_sum(c, a) == gt_sum(c, b),
    ensures
        a == b,
{
    lemma_commutes(c, a);
    lemma_commutes(c, b);
    lemma_cancels_right(a, b, c);
}

/// Scaling by a scalar and then by its inverse gives the element back.
proof fn lemma_scaling_undone(x: Seq<u8>, s: nat, t: nat)
    requires
        target_group_laws(),
        is_gt(x),
        is_inverse(s, t) || is_inverse(t, s),
        s < modulus(),
        t < modulus(),
    ensures
        gt_scaled(gt_scaled(x, s), t) == x,
{
    reveal(target_group_laws);
    assert(s * t == t * s) by (nonlinear_arith);
    assert(gt_scaled(gt_scaled(x, s), t) == gt_scaled(x, (s * t) % modulus()));
    assert(gt_scaled(x, 1) == x);
}

/// A scalar that has an inverse can be cancelled.
proof fn lemma_scaling_cancels(x: Seq<u8>, y: Seq<u8>, s: nat, t: nat)
    requires
        target_group_laws(),
        is_gt(x),
        is_gt(y),
        is_inverse(s, t) || is_inverse(t, s),
        s < modulus(),
        t < modulus(),
        gt_scaled(x, s) == gt_scaled(y, s),
    ensures
        x == y,
{
    lemma_scaling_undone(x, s, t);
    lemma_scaling_undone(y, s, t);
}

/// Four elements of the target group summed in two ways.
proof fn lemma_rearrange(x: Seq<u8>, y: Seq<u8>, z: Seq<u8>, w: Seq<u8>)
    requires
        groups_closed(),
        target_group_laws(),
        is_gt(x),
        is_gt(y),
        is_gt(z),
        is_gt(w),
    ensures
        gt_sum(gt_sum(x, y), gt_sum(z, w)) == gt_sum(gt_sum(gt_sum(w, x), z), y),
{
    let zw = gt_sum(z, w);
    lemma_commutes(w, x);
    lemma_associates(x, w, z);
    lemma_commutes(w, z);
    lemma_associates(x, zw, y);
    lemma_commutes(zw, y);
    lemma_associates(x, y, zw);
}

/// The left side of the verification equation, expanded by bilinearity:
/// `e(e1 + d g1, e2 + (1/d) g2) = (e(e1, e2) + (1/d) e(e1, g2)) + (d e(g1, e2) + e(g1, g2))`.
pub proof fn lemma_left_side_expands(prf: ScalarProofView, pp: SingleParamView, d: nat)
    requires
        groups_closed(),
        pairing_bilinear(),
        target_group_laws(),
        prf.wf(),
        pp.wf(),
        invertible(d),
    ensures
        left_side(prf, pp, d) == gt_sum(
            gt_sum(pairing(prf.e1, prf.e2), gt_scaled(pairing(prf.e1, pp.g2), field_inverse(d))),
            gt_sum(gt_scaled(pairing(pp.g1, prf.e2), d), pp.c),
        ),
{
    let di = field_inverse(d);
    let a = g1_scaled(pp.g1, d);
    let b = g2_scaled(pp.g2, di);
    let q = g2_sum(prf.e2, b);
    assert(is_g1(a) && is_g2(b) && is_g2(q));
    assert(pairing(g1_sum(prf.e1, a), q) == gt_sum(pairing(prf.e1, q), pairing(a, q)));
    assert(pairing(prf.e1, q) == gt_sum(pairing(prf.e1, prf.e2), pairing(prf.e1, b)));
    assert(pairing(a, q) == gt_sum(pairing(a, prf.e2), pairing(a, b)));
    assert(pairing(prf.e1, b) == gt_scaled(pairing(prf.e1, pp.g2), di));
    assert(pairing(a, prf.e2) == gt_scaled(pairing(pp.g1, prf.e2), d));
    assert(pairing(a, b) == pp.c) by {
        assert(pairing(a, b) == gt_scaled(pairing(pp.g1, b), d));
        assert(pairing(pp.g1, b) == gt_scaled(pp.c, di));
        lemma_scaling_undone(pp.c, di, d);
    }
}

/// An honest proof is accepted, whatever blinder the verifier draws: for the
/// proof of a witness of length one and the commitment to that witness, the
/// two sides of the verification equation are the same.
pub proof fn lemma_honest_proof_accepted(w: WitnessView, pp: PublicParamsView, d: nat)
    requires
        groups_closed(),
        pairing_bilinear(),
        target_group_laws(),
        honest(w, pp),
        invertible(d),
    ensures
        accepts(proof_of(w), single_of(pp), commitment_of(w, pp), d),
{
    let prf = proof_of(w);
    let single = single_of(pp);
    let com = commitment_of(w, pp);
    lemma_commit_expand(w, pp);
    lemma_left_side_expands(prf, single, d);
    let di = field_inverse(d);
    lemma_rearrange(com.c, gt_scaled(com.d1, di), gt_scaled(com.d2, d), single.c);
}

/// Verification of an honest proof never answers with a rejection: `accepted`
/// is an answer that `ScalarProof::verify` can give, and it is acceptance.
pub proof fn lemma_honest_verification_accepts(
    w: WitnessView,
    pp: PublicParamsView,
    accepted: bool,
)
    requires
        groups_closed(),
        pairing_bilinear(),
        target_group_laws(),
        honest(w, pp),
        exists|d: nat|
            invertible(d) && accepted == #[trigger] accepts(
                proof_of(w),
                single_of(pp),
                commitment_of(w, pp),
                d,
            ),
    ensures
        accepted,
{
    let d = choose|d: nat|
        invertible(d) && accepted == #[trigger] accepts(
            proof_of(w),
            single_of(pp),
            commitment_of(w, pp),
            d,
        );
    lemma_honest_proof_accepted(w, pp, d);
}

/// Whether two commitments differ in exactly one of their three elements.
pub open spec fn differ_in_one(a: CommitmentView, b: CommitmentView) -> bool {
    ||| a.c != b.c && a.d1 == b.d1 && a.d2 == b.d2
    ||| a.c == b.c && a.d1 != b.d1 && a.d2 == b.d2
    ||| a.c == b.c && a.d1 == b.d1 && a.d2 != b.d2
}

/// The right side of the verification equation tells commitments apart that
/// differ in exactly one element.
pub proof fn lemma_right_side_separates(
    pp: SingleParamView,
    a: CommitmentView,
    b: CommitmentView,
    d: nat,
)
    requires
        groups_closed(),
        target_group_laws(),
        is_gt(pp.c),
        a.wf(),
        b.wf(),
        invertible(d),
        differ_in_one(a, b),
    ensures
        right_side(pp, a, d) != right_side(pp, b, d),
{
    let di = field_inverse(d);
    if right_side(pp, a, d) == right_side(pp, b, d) {
        let (a1, a2, a3) = (gt_sum(pp.c, a.c), gt_scaled(a.d2, d), gt_scaled(a.d1, di));
        let (b1, b2, b3) = (gt_sum(pp.c, b.c), gt_scaled(b.d2, d), gt_scaled(b.d1, di));
        if a.d1 != b.d1 {
            lemma_cancels_left(gt_sum(a1, a2), a3, b3);
            lemma_scaling_cancels(a.d1, b.d1, di, d);
        } else {
            lemma_cancels_right(gt_sum(a1, a2), gt_sum(b1, b2), a3);
            if a.d2 != b.d2 {
                lemma_cancels_left(a1, a2, b2);
                lemma_scaling_cancels(a.d2, b.d2, d, di);
            } else {
                lemma_cancels_right(a1, b1, a2);
                lemma_cancels_left(pp.c, a.c, b.c);
            }
        }
    }
}

/// A commitment in which one of `c`, `d1`, `d2` was replaced by another
/// element, the other two and the proof being honest, is rejected, whatever
/// blinder the verifier draws.
pub proof fn lemma_tampered_commitment_rejected(
    w: WitnessView,
    pp: PublicParamsView,
    tampered: CommitmentView,
    d: nat,
)
    requires
        groups_closed(),
        pairing_bilinear(),
        target_group_laws(),
        honest(w, pp),
        invertible(d),
        tampered.wf(),
        differ_in_one(tampered, commitment_of(w, pp)),
    ensures
        !accepts(proof_of(w), single_of(pp), tampered, d),
{
    lemma_commit_expand(w, pp);
    lemma_honest_proof_accepted(w, pp, d);
    lemma_right_side_separates(single_of(pp), tampered, commitment_of(w, pp), d);
}

/// Verification against a commitment in which one element was replaced never
/// answers with acceptance: `accepted` is an answer that
/// `ScalarProof::verify` can give, and it is rejection.
pub proof fn lemma_tampered_verification_rejects(
    w: WitnessView,
    pp: PublicParamsView,
    tampered: CommitmentView,
    accepted: bool,
)
    requires
        groups_closed(),
        pairing_bilinear(),
        target_group_laws(),
        honest(w, pp),
        tampered.wf(),
        differ_in_one(tampered, commitment_of(w, pp)),
        exists|d: nat|
            invertible(d) && accepted == #[trigger] accepts(
                proof_of(w),
                single_of(pp),
                tampered,
                d,
            ),
    ensures
        !accepted,
{
    let d = choose|d: nat|
        invertible(d) && accepted == #[trigger] accepts(
            proof_of(w),
            single_of(pp),
            tampered,
            d,
        );
    lemma_tampered_commitment_rejected(w, pp, tampered, d);
}

/// A proof whose first element was replaced by another element of `G1` is
/// rejected, unless the blinder is the one for which `e2 + (1/d) g2` is the
/// neutral element.
pub proof fn lemma_foreign_e1_rejected(
    w: WitnessView,
    pp: PublicParamsView,
    e1: Seq<u8>,
    d: nat,
)
    requires
        groups_closed(),
        pairing_bilinear(),
        target_group_laws(),
        pairing_nondegenerate(),
        honest(w, pp),
        invertible(d),
        is_g1(e1),
        e1 != w.u1[0],
        ({
            let q = g2_sum(w.u2[0], g2_scaled(pp.g2v[0], field_inverse(d)));
            q != g2_scaled(q, 0)
        }),
    ensures
        !accepts(ScalarProofView { e1, e2: w.u2[0] }, single_of(pp), commitment_of(w, pp), d),
{
    let single = single_of(pp);
    let com = commitment_of(w, pp);
    let forged = ScalarProofView { e1, e2: w.u2[0] };
    let a = g1_scaled(single.g1, d);
    let q = g2_sum(w.u2[0], g2_scaled(single.g2, field_inverse(d)));
    lemma_honest_proof_accepted(w, pp, d);
    assert(is_g1(a) && is_g2(q));
    assert(left_side(forged, single, d) == gt_sum(pairing(e1, q), pairing(a, q)));
    assert(left_side(proof_of(w), single, d) == gt_sum(pairing(w.u1[0], q), pairing(a, q)));
    if accepts(forged, single, com, d) {
        lemma_cancels_right(pairing(e1, q), pairing(w.u1[0], q), pairing(a, q));
    }
}

/// A proof whose second element was replaced by another element of `G2` is
/// rejected, unless the blinder is the one for which `e1 + d g1` is the
/// neutral element.
pub proof fn lemma_foreign_e2_rejected(
    w: WitnessView,
    pp: PublicParamsView,
    e2: Seq<u8>,
    d: nat,
)
    requires
        groups_closed(),
        pairing_bilinear(),
        target_group_laws(),
        pairing_nondegenerate(),
        honest(w, pp),
        invertible(d),
        is_g2(e2),
        e2 != w.u2[0],
        ({
            let p = g1_sum(w.u1[0], g1_scaled(pp.g1v[0], d));
            p != g1_scaled(p, 0)
        }),
    ensures
        !accepts(ScalarProofView { e1: w.u1[0], e2 }, single_of(pp), commitment_of(w, pp), d),
{
    let single = single_of(pp);
    let com = commitment_of(w, pp);
    let forged = ScalarProofView { e1: w.u1[0], e2 };
    let p = g1_sum(w.u1[0], g1_scaled(single.g1, d));
    let b = g2_scaled(single.g2, field_inverse(d));
    lemma_honest_proof_accepted(w, pp, d);
    assert(is_g1(p) && is_g2(b));
    assert(left_side(forged, single, d) == gt_sum(pairing(p, e2), pairing(p, b)));
    assert(left_side(proof_of(w), single, d) == gt_sum(pairing(p, w.u2[0]), pairing(p, b)));
    if accepts(forged, single, com, d) {
        lemma_cancels_right(pairing(p, e2), pairing(p, w.u2[0]), pairing(p, b));
    }
}

} // verus!
