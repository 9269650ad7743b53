use ark_bn254::{Bn254, Fq12, Fr, G1Projective, G2Projective};
use ark_ec::pairing::{Pairing, PairingOutput};
use ark_ec::{AdditiveGroup, PrimeGroup};
use ark_ff::{BigInt, Field, One, PrimeField};
use ark_serialize::CanonicalSerialize;
use dory_scalar::curve::{e, Gt, G1, G2, G1_SIZE, G2_SIZE, GT_SIZE};
use dory_scalar::error::Error;
use dory_scalar::field::Scalar;

fn encode<T: CanonicalSerialize>(value: &T) -> Vec<u8> {
    let mut bytes = Vec::new();
    value.serialize_compressed(&mut bytes).unwrap();
    bytes
}

fn g1_of(p: G1Projective) -> G1 {
    G1::from_bytes(&encode(&p)).unwrap()
}

fn g2_of(p: G2Projective) -> G2 {
    G2::from_bytes(&encode(&p)).unwrap()
}

fn gt_of(p: PairingOutput<Bn254>) -> Gt {
    Gt::from_bytes(&encode(&p)).unwrap()
}

fn scalar_of(x: Fr) -> Scalar {
    Scalar::from_limbs(x.into_bigint().0).unwrap()
}

fn g() -> G1Projective {
    G1Projective::generator()
}

fn h() -> G2Projective {
    G2Projective::generator()
}

#[test]
fn sizes_are_those_of_the_compressed_encodings() {
    assert_eq!(G1_SIZE, 32);
    assert_eq!(G2_SIZE, 64);
    assert_eq!(GT_SIZE, 384);
    assert_eq!(encode(&g()).len(), G1_SIZE);
    assert_eq!(encode(&h()).len(), G2_SIZE);
    assert_eq!(encode(&Bn254::pairing(g(), h())).len(), GT_SIZE);
}

#[test]
fn g1_encoding_is_that_of_arkworks() {
    let p = g() * Fr::from(11u64);
    assert_eq!(g1_of(p).to_bytes().to_vec(), encode(&p));
}

#[test]
fn g2_encoding_is_that_of_arkworks() {
    let p = h() * Fr::from(11u64);
    assert_eq!(g2_of(p).to_bytes().to_vec(), encode(&p));
}

#[test]
fn gt_encoding_is_that_of_arkworks() {
    let p = Bn254::pairing(g(), h()) * Fr::from(11u64);
    assert_eq!(gt_of(p).to_bytes().to_vec(), encode(&p));
}

#[test]
fn g1_sum_is_the_sum_of_arkworks() {
    let two = g1_of(g() * Fr::from(2u64));
    let three = g1_of(g() * Fr::from(3u64));
    let five = g1_of(g() * Fr::from(5u64));
    assert!(two.add(&three).equals(&five));
    assert!(!two.add(&three).equals(&two));
    assert!(!two.add(&three).equals(&three));
}

#[test]
fn g2_sum_is_the_sum_of_arkworks() {
    let two = g2_of(h() * Fr::from(2u64));
    let three = g2_of(h() * Fr::from(3u64));
    let five = g2_of(h() * Fr::from(5u64));
    assert!(two.add(&three).equals(&five));
    assert!(!two.add(&three).equals(&two));
    assert!(!two.add(&three).equals(&three));
}

#[test]
fn gt_sum_is_the_sum_of_arkworks() {
    let base = Bn254::pairing(g(), h());
    let two = gt_of(base * Fr::from(2u64));
    let three = gt_of(base * Fr::from(3u64));
    let five = gt_of(base * Fr::from(5u64));
    assert!(two.add(&three).equals(&five));
    assert!(!two.add(&three).equals(&two));
    assert!(!two.add(&three).equals(&three));
}

#[test]
fn g1_multiple_is_the_multiple_of_arkworks() {
    let s = Fr::from(123_456_789u64);
    let p = g1_of(g()).scale(&scalar_of(s));
    assert!(p.equals(&g1_of(g() * s)));
    assert!(!p.equals(&g1_of(g())));
}

#[test]
fn g2_multiple_is_the_multiple_of_arkworks() {
    let s = Fr::from(123_456_789u64);
    let p = g2_of(h()).scale(&scalar_of(s));
    assert!(p.equals(&g2_of(h() * s)));
    assert!(!p.equals(&g2_of(h())));
}

#[test]
fn gt_multiple_is_the_multiple_of_arkworks() {
    let base = Bn254::pairing(g(), h());
    let s = Fr::from(123_456_789u64);
    let p = gt_of(base).scale(&scalar_of(s));
    assert!(p.equals(&gt_of(base * s)));
    assert!(!p.equals(&gt_of(base)));
}

#[test]
fn multiple_by_a_large_scalar_is_the_multiple_of_arkworks() {
    let s = -Fr::from(1u64);
    assert!(g1_of(g()).scale(&scalar_of(s)).equals(&g1_of(-g())));
    assert!(g2_of(h()).scale(&scalar_of(s)).equals(&g2_of(-h())));
}

#[test]
fn zeroth_multiple_is_the_neutral_element() {
    let zero = Scalar::from_u64(0);
    assert!(g1_of(g()).scale(&zero).equals(&g1_of(G1Projective::ZERO)));
    assert!(g2_of(h()).scale(&zero).equals(&g2_of(G2Projective::ZERO)));
    assert!(gt_of(Bn254::pairing(g(), h())).scale(&zero).equals(&Gt::identity()));
}

#[test]
fn pairing_is_the_pairing_of_arkworks() {
    let p = g() * Fr::from(2u64);
    let q = h() * Fr::from(3u64);
    let value = e(&g1_of(p), &g2_of(q));
    assert!(value.equals(&gt_of(Bn254::pairing(p, q))));
    assert!(value.equals(&gt_of(Bn254::pairing(g(), h()) * Fr::from(6u64))));
    assert!(!value.equals(&gt_of(Bn254::pairing(g(), h()))));
}

#[test]
fn pairing_with_a_neutral_element_is_neutral() {
    let zero_g1 = g1_of(G1Projective::ZERO);
    let zero_g2 = g2_of(G2Projective::ZERO);
    assert!(e(&zero_g1, &g2_of(h())).equals(&Gt::identity()));
    assert!(e(&g1_of(g()), &zero_g2).equals(&Gt::identity()));
    assert!(e(&zero_g1, &zero_g2).equals(&Gt::identity()));
    assert!(g1_of(g()).add(&zero_g1).equals(&g1_of(g())));
    assert!(g2_of(h()).add(&zero_g2).equals(&g2_of(h())));
}

#[test]
fn identity_of_gt_is_one_followed_by_zeros() {
    let bytes = Gt::identity().to_bytes();
    assert_eq!(bytes.len(), 384);
    assert_eq!(bytes[0], 1);
    assert!(bytes[1..].iter().all(|b| *b == 0));
    assert_eq!(bytes.to_vec(), encode(&PairingOutput::<Bn254>::ZERO));
}

#[test]
fn identity_of_gt_is_neutral() {
    let x = gt_of(Bn254::pairing(g(), h()) * Fr::from(9u64));
    assert!(x.add(&Gt::identity()).equals(&x));
    assert!(Gt::identity().add(&x).equals(&x));
}

#[test]
fn second_encoding_of_infinity_decodes_to_the_canonical_one() {
    let mut bytes = [0u8; 32];
    bytes[0] = 5;
    bytes[31] = 0x40;
    let canonical = encode(&G1Projective::ZERO);
    assert_ne!(bytes.to_vec(), canonical);
    let decoded = G1::from_bytes(&bytes).unwrap();
    assert_eq!(decoded.to_bytes().to_vec(), canonical);

    let mut bytes = [0u8; 64];
    bytes[0] = 5;
    bytes[63] = 0x40;
    let canonical = encode(&G2Projective::ZERO);
    assert_ne!(bytes.to_vec(), canonical);
    let decoded = G2::from_bytes(&bytes).unwrap();
    assert_eq!(decoded.to_bytes().to_vec(), canonical);
}

#[test]
fn decoding_gives_the_element_back() {
    let p = g1_of(g() * Fr::from(77u64));
    assert!(G1::from_bytes(&p.to_bytes()).unwrap().equals(&p));
    let q = g2_of(h() * Fr::from(77u64));
    assert!(G2::from_bytes(&q.to_bytes()).unwrap().equals(&q));
    let t = gt_of(Bn254::pairing(g(), h()) * Fr::from(77u64));
    assert!(Gt::from_bytes(&t.to_bytes()).unwrap().equals(&t));
}

#[test]
fn encoding_of_the_wrong_length_is_refused() {
    let p = encode(&g());
    assert_eq!(G1::from_bytes(&p[..31]).err(), Some(Error::SerializationError));
    let mut longer = p.clone();
    longer.push(0);
    assert_eq!(G1::from_bytes(&longer).err(), Some(Error::SerializationError));
    assert_eq!(G1::from_bytes(&[]).err(), Some(Error::SerializationError));

    let q = encode(&h());
    assert_eq!(G2::from_bytes(&q[..63]).err(), Some(Error::SerializationError));
    let mut longer = q.clone();
    longer.push(0);
    assert_eq!(G2::from_bytes(&longer).err(), Some(Error::SerializationError));

    let t = encode(&Bn254::pairing(g(), h()));
    assert_eq!(Gt::from_bytes(&t[..383]).err(), Some(Error::SerializationError));
    let mut longer = t.clone();
    longer.push(0);
    assert_eq!(Gt::from_bytes(&longer).err(), Some(Error::SerializationError));
}

#[test]
fn bytes_that_encode_no_element_are_refused() {
    assert_eq!(G1::from_bytes(&[0xffu8; 32]).err(), Some(Error::SerializationError));
    assert_eq!(G2::from_bytes(&[0xffu8; 64]).err(), Some(Error::SerializationError));
    assert_eq!(Gt::from_bytes(&[0xffu8; 384]).err(), Some(Error::SerializationError));
}

#[test]
fn abscissa_decodes_exactly_when_it_is_on_the_curve() {
    let mut accepted = 0;
    let mut refused = 0;
    for x in 0u8..40 {
        let mut bytes = [0u8; 32];
        bytes[0] = x;
        let decoded = G1::from_bytes(&bytes);
        let on_curve =
            ark_bn254::G1Affine::get_point_from_x_unchecked(ark_bn254::Fq::from(x), false)
                .is_some();
        assert_eq!(decoded.is_ok(), on_curve);
        if on_curve {
            accepted += 1;
        } else {
            refused += 1;
            assert_eq!(decoded.err(), Some(Error::SerializationError));
        }
    }
    assert!(accepted > 0);
    assert!(refused > 0);
}

#[test]
fn field_element_outside_the_target_group_is_refused() {
    let two = Fq12::from(2u64);
    assert!(!two.pow(Fr::MODULUS).is_one());
    let bytes = encode(&two);
    assert_eq!(bytes.len(), 384);
    assert_eq!(Gt::from_bytes(&bytes).err(), Some(Error::SerializationError));
}

#[test]
fn equality_compares_the_elements() {
    let a = g1_of(g() * Fr::from(4u64));
    let b = g1_of(g() * Fr::from(2u64)).add(&g1_of(g() * Fr::from(2u64)));
    let c = g1_of(g() * Fr::from(5u64));
    assert!(a == b);
    assert!(a != c);
    assert!(a.equals(&b));
    assert!(!a.equals(&c));

    let a = g2_of(h() * Fr::from(4u64));
    let b = g2_of(h() * Fr::from(2u64)).add(&g2_of(h() * Fr::from(2u64)));
    let c = g2_of(h() * Fr::from(5u64));
    assert!(a == b);
    assert!(a != c);

    let base = Bn254::pairing(g(), h());
    let a = gt_of(base * Fr::from(4u64));
    let b = gt_of(base * Fr::from(2u64)).add(&gt_of(base * Fr::from(2u64)));
    let c = gt_of(base * Fr::from(5u64));
    assert!(a == b);
    assert!(a != c);
}

#[test]
fn elements_that_differ_in_the_last_byte_only_are_different() {
    let p = g() * Fr::from(4u64);
    let a = g1_of(p);
    let b = g1_of(-p);
    assert_eq!(a.to_bytes()[..31], b.to_bytes()[..31]);
    assert_ne!(a.to_bytes()[31], b.to_bytes()[31]);
    assert!(!a.equals(&b));
}

#[test]
fn scalar_of_small_integer() {
    assert_eq!(Scalar::from_u64(0).limbs(), [0, 0, 0, 0]);
    assert_eq!(Scalar::from_u64(7).limbs(), [7, 0, 0, 0]);
    assert_eq!(Scalar::from_u64(u64::MAX).limbs(), [u64::MAX, 0, 0, 0]);
    assert_eq!(scalar_of(Fr::from(7u64)).limbs(), [7, 0, 0, 0]);
}

#[test]
fn scalar_limbs_must_be_below_the_modulus() {
    let modulus: [u64; 4] = Fr::MODULUS.0;
    assert_eq!(
        modulus,
        [0x43e1f593f0000001, 0x2833e84879b97091, 0xb85045b68181585d, 0x30644e72e131a029]
    );
    assert!(Scalar::from_limbs(modulus).is_none());
    let mut below = modulus;
    below[0] -= 1;
    assert_eq!(Scalar::from_limbs(below).unwrap().limbs(), below);
    let mut above = modulus;
    above[0] += 1;
    assert!(Scalar::from_limbs(above).is_none());
    assert!(Scalar::from_limbs([u64::MAX; 4]).is_none());
    assert!(Scalar::from_limbs([0, 0, 0, 0x30644e72e131a02a]).is_none());
    assert!(Scalar::from_limbs([u64::MAX, u64::MAX, u64::MAX, 0x30644e72e131a028]).is_some());
    assert!(Scalar::from_limbs([u64::MAX, u64::MAX, 0xb85045b68181585c, 0x30644e72e131a029])
        .is_some());
    assert!(Scalar::from_limbs([0, 0, 0xb85045b68181585e, 0x30644e72e131a029]).is_none());
    assert!(Scalar::from_limbs([u64::MAX, 0x2833e84879b97090, 0xb85045b68181585d, 0x30644e72e131a029])
        .is_some());
    assert!(Scalar::from_limbs([0, 0x2833e84879b97092, 0xb85045b68181585d, 0x30644e72e131a029])
        .is_none());
    for limbs in [modulus, below, above, [u64::MAX; 4], [1, 2, 3, 4]] {
        assert_eq!(
            Scalar::from_limbs(limbs).is_some(),
            Fr::from_bigint(BigInt::new(limbs)).is_some()
        );
    }
}

#[test]
fn zero_is_the_only_scalar_that_is_zero() {
    assert!(Scalar::from_u64(0).is_zero());
    assert!(!Scalar::from_u64(1).is_zero());
    assert!(!Scalar::from_limbs([0, 1, 0, 0]).unwrap().is_zero());
    assert!(!Scalar::from_limbs([0, 0, 1, 0]).unwrap().is_zero());
    assert!(!Scalar::from_limbs([0, 0, 0, 1]).unwrap().is_zero());
}

#[test]
fn inverse_of_two_is_half_of_the_modulus_plus_one() {
    let half = Scalar::from_u64(2).inverse().unwrap();
    assert_eq!(
        half.limbs(),
        [0xa1f0fac9f8000001, 0x9419f4243cdcb848, 0xdc2822db40c0ac2e, 0x183227397098d014]
    );
    assert!(Scalar::from_u64(1).inverse().unwrap().equals(&Scalar::from_u64(1)));
}

#[test]
fn inverse_is_the_inverse_of_arkworks() {
    for x in [3u64, 7, 0xdead_beef, u64::MAX] {
        let inverse = Scalar::from_u64(x).inverse().unwrap();
        let expected = Fr::from(x).inverse().unwrap();
        assert_eq!(inverse.limbs(), expected.into_bigint().0);
        let product = expected * Fr::from(x);
        assert!(product.is_one());
        assert!(!inverse.equals(&Scalar::from_u64(x)));
    }
}

#[test]
fn zero_has_no_inverse() {
    assert!(Scalar::from_u64(0).inverse().is_none());
}

#[test]
fn scalars_compare_by_value() {
    assert!(Scalar::from_u64(5) == Scalar::from_limbs([5, 0, 0, 0]).unwrap());
    assert!(Scalar::from_u64(5) != Scalar::from_u64(6));
    assert!(Scalar::from_u64(5) != Scalar::from_limbs([5, 0, 0, 1]).unwrap());
}

#[test]
fn random_scalars_are_reduced_and_change() {
    let a = Scalar::random();
    let b = Scalar::random();
    assert!(Fr::from_bigint(BigInt::new(a.limbs())).is_some());
    assert!(Fr::from_bigint(BigInt::new(b.limbs())).is_some());
    assert!(!a.equals(&b));
}
