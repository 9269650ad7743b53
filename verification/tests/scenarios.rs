use ark_bn254::{Bn254, Fr, G1Projective, G2Projective};
use ark_ec::pairing::{Pairing, PairingOutput};
use ark_ec::PrimeGroup;
use ark_serialize::CanonicalSerialize;
use dory_scalar::commitment::{commit, Commitment};
use dory_scalar::curve::{Gt, G1, G2};
use dory_scalar::error::Error;
use dory_scalar::field::Scalar;
use dory_scalar::params::{PublicParams, SingleParam};
use dory_scalar::polynomial::{DensePolynomial, MultilinearPolynomial};
use dory_scalar::scalar_proof::ScalarProof;
use dory_scalar::transcript::{AppendToTranscript, TranscriptLog};
use dory_scalar::witness::Witness;

fn g1_of(p: G1Projective) -> G1 {
    let mut bytes = Vec::new();
    p.serialize_compressed(&mut bytes).unwrap();
    G1::from_bytes(&bytes).unwrap()
}

fn g2_of(p: G2Projective) -> G2 {
    let mut bytes = Vec::new();
    p.serialize_compressed(&mut bytes).unwrap();
    G2::from_bytes(&bytes).unwrap()
}

fn gt_of(p: PairingOutput<Bn254>) -> Gt {
    let mut bytes = Vec::new();
    p.serialize_compressed(&mut bytes).unwrap();
    Gt::from_bytes(&bytes).unwrap()
}

fn generator_g1() -> G1Projective {
    G1Projective::generator()
}

fn generator_g2() -> G2Projective {
    G2Projective::generator()
}

fn base_pairing() -> PairingOutput<Bn254> {
    Bn254::pairing(generator_g1(), generator_g2())
}

fn dense(values: &[u64]) -> MultilinearPolynomial {
    let evals: Vec<Scalar> = values.iter().map(|v| Scalar::from_u64(*v)).collect();
    MultilinearPolynomial::LargeScalars(DensePolynomial::new(evals))
}

fn base_params() -> PublicParams {
    PublicParams::new(vec![g1_of(generator_g1())], vec![g2_of(generator_g2())]).unwrap()
}

fn base_single() -> SingleParam {
    SingleParam::new(g1_of(generator_g1()), g2_of(generator_g2()))
}

fn nonzero_blinders() -> Vec<Scalar> {
    vec![
        Scalar::from_u64(1),
        Scalar::from_u64(2),
        Scalar::from_u64(0xdead_beef_0bad_cafe),
        Scalar::from_limbs([3, 5, 7, 11]).unwrap(),
    ]
}

#[test]
fn witness_of_seven_scales_both_generators() {
    let witness = Witness::new(&base_params(), &dense(&[7]));
    assert_eq!(witness.u1.len(), 1);
    assert_eq!(witness.u2.len(), 1);
    let seven = Fr::from(7u64);
    assert_eq!(witness.u1[0].to_bytes(), g1_of(generator_g1() * seven).to_bytes());
    assert_eq!(witness.u2[0].to_bytes(), g2_of(generator_g2() * seven).to_bytes());
}

#[test]
fn commitment_of_seven_is_forty_nine_and_seven_times_the_base_pairing() {
    let params = base_params();
    let witness = Witness::new(&params, &dense(&[7]));
    let commitment = commit(witness, &params).unwrap();
    let base = base_pairing();
    assert!(commitment.c.equals(&gt_of(base * Fr::from(49u64))));
    assert!(commitment.d1.equals(&gt_of(base * Fr::from(7u64))));
    assert!(commitment.d2.equals(&gt_of(base * Fr::from(7u64))));
}

#[test]
fn honest_proof_of_seven_verifies() {
    let params = base_params();
    let witness = Witness::new(&params, &dense(&[7]));
    let commitment = commit(witness.clone(), &params).unwrap();
    let proof = ScalarProof::new(witness);
    assert_eq!(proof.e1().to_bytes(), g1_of(generator_g1() * Fr::from(7u64)).to_bytes());
    assert_eq!(proof.e2().to_bytes(), g2_of(generator_g2() * Fr::from(7u64)).to_bytes());
    assert_eq!(proof.verify(&base_single(), &commitment), Ok(true));
    for d in nonzero_blinders() {
        assert_eq!(proof.verify_with_blinder(&base_single(), &commitment, &d), Ok(true));
    }
}

#[test]
fn proof_with_eight_g_in_place_of_seven_g_is_rejected() {
    let params = base_params();
    let witness = Witness::new(&params, &dense(&[7]));
    let commitment = commit(witness.clone(), &params).unwrap();
    let forged = Witness {
        u1: vec![g1_of(generator_g1() * Fr::from(8u64))],
        u2: witness.u2.clone(),
    };
    let proof = ScalarProof::new(forged);
    assert_eq!(proof.verify(&base_single(), &commitment), Ok(false));
    for d in nonzero_blinders() {
        assert_eq!(proof.verify_with_blinder(&base_single(), &commitment, &d), Ok(false));
    }
}

#[test]
fn commitment_with_six_in_place_of_seven_in_d1_is_rejected() {
    let params = base_params();
    let witness = Witness::new(&params, &dense(&[7]));
    let honest = commit(witness.clone(), &params).unwrap();
    let tampered = Commitment {
        c: honest.c,
        d1: gt_of(base_pairing() * Fr::from(6u64)),
        d2: honest.d2,
    };
    let proof = ScalarProof::new(witness);
    assert_eq!(proof.verify(&base_single(), &tampered), Ok(false));
    for d in nonzero_blinders() {
        assert_eq!(proof.verify_with_blinder(&base_single(), &tampered, &d), Ok(false));
    }
}

#[test]
fn proof_of_one_is_the_generators_and_verifies() {
    let params = base_params();
    let witness = Witness::new(&params, &dense(&[1]));
    let commitment = commit(witness.clone(), &params).unwrap();
    let proof = ScalarProof::new(witness);
    assert_eq!(proof.e1().to_bytes(), g1_of(generator_g1()).to_bytes());
    assert_eq!(proof.e2().to_bytes(), g2_of(generator_g2()).to_bytes());
    let single = SingleParam::from_parts(
        g1_of(generator_g1()),
        g2_of(generator_g2()),
        gt_of(base_pairing()),
    )
    .unwrap();
    assert_eq!(proof.verify(&single, &commitment), Ok(true));
    for d in nonzero_blinders() {
        assert_eq!(proof.verify_with_blinder(&single, &commitment, &d), Ok(true));
    }
}

#[test]
fn decoded_commitment_feeds_a_transcript_like_the_one_sent() {
    let params = base_params();
    let witness = Witness::new(&params, &dense(&[7]));
    let sent = commit(witness, &params).unwrap();
    let recovered = Commitment::from_bytes(&sent.to_bytes()).unwrap();
    let mut first = TranscriptLog::new();
    let mut second = TranscriptLog::new();
    sent.append_to_transcript(&mut first);
    recovered.append_to_transcript(&mut second);
    assert_eq!(first.log(), second.log());
    assert_eq!(first.log().len(), 3);
}

#[test]
fn zero_blinder_cannot_be_inverted() {
    let params = base_params();
    let witness = Witness::new(&params, &dense(&[7]));
    let commitment = commit(witness.clone(), &params).unwrap();
    let proof = ScalarProof::new(witness);
    let zero = Scalar::from_u64(0);
    assert_eq!(
        proof.verify_with_blinder(&base_single(), &commitment, &zero),
        Err(Error::CouldntInvertD)
    );
}
