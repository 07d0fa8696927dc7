//! Runs the verifier against a software BN254 provider built on arkworks,
//! with a proof that satisfies the Groth16 equation by construction.

use ark_bn254::{Bn254, Fq, Fq2, Fr, G1Affine, G2Affine};
use ark_ec::pairing::Pairing;
use ark_ec::{AffineRepr, CurveGroup};
use ark_ff::{BigInteger, Field, PrimeField, Zero};
use groth16_bn254::bn254::{group_op_output_buffer, group_op_result};
use groth16_bn254::groth16::{Groth16Verifier, Proof, Request, VerifyingKey};
use groth16_bn254::{GroupOp, Groth16Error};

fn fq_bytes(v: &Fq) -> Vec<u8> {
    let mut b = v.into_bigint().to_bytes_be();
    while b.len() < 32 {
        b.insert(0, 0);
    }
    b
}

fn fq_from(b: &[u8]) -> Option<Fq> {
    let v = Fq::from_be_bytes_mod_order(b);
    if fq_bytes(&v) == b {
        Some(v)
    } else {
        None
    }
}

fn encode_g1(p: &G1Affine) -> [u8; 64] {
    let mut out = [0u8; 64];
    if let Some((x, y)) = p.xy() {
        out[..32].copy_from_slice(&fq_bytes(&x));
        out[32..].copy_from_slice(&fq_bytes(&y));
    }
    out
}

fn decode_g1(b: &[u8]) -> Option<G1Affine> {
    if b.iter().all(|&v| v == 0) {
        return Some(G1Affine::identity());
    }
    let p = G1Affine::new_unchecked(fq_from(&b[..32])?, fq_from(&b[32..64])?);
    if p.is_on_curve() {
        Some(p)
    } else {
        None
    }
}

fn encode_g2(p: &G2Affine) -> [u8; 128] {
    let mut out = [0u8; 128];
    if let Some((x, y)) = p.xy() {
        out[..32].copy_from_slice(&fq_bytes(&x.c1));
        out[32..64].copy_from_slice(&fq_bytes(&x.c0));
        out[64..96].copy_from_slice(&fq_bytes(&y.c1));
        out[96..].copy_from_slice(&fq_bytes(&y.c0));
    }
    out
}

fn decode_g2(b: &[u8]) -> Option<G2Affine> {
    if b.iter().all(|&v| v == 0) {
        return Some(G2Affine::identity());
    }
    let x = Fq2::new(fq_from(&b[32..64])?, fq_from(&b[..32])?);
    let y = Fq2::new(fq_from(&b[96..])?, fq_from(&b[64..96])?);
    let p = G2Affine::new_unchecked(x, y);
    if p.is_on_curve() && p.is_in_correct_subgroup_assuming_on_curve() {
        Some(p)
    } else {
        None
    }
}

/// Status and output of one group operation, as the host would give them.
fn software_group_op(op: GroupOp, input: &[u8], output: &mut [u8]) -> u64 {
    let result: Option<Vec<u8>> = match op {
        GroupOp::Addition => {
            let mut padded = input.to_vec();
            padded.resize(128, 0);
            decode_g1(&padded[..64]).and_then(|p| {
                decode_g1(&padded[64..]).map(|q| encode_g1(&(p + q).into_affine()).to_vec())
            })
        }
        GroupOp::Multiplication => {
            let mut padded = input.to_vec();
            padded.resize(96, 0);
            let s = Fr::from_be_bytes_mod_order(&padded[64..]);
            decode_g1(&padded[..64]).map(|p| encode_g1(&(p * s).into_affine()).to_vec())
        }
        GroupOp::Pairing => {
            let mut g1s = Vec::new();
            let mut g2s = Vec::new();
            let mut ok = true;
            for pair in input.chunks(192) {
                match (decode_g1(&pair[..64]), decode_g2(&pair[64..])) {
                    (Some(a), Some(b)) => {
                        g1s.push(a);
                        g2s.push(b);
                    }
                    _ => ok = false,
                }
            }
            if ok {
                let mut flag = vec![0u8; 32];
                if Bn254::multi_pairing(g1s, g2s).is_zero() {
                    flag[31] = 1;
                }
                Some(flag)
            } else {
                None
            }
        }
    };
    match result {
        Some(bytes) => {
            output.copy_from_slice(&bytes);
            0
        }
        None => 1,
    }
}

fn run(vk: VerifyingKey, a: &[u8], b: &[u8], c: &[u8], inputs: Vec<[u8; 32]>) -> Result<(), Groth16Error> {
    let proof = Proof::from_slices(a, b, c)?;
    let mut v = Groth16Verifier::new(vk, proof, inputs)?;
    loop {
        match v.request() {
            Request::Done(outcome) => return outcome,
            Request::Call { op, input } => {
                let mut output = group_op_output_buffer(op, &input)?;
                let status = software_group_op(op, &input, &mut output);
                // the library's own mapping of the status, checked on the way
                if status != 0 {
                    assert_eq!(group_op_result(op, status, output.clone()), Err(op.failure()));
                }
                v.deliver(status, output);
            }
        }
    }
}

fn g1(k: u64) -> G1Affine {
    (G1Affine::generator() * Fr::from(k)).into_affine()
}

fn g2(k: u64) -> G2Affine {
    (G2Affine::generator() * Fr::from(k)).into_affine()
}

fn scalar(k: u64) -> [u8; 32] {
    let mut b = Fr::from(k).into_bigint().to_bytes_be();
    while b.len() < 32 {
        b.insert(0, 0);
    }
    b.try_into().unwrap()
}

fn test_key() -> VerifyingKey {
    VerifyingKey {
        alpha_g1: encode_g1(&g1(5)),
        beta_g2: encode_g2(&g2(7)),
        gamma_g2: encode_g2(&g2(11)),
        delta_g2: encode_g2(&g2(13)),
        ic: vec![encode_g1(&g1(17)), encode_g1(&g1(19)), encode_g1(&g1(23))],
    }
}

/// A, B, C with e(A, B) = e(α, β)·e(prepared, γ)·e(C, δ) for inputs 3 and 4.
fn valid_proof() -> ([u8; 64], [u8; 128], [u8; 64], Vec<[u8; 32]>) {
    let (a, b) = (Fr::from(29u64), Fr::from(31u64));
    let prepared = Fr::from(17u64 + 19 * 3 + 23 * 4);
    let c = (a * b - Fr::from(5u64 * 7) - prepared * Fr::from(11u64))
        * Fr::from(13u64).inverse().unwrap();
    let pa = (G1Affine::generator() * a).into_affine();
    let pb = (G2Affine::generator() * b).into_affine();
    let pc = (G1Affine::generator() * c).into_affine();
    (encode_g1(&pa), encode_g2(&pb), encode_g1(&pc), vec![scalar(3), scalar(4)])
}

#[test]
fn valid_proof_is_accepted() {
    let (a, b, c, inputs) = valid_proof();
    assert_eq!(run(test_key(), &a, &b, &c, inputs), Ok(()));
}

#[test]
fn flipped_bit_in_proof_is_rejected() {
    let (a, b, c, inputs) = valid_proof();
    for bit in [0usize, 7, 100, 255, 256, 300, 511] {
        let mut fa = a;
        fa[bit / 8] ^= 1 << (bit % 8);
        assert_eq!(
            run(test_key(), &fa, &b, &c, inputs.clone()),
            Err(Groth16Error::ProofVerificationFailed)
        );
        let mut fc = c;
        fc[bit / 8] ^= 1 << (bit % 8);
        assert_eq!(
            run(test_key(), &a, &b, &fc, inputs.clone()),
            Err(Groth16Error::ProofVerificationFailed)
        );
    }
    for bit in [0usize, 9, 300, 600, 1023] {
        let mut fb = b;
        fb[bit / 8] ^= 1 << (bit % 8);
        assert_eq!(
            run(test_key(), &a, &fb, &c, inputs.clone()),
            Err(Groth16Error::ProofVerificationFailed)
        );
    }
}

#[test]
fn reordered_inputs_are_rejected() {
    let (a, b, c, _) = valid_proof();
    assert_eq!(
        run(test_key(), &a, &b, &c, vec![scalar(4), scalar(3)]),
        Err(Groth16Error::ProofVerificationFailed)
    );
}

#[test]
fn wrong_input_count_is_refused_before_any_call() {
    let (a, b, c, _) = valid_proof();
    assert_eq!(
        run(test_key(), &a, &b, &c, vec![scalar(3)]),
        Err(Groth16Error::IncompatibleVerifyingKeyWithNrPublicInputs)
    );
}
