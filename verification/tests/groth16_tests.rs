use bls12_381::{G1Projective, G2Projective, Scalar};
use ff::{Field, PrimeField};
use group::{Curve, Group};
use rand::rngs::StdRng;
use rand::SeedableRng;

use groth16_verifier::groth16::{
    prepare_verifying_key, verify_proof, verify_proofs_batch, verify_proofs_batch_with_coeffs,
    PreparedVerifyingKey, Proof, SynthesisError, VerifyingKey,
};
use groth16_verifier::multiscalar::{par_multiscalar, precompute_fixed_window};

/// A verifying key whose `ic` points are `ic_sc[i] * G1`, together with the
/// exponents of all its elements, so proofs can be solved for exactly.
struct Instance {
    vk: VerifyingKey,
    alpha: Scalar,
    beta: Scalar,
    gamma: Scalar,
    delta: Scalar,
    ic_sc: Vec<Scalar>,
}

fn make_instance(num_inputs: usize, rng: &mut StdRng) -> Instance {
    let alpha = Scalar::random(&mut *rng);
    let beta = Scalar::random(&mut *rng);
    let gamma = Scalar::random(&mut *rng);
    let delta = Scalar::random(&mut *rng);
    let ic_sc: Vec<Scalar> = (0..num_inputs + 1).map(|_| Scalar::random(&mut *rng)).collect();
    let g1 = G1Projective::generator();
    let g2 = G2Projective::generator();
    let vk = VerifyingKey {
        alpha_g1: (g1 * alpha).to_affine(),
        beta_g2: (g2 * beta).to_affine(),
        gamma_g2: (g2 * gamma).to_affine(),
        delta_g2: (g2 * delta).to_affine(),
        ic: ic_sc.iter().map(|s| (g1 * s).to_affine()).collect(),
    };
    Instance { vk, alpha, beta, gamma, delta, ic_sc }
}

/// A proof for `inputs` that satisfies the Groth16 equation of `inst`:
/// `a` and `b` are random, `c` is solved from
/// `a*b = alpha*beta + acc*gamma + c*delta`.
fn make_proof(inst: &Instance, inputs: &[Scalar], rng: &mut StdRng) -> Proof {
    let a = Scalar::random(&mut *rng);
    let b = Scalar::random(&mut *rng);
    let mut acc = inst.ic_sc[0];
    for (i, x) in inputs.iter().enumerate() {
        acc += inst.ic_sc[i + 1] * x;
    }
    let c = (a * b - inst.alpha * inst.beta - acc * inst.gamma) * inst.delta.invert().unwrap();
    let g1 = G1Projective::generator();
    let g2 = G2Projective::generator();
    Proof {
        a: (g1 * a).to_affine(),
        b: (g2 * b).to_affine(),
        c: (g1 * c).to_affine(),
    }
}

fn valid_setup(num_inputs: usize, seed: u64) -> (PreparedVerifyingKey, Proof, Vec<Scalar>) {
    let mut rng = StdRng::seed_from_u64(seed);
    let inst = make_instance(num_inputs, &mut rng);
    let inputs: Vec<Scalar> = (0..num_inputs).map(|_| Scalar::random(&mut rng)).collect();
    let proof = make_proof(&inst, &inputs, &mut rng);
    (prepare_verifying_key(&inst.vk), proof, inputs)
}

#[test]
fn verify_valid_proof() {
    let (pvk, proof, inputs) = valid_setup(3, 1);
    assert_eq!(verify_proof(&pvk, &proof, &inputs), Ok(true));
}

#[test]
fn verify_valid_proof_without_inputs() {
    let (pvk, proof, inputs) = valid_setup(0, 2);
    assert!(inputs.is_empty());
    assert_eq!(verify_proof(&pvk, &proof, &inputs), Ok(true));
}

#[test]
fn reject_wrong_input_count() {
    let (pvk, proof, inputs) = valid_setup(3, 3);
    let short = inputs[..2].to_vec();
    assert_eq!(verify_proof(&pvk, &proof, &short), Err(SynthesisError::MalformedVerifyingKey));
    let mut long = inputs.clone();
    long.push(Scalar::from(7u64));
    assert_eq!(verify_proof(&pvk, &proof, &long), Err(SynthesisError::MalformedVerifyingKey));
}

#[test]
fn reject_tampered_proof_a() {
    let (pvk, proof, inputs) = valid_setup(2, 4);
    assert_eq!(verify_proof(&pvk, &proof, &inputs), Ok(true));
    // Perturb `a`: flip the lowest bit of its compressed encoding that still
    // decodes to a curve point; any change to `a` must be rejected.
    let mut tampered = None;
    let bytes = proof.a.to_compressed();
    'search: for byte in 32..48 {
        for bit in 0..8 {
            let mut copy = bytes;
            copy[byte] ^= 1u8 << bit;
            let decoded = bls12_381::G1Affine::from_compressed_unchecked(&copy);
            if decoded.is_some().into() {
                tampered = Some(decoded.unwrap());
                break 'search;
            }
        }
    }
    let tampered_point = tampered.expect("some single-bit flip decodes");
    assert_ne!(tampered_point, proof.a);
    let bad = Proof { a: tampered_point, ..proof };
    assert_eq!(verify_proof(&pvk, &bad, &inputs), Ok(false));
    // And an arithmetic perturbation as well.
    let shifted = (G1Projective::from(proof.a) + G1Projective::generator()).to_affine();
    let bad2 = Proof { a: shifted, ..proof };
    assert_eq!(verify_proof(&pvk, &bad2, &inputs), Ok(false));
}

#[test]
fn reject_wrong_inputs() {
    let (pvk, proof, mut inputs) = valid_setup(2, 5);
    inputs[0] += Scalar::from(1u64);
    assert_eq!(verify_proof(&pvk, &proof, &inputs), Ok(false));
}

#[test]
fn prepare_is_deterministic() {
    let mut rng = StdRng::seed_from_u64(6);
    let inst = make_instance(2, &mut rng);
    let inputs: Vec<Scalar> = (0..2).map(|_| Scalar::random(&mut rng)).collect();
    let proof = make_proof(&inst, &inputs, &mut rng);
    let p1 = prepare_verifying_key(&inst.vk);
    let p2 = prepare_verifying_key(&inst.vk);
    assert_eq!(p1.alpha_g1_beta_g2, p2.alpha_g1_beta_g2);
    assert_eq!(p1.ic, p2.ic);
    assert_eq!(verify_proof(&p1, &proof, &inputs), Ok(true));
    assert_eq!(verify_proof(&p2, &proof, &inputs), Ok(true));
    let shifted = (G1Projective::from(proof.a) + G1Projective::generator()).to_affine();
    let bad = Proof { a: shifted, ..proof };
    assert_eq!(verify_proof(&p1, &bad, &inputs), Ok(false));
    assert_eq!(verify_proof(&p2, &bad, &inputs), Ok(false));
}

fn batch_setup(
    num_inputs: usize,
    num_proofs: usize,
    seed: u64,
) -> (PreparedVerifyingKey, Vec<Proof>, Vec<Vec<Scalar>>) {
    let mut rng = StdRng::seed_from_u64(seed);
    let inst = make_instance(num_inputs, &mut rng);
    let mut proofs = Vec::new();
    let mut inputs_list = Vec::new();
    for _ in 0..num_proofs {
        let inputs: Vec<Scalar> = (0..num_inputs).map(|_| Scalar::random(&mut rng)).collect();
        proofs.push(make_proof(&inst, &inputs, &mut rng));
        inputs_list.push(inputs);
    }
    (prepare_verifying_key(&inst.vk), proofs, inputs_list)
}

#[test]
fn batch_accepts_valid_proofs() {
    let (pvk, proofs, inputs_list) = batch_setup(3, 4, 7);
    let mut rng = StdRng::seed_from_u64(100);
    assert_eq!(verify_proofs_batch(&pvk, &mut rng, &proofs, &inputs_list), Ok(true));
}

#[test]
fn batch_detects_one_invalid_proof() {
    let (pvk, mut proofs, inputs_list) = batch_setup(2, 3, 8);
    let shifted = (G1Projective::from(proofs[1].a) + G1Projective::generator()).to_affine();
    proofs[1] = Proof { a: shifted, ..proofs[1] };
    // Fresh randomness each trial: detection must hold with overwhelming
    // probability, so every trial is expected to reject.
    for trial in 0..8u64 {
        let mut rng = StdRng::seed_from_u64(200 + trial);
        assert_eq!(verify_proofs_batch(&pvk, &mut rng, &proofs, &inputs_list), Ok(false));
    }
}

#[test]
fn batch_rejects_wrong_input_count() {
    let (pvk, proofs, mut inputs_list) = batch_setup(3, 3, 9);
    inputs_list[2].pop();
    let mut rng = StdRng::seed_from_u64(300);
    assert_eq!(
        verify_proofs_batch(&pvk, &mut rng, &proofs, &inputs_list),
        Err(SynthesisError::MalformedVerifyingKey)
    );
}

#[test]
fn batch_of_zero_proofs_accepts() {
    // Pinned behavior of the edge case: an empty batch is a vacuous accept.
    let (pvk, _, _) = batch_setup(2, 1, 10);
    let proofs: Vec<Proof> = Vec::new();
    let inputs_list: Vec<Vec<Scalar>> = Vec::new();
    let mut rng = StdRng::seed_from_u64(400);
    assert_eq!(verify_proofs_batch(&pvk, &mut rng, &proofs, &inputs_list), Ok(true));
}

#[test]
fn batch_with_fixed_coeffs_is_deterministic() {
    let (pvk, proofs, inputs_list) = batch_setup(2, 3, 11);
    let coeffs: Vec<Scalar> = (0..3u64).map(|i| Scalar::from(1000 + i)).collect();
    let r1 = verify_proofs_batch_with_coeffs(&pvk, &coeffs, &proofs, &inputs_list);
    let r2 = verify_proofs_batch_with_coeffs(&pvk, &coeffs, &proofs, &inputs_list);
    assert_eq!(r1, Ok(true));
    assert_eq!(r1, r2);
}

#[test]
fn multiexp_matches_naive_sum() {
    let mut rng = StdRng::seed_from_u64(12);
    let g1 = G1Projective::generator();
    let points: Vec<bls12_381::G1Affine> =
        (0..5).map(|_| (g1 * Scalar::random(&mut rng)).to_affine()).collect();
    let scalars: Vec<Scalar> = (0..5).map(|_| Scalar::random(&mut rng)).collect();
    let reprs: Vec<[u8; 32]> = scalars.iter().map(|s| s.to_repr()).collect();
    let table = precompute_fixed_window(&points);
    let got = par_multiscalar(&table, 0, &reprs);
    let mut want = G1Projective::identity();
    for (p, s) in points.iter().zip(scalars.iter()) {
        want += p * s;
    }
    assert_eq!(got, want);
    // A subset evaluation against a row offset, as the verifier uses it.
    let got_tail = par_multiscalar(&table, 1, &reprs[1..].to_vec());
    let mut want_tail = G1Projective::identity();
    for (p, s) in points[1..].iter().zip(scalars[1..].iter()) {
        want_tail += p * s;
    }
    assert_eq!(got_tail, want_tail);
}

#[test]
fn multiexp_is_deterministic() {
    let mut rng = StdRng::seed_from_u64(13);
    let g1 = G1Projective::generator();
    let points: Vec<bls12_381::G1Affine> =
        (0..4).map(|_| (g1 * Scalar::random(&mut rng)).to_affine()).collect();
    let reprs: Vec<[u8; 32]> =
        (0..4).map(|_| Scalar::random(&mut rng).to_repr()).collect::<Vec<_>>();
    let table = precompute_fixed_window(&points);
    let r1 = par_multiscalar(&table, 0, &reprs);
    let r2 = par_multiscalar(&table, 0, &reprs);
    assert_eq!(r1, r2);
}

#[test]
fn multiexp_of_zero_scalars_is_identity() {
    let mut rng = StdRng::seed_from_u64(14);
    let g1 = G1Projective::generator();
    let points: Vec<bls12_381::G1Affine> =
        (0..3).map(|_| (g1 * Scalar::random(&mut rng)).to_affine()).collect();
    let reprs: Vec<[u8; 32]> = vec![[0u8; 32]; 3];
    let table = precompute_fixed_window(&points);
    assert_eq!(par_multiscalar(&table, 0, &reprs), G1Projective::identity());
}
