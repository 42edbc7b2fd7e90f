//! Groth16 verification: key preparation, single-proof and batch checking.
//!
//! A proof `(a, b, c)` for public inputs `x` is valid when the pairing
//! equation `e(a, b) = e(alpha, beta) * e(acc, gamma) * e(c, delta)` holds,
//! with `acc = ic[0] + sum_i x_i * ic[i + 1]`. Preparation negates `gamma`
//! and `delta` once so that a verification needs one combined Miller loop and
//! a single final exponentiation. Batch verification folds `n` proofs into
//! one pairing check through a random linear combination with 128-bit
//! coefficients.

use vstd::prelude::*;

use crate::algebra::final_exp_of;
use crate::algebra::final_exponentiation;
use crate::algebra::g1_add;
use crate::algebra::g1_add_mixed;
use crate::algebra::g1_add_mixed_of;
use crate::algebra::g1_add_of;
use crate::algebra::g1_identity;
use crate::algebra::g1_identity_of;
use crate::algebra::g1_mul_scalar;
use crate::algebra::g1_mul_scalar_of;
use crate::algebra::g1_to_affine;
use crate::algebra::g1_to_affine_of;
use crate::algebra::g2_neg;
use crate::algebra::g2_neg_of;
use crate::algebra::g2_prepare;
use crate::algebra::g2_prepare_of;
use crate::algebra::gt_eq;
use crate::algebra::gt_eq_of;
use crate::algebra::gt_mul_scalar;
use crate::algebra::gt_mul_scalar_of;
use crate::algebra::miller_loop;
use crate::algebra::miller_loop_of;
use crate::algebra::pairing;
use crate::algebra::pairing_of;
use crate::algebra::rng_next_u64;
use crate::algebra::scalar_add;
use crate::algebra::scalar_add_of;
use crate::algebra::scalar_from_parts;
use crate::algebra::scalar_from_u64;
use crate::algebra::scalar_from_u64_of;
use crate::algebra::scalar_mul;
use crate::algebra::scalar_mul_of;
use crate::algebra::scalar_neg;
use crate::algebra::scalar_neg_of;
use crate::algebra::scalar_repr;
use crate::algebra::scalar_repr_of;
use crate::multiscalar::msm_table_value;
use crate::multiscalar::par_multiscalar;
use crate::multiscalar::precompute_fixed_window;
use crate::multiscalar::reprs_view;
use crate::multiscalar::tables_view;
use crate::multiscalar::window_table_of;
use crate::multiscalar::MultiscalarTable;
use crate::multiscalar::TABLE_ENTRIES;

verus! {

/// Verification failure that is reported to the caller rather than proved
/// impossible: the number of public inputs does not fit the verifying key.
#[derive(Clone, Copy, Debug, PartialEq, Eq, Structural)]
pub enum SynthesisError {
    MalformedVerifyingKey,
}

/// Public parameters of one circuit, produced by the trusted setup.
pub struct VerifyingKey {
    pub alpha_g1: bls12_381::G1Affine,
    pub beta_g2: bls12_381::G2Affine,
    pub gamma_g2: bls12_381::G2Affine,
    pub delta_g2: bls12_381::G2Affine,
    /// One more element than the circuit has public inputs; input `i`
    /// corresponds to `ic[i + 1]`.
    pub ic: Vec<bls12_381::G1Affine>,
}

/// The prover's claim: three group elements, checked against one key.
#[derive(Clone, Copy)]
pub struct Proof {
    pub a: bls12_381::G1Affine,
    pub b: bls12_381::G2Affine,
    pub c: bls12_381::G1Affine,
}

/// Verification parameters derived once from a [`VerifyingKey`] and reused,
/// read-only, across all later verifications.
pub struct PreparedVerifyingKey {
    /// `pairing(alpha_g1, beta_g2)`, the right-hand side of the equation.
    pub alpha_g1_beta_g2: bls12_381::Gt,
    pub neg_gamma_g2: bls12_381::G2Prepared,
    pub neg_delta_g2: bls12_381::G2Prepared,
    pub gamma_g2: bls12_381::G2Prepared,
    pub delta_g2: bls12_381::G2Prepared,
    pub ic: Vec<bls12_381::G1Affine>,
    /// Fixed-window table over `ic`, shared by all multiscalar evaluations.
    pub multiscalar: MultiscalarTable,
}

impl PreparedVerifyingKey {
    /// The multiscalar table belongs to this key's `ic` points.
    pub open spec fn wf(self) -> bool {
        self.multiscalar.wf(self.ic@)
    }
}

/// The canonical representations of a sequence of scalars.
pub open spec fn input_reprs(inputs: Seq<bls12_381::Scalar>) -> Seq<Seq<u8>> {
    inputs.map_values(|s: bls12_381::Scalar| scalar_repr_of(s))
}

/// The window tables of the input-bearing key elements `ic[1..]`.
pub open spec fn ic_msm_tables(ic: Seq<bls12_381::G1Affine>) -> Seq<Seq<bls12_381::G1Affine>> {
    ic.subrange(1, ic.len() as int).map_values(
        |b: bls12_381::G1Affine| window_table_of(b),
    )
}

/// The input accumulator `ic[0] + sum_i x_i * ic[i + 1]`, with the sum
/// evaluated by the windowed multiscalar engine.
pub open spec fn input_accumulator(
    ic: Seq<bls12_381::G1Affine>,
    inputs: Seq<bls12_381::Scalar>,
) -> bls12_381::G1Projective {
    g1_add_mixed_of(msm_table_value(ic_msm_tables(ic), input_reprs(inputs)), ic[0])
}

/// What a PreparedVerifyingKey derived from `vk` holds, field by field.
pub open spec fn prepared_from(vk: VerifyingKey, p: PreparedVerifyingKey) -> bool {
    &&& p.alpha_g1_beta_g2 == pairing_of(vk.alpha_g1, vk.beta_g2)
    &&& p.neg_gamma_g2 == g2_prepare_of(g2_neg_of(vk.gamma_g2))
    &&& p.neg_delta_g2 == g2_prepare_of(g2_neg_of(vk.delta_g2))
    &&& p.gamma_g2 == g2_prepare_of(vk.gamma_g2)
    &&& p.delta_g2 == g2_prepare_of(vk.delta_g2)
    &&& p.ic@ == vk.ic@
    &&& p.wf()
}

/// Derives the prepared verification parameters from a verifying key:
/// negates `gamma` and `delta`, precomputes their Miller-loop form, computes
/// `pairing(alpha, beta)` once, and builds the fixed-window multiscalar
/// table over `ic`. Deterministic and total.
pub fn prepare_verifying_key(vk: &VerifyingKey) -> (r: PreparedVerifyingKey)
    ensures
        prepared_from(*vk, r),
{
    let neg_gamma = g2_neg(&vk.gamma_g2);
    let neg_delta = g2_neg(&vk.delta_g2);
    let multiscalar = precompute_fixed_window(&vk.ic);
    let mut ic: Vec<bls12_381::G1Affine> = Vec::new();
    let n = vk.ic.len();
    let mut i: usize = 0;
    while i < n
        invariant
            i <= n,
            n == vk.ic@.len(),
            ic@ == vk.ic@.take(i as int),
        decreases n - i,
    {
        ic.push(vk.ic[i]);
        assert(ic@ =~= vk.ic@.take(i + 1));
        i = i + 1;
    }
    assert(ic@ =~= vk.ic@);
    PreparedVerifyingKey {
        alpha_g1_beta_g2: pairing(&vk.alpha_g1, &vk.beta_g2),
        neg_gamma_g2: g2_prepare(&neg_gamma),
        neg_delta_g2: g2_prepare(&neg_delta),
        gamma_g2: g2_prepare(&vk.gamma_g2),
        delta_g2: g2_prepare(&vk.delta_g2),
        ic,
        multiscalar,
    }
}

/// The boolean a single-proof verification computes once the input count
/// fits the key: whether the final exponentiation of the combined Miller
/// loop over `(a, b)`, `(c, -delta)` and `(acc, -gamma)` equals
/// `pairing(alpha, beta)`.
pub open spec fn proof_check_value(
    pvk: PreparedVerifyingKey,
    pf: Proof,
    inputs: Seq<bls12_381::Scalar>,
) -> bool {
    let acc_aff = g1_to_affine_of(input_accumulator(pvk.ic@, inputs));
    let terms = seq![
        (pf.a, g2_prepare_of(pf.b)),
        (pf.c, pvk.neg_delta_g2),
        (acc_aff, pvk.neg_gamma_g2),
    ];
    gt_eq_of(final_exp_of(miller_loop_of(terms)), pvk.alpha_g1_beta_g2)
}

/// The complete outcome of a single-proof verification:
/// `Err(MalformedVerifyingKey)` exactly on an input-count mismatch, else the
/// pairing-equation boolean.
pub open spec fn verify_outcome(
    pvk: PreparedVerifyingKey,
    pf: Proof,
    inputs: Seq<bls12_381::Scalar>,
) -> Result<bool, SynthesisError> {
    if inputs.len() + 1 != pvk.ic@.len() {
        Err(SynthesisError::MalformedVerifyingKey)
    } else {
        Ok(proof_check_value(pvk, pf, inputs))
    }
}

/// Checks one proof against the prepared key. Returns
/// `Err(MalformedVerifyingKey)` exactly when the number of public inputs
/// does not fit the key, before any cryptographic work; otherwise the
/// pairing-equation check of [`proof_check_value`].
pub fn verify_proof(
    pvk: &PreparedVerifyingKey,
    proof: &Proof,
    public_inputs: &Vec<bls12_381::Scalar>,
) -> (r: Result<bool, SynthesisError>)
    requires
        pvk.wf(),
    ensures
        r == verify_outcome(*pvk, *proof, public_inputs@),
        public_inputs@.len() + 1 != pvk.ic@.len() <==> r == Err::<bool, SynthesisError>(
            SynthesisError::MalformedVerifyingKey,
        ),
{
    if pvk.ic.len() == 0 || public_inputs.len() != pvk.ic.len() - 1 {
        return Err(SynthesisError::MalformedVerifyingKey);
    }
    let num = public_inputs.len();
    let mut reprs: Vec<[u8; 32]> = Vec::new();
    let mut i: usize = 0;
    while i < num
        invariant
            i <= num,
            num == public_inputs@.len(),
            reprs@.len() == i,
            forall|j: int| 0 <= j < i ==> #[trigger] reprs@[j]@ == scalar_repr_of(
                public_inputs@[j],
            ),
        decreases num - i,
    {
        reprs.push(scalar_repr(&public_inputs[i]));
        i = i + 1;
    }
    assert(reprs_view(reprs@) =~= input_reprs(public_inputs@));
    proof {
        lemma_ic_tables(*pvk);
    }
    let acc = par_multiscalar(&pvk.multiscalar, 1, &reprs);
    assert(tables_view(pvk.multiscalar.tables@).subrange(1, 1 + num as int) =~= ic_msm_tables(
        pvk.ic@,
    ));
    let acc = g1_add_mixed(&acc, &pvk.ic[0]);
    let acc_aff = g1_to_affine(&acc);
    let mut terms: Vec<(bls12_381::G1Affine, bls12_381::G2Prepared)> = Vec::new();
    terms.push((proof.a, g2_prepare(&proof.b)));
    terms.push((proof.c, pvk.neg_delta_g2.clone()));
    terms.push((acc_aff, pvk.neg_gamma_g2.clone()));
    assert(terms@ =~= seq![
        (proof.a, g2_prepare_of(proof.b)),
        (proof.c, pvk.neg_delta_g2),
        (g1_to_affine_of(input_accumulator(pvk.ic@, public_inputs@)), pvk.neg_gamma_g2),
    ]);
    let ml = miller_loop(&terms);
    let fe = final_exponentiation(&ml);
    Ok(gt_eq(&fe, &pvk.alpha_g1_beta_g2))
}

/// In a well-formed prepared key every input-bearing table row has the full
/// window-table length.
proof fn lemma_ic_tables(pvk: PreparedVerifyingKey)
    requires
        pvk.wf(),
        pvk.ic@.len() >= 1,
    ensures
        pvk.multiscalar.tables@.len() == pvk.ic@.len(),
        forall|i: int| 1 <= i < pvk.ic@.len() ==> #[trigger] pvk.multiscalar.tables@[i]@.len()
            == TABLE_ENTRIES,
{
    assert forall|i: int| 1 <= i < pvk.ic@.len() implies #[trigger] pvk.multiscalar.tables@[i]@.len()
        == TABLE_ENTRIES by {
        assert(tables_view(pvk.multiscalar.tables@)[i] == window_table_of(pvk.ic@[i]));
    }
}

/// Preparing a verifying key is deterministic: two preparations of one key
/// agree on every derived field, and therefore behave identically under
/// single-proof verification of any proof with any public inputs.
pub proof fn lemma_prepare_deterministic(
    vk: VerifyingKey,
    p1: PreparedVerifyingKey,
    p2: PreparedVerifyingKey,
    pf: Proof,
    inputs: Seq<bls12_381::Scalar>,
)
    requires
        prepared_from(vk, p1),
        prepared_from(vk, p2),
    ensures
        p1.alpha_g1_beta_g2 == p2.alpha_g1_beta_g2,
        p1.neg_gamma_g2 == p2.neg_gamma_g2,
        p1.neg_delta_g2 == p2.neg_delta_g2,
        p1.gamma_g2 == p2.gamma_g2,
        p1.delta_g2 == p2.delta_g2,
        p1.ic@ == p2.ic@,
        proof_check_value(p1, pf, inputs) == proof_check_value(p2, pf, inputs),
        verify_outcome(p1, pf, inputs) == verify_outcome(p2, pf, inputs),
{
    assert(proof_check_value(p1, pf, inputs) == proof_check_value(p2, pf, inputs)) by {
        assert(seq![
            (pf.a, g2_prepare_of(pf.b)),
            (pf.c, p1.neg_delta_g2),
            (g1_to_affine_of(input_accumulator(p1.ic@, inputs)), p1.neg_gamma_g2),
        ] =~= seq![
            (pf.a, g2_prepare_of(pf.b)),
            (pf.c, p2.neg_delta_g2),
            (g1_to_affine_of(input_accumulator(p2.ic@, inputs)), p2.neg_gamma_g2),
        ]);
    }
}

/// The sum of the random combination coefficients, folded left to right
/// from zero.
pub open spec fn scalar_sum(coeffs: Seq<bls12_381::Scalar>) -> bls12_381::Scalar
    decreases coeffs.len(),
{
    if coeffs.len() == 0 {
        scalar_from_u64_of(0)
    } else {
        scalar_add_of(scalar_sum(coeffs.drop_last()), coeffs.last())
    }
}

/// The combination `sum_{j < n} coeffs[j] * inputs[j][i]` of public input
/// `i` across the first `n` proofs.
pub open spec fn combined_input_upto(
    coeffs: Seq<bls12_381::Scalar>,
    inputs: Seq<Seq<bls12_381::Scalar>>,
    i: int,
    n: int,
) -> bls12_381::Scalar
    decreases n,
{
    if n <= 0 {
        scalar_from_u64_of(0)
    } else {
        scalar_add_of(
            combined_input_upto(coeffs, inputs, i, n - 1),
            scalar_mul_of(coeffs[n - 1], inputs[n - 1][i]),
        )
    }
}

/// One combined scalar per public-input index.
pub open spec fn combined_inputs(
    coeffs: Seq<bls12_381::Scalar>,
    inputs: Seq<Seq<bls12_381::Scalar>>,
    m: int,
) -> Seq<bls12_381::Scalar> {
    Seq::new(m as nat, |i: int| combined_input_upto(coeffs, inputs, i, coeffs.len() as int))
}

/// The accumulated `sum_{j < n} coeffs[j] * proofs[j].c`.
pub open spec fn acc_delta_upto(
    coeffs: Seq<bls12_381::Scalar>,
    proofs: Seq<Proof>,
    n: int,
) -> bls12_381::G1Projective
    decreases n,
{
    if n <= 0 {
        g1_identity_of(0)
    } else {
        g1_add_of(
            acc_delta_upto(coeffs, proofs, n - 1),
            g1_mul_scalar_of(proofs[n - 1].c, coeffs[n - 1]),
        )
    }
}

/// The Miller-loop term of one proof in the batch:
/// `(coeff * a, -b prepared)`.
pub open spec fn batch_pair(coeff: bls12_381::Scalar, pf: Proof) -> (
    bls12_381::G1Affine,
    bls12_381::G2Prepared,
) {
    (g1_to_affine_of(g1_mul_scalar_of(pf.a, coeff)), g2_prepare_of(g2_neg_of(pf.b)))
}

/// The views of a vector of public-input vectors.
pub open spec fn inputs_view(inputs: Seq<Vec<bls12_381::Scalar>>) -> Seq<Seq<bls12_381::Scalar>> {
    inputs.map_values(|v: Vec<bls12_381::Scalar>| v@)
}

/// The boolean a batch verification computes from the drawn coefficients:
/// one combined Miller loop over the per-proof terms, the accumulated
/// `delta` term and the accumulated input term, compared after one final
/// exponentiation against `pairing(alpha, beta)` raised to the negated
/// coefficient sum.
pub open spec fn batch_check_value(
    pvk: PreparedVerifyingKey,
    coeffs: Seq<bls12_381::Scalar>,
    proofs: Seq<Proof>,
    inputs: Seq<Seq<bls12_381::Scalar>>,
) -> bool {
    let n = coeffs.len() as int;
    let sum_r = scalar_sum(coeffs);
    let pi = combined_inputs(coeffs, inputs, pvk.ic@.len() - 1);
    let acc_pi = g1_add_of(
        g1_mul_scalar_of(pvk.ic@[0], sum_r),
        msm_table_value(ic_msm_tables(pvk.ic@), input_reprs(pi)),
    );
    let acc_y = gt_mul_scalar_of(pvk.alpha_g1_beta_g2, scalar_neg_of(sum_r));
    let terms = Seq::new(n as nat, |j: int| batch_pair(coeffs[j], proofs[j])) + seq![
        (g1_to_affine_of(acc_delta_upto(coeffs, proofs, n)), pvk.delta_g2),
        (g1_to_affine_of(acc_pi), pvk.gamma_g2),
    ];
    gt_eq_of(final_exp_of(miller_loop_of(terms)), acc_y)
}

/// The complete outcome of a batch verification under given coefficients:
/// `Err(MalformedVerifyingKey)` exactly when some proof's input count does
/// not fit the key, else the randomized combined pairing check.
pub open spec fn batch_outcome(
    pvk: PreparedVerifyingKey,
    coeffs: Seq<bls12_381::Scalar>,
    proofs: Seq<Proof>,
    inputs: Seq<Seq<bls12_381::Scalar>>,
) -> Result<bool, SynthesisError> {
    if exists|j: int| 0 <= j < inputs.len() && #[trigger] inputs[j].len() + 1 != pvk.ic@.len() {
        Err(SynthesisError::MalformedVerifyingKey)
    } else {
        Ok(batch_check_value(pvk, coeffs, proofs, inputs))
    }
}

/// The deterministic core of batch verification: checks `proofs` against
/// `public_inputs` under already-drawn combination coefficients. Returns
/// `Err(MalformedVerifyingKey)` exactly when some proof's input count does
/// not fit the key, before any cryptographic work; otherwise the randomized
/// pairing check of [`batch_check_value`].
pub fn verify_proofs_batch_with_coeffs(
    pvk: &PreparedVerifyingKey,
    coeffs: &Vec<bls12_381::Scalar>,
    proofs: &Vec<Proof>,
    public_inputs: &Vec<Vec<bls12_381::Scalar>>,
) -> (r: Result<bool, SynthesisError>)
    requires
        pvk.wf(),
        pvk.ic@.len() >= 1,
        coeffs@.len() == proofs@.len(),
        public_inputs@.len() == proofs@.len(),
    ensures
        r == batch_outcome(*pvk, coeffs@, proofs@, inputs_view(public_inputs@)),
        (exists|j: int|
            0 <= j < public_inputs@.len() && #[trigger] public_inputs@[j]@.len() + 1
                != pvk.ic@.len()) <==> r == Err::<bool, SynthesisError>(
            SynthesisError::MalformedVerifyingKey,
        ),
{
    let pi_num = pvk.ic.len() - 1;
    let n = proofs.len();
    let mut j: usize = 0;
    while j < n
        invariant
            j <= n,
            n == public_inputs@.len(),
            pi_num + 1 == pvk.ic@.len(),
            forall|k: int| 0 <= k < j ==> #[trigger] public_inputs@[k]@.len() == pi_num,
        decreases n - j,
    {
        if public_inputs[j].len() != pi_num {
            assert(inputs_view(public_inputs@)[j as int].len() + 1 != pvk.ic@.len());
            return Err(SynthesisError::MalformedVerifyingKey);
        }
        j = j + 1;
    }
    let ghost iviews = inputs_view(public_inputs@);
    assert(forall|k: int| 0 <= k < iviews.len() ==> #[trigger] iviews[k].len() + 1 == pvk.ic@.len());

    // sum of the coefficients
    let mut sum_r = scalar_from_u64(0);
    let mut j: usize = 0;
    while j < n
        invariant
            j <= n,
            n == coeffs@.len(),
            sum_r == scalar_sum(coeffs@.take(j as int)),
        decreases n - j,
    {
        sum_r = scalar_add(&sum_r, &coeffs[j]);
        assert(coeffs@.take(j + 1).drop_last() =~= coeffs@.take(j as int));
        j = j + 1;
    }
    assert(coeffs@.take(n as int) =~= coeffs@);

    // combined scalar for every public-input index
    let mut pi: Vec<bls12_381::Scalar> = Vec::new();
    let mut i: usize = 0;
    while i < pi_num
        invariant
            i <= pi_num,
            n == coeffs@.len(),
            n == proofs@.len(),
            n == public_inputs@.len(),
            iviews == inputs_view(public_inputs@),
            forall|k: int| 0 <= k < n ==> #[trigger] public_inputs@[k]@.len() == pi_num,
            pi@.len() == i,
            forall|k: int| 0 <= k < i ==> #[trigger] pi@[k] == combined_input_upto(
                coeffs@,
                iviews,
                k,
                n as int,
            ),
        decreases pi_num - i,
    {
        let mut acc = scalar_from_u64(0);
        let mut j: usize = 0;
        while j < n
            invariant
                j <= n,
                i < pi_num,
                n == coeffs@.len(),
                n == public_inputs@.len(),
                iviews == inputs_view(public_inputs@),
                forall|k: int| 0 <= k < n ==> #[trigger] public_inputs@[k]@.len() == pi_num,
                acc == combined_input_upto(coeffs@, iviews, i as int, j as int),
            decreases n - j,
        {
            let term = scalar_mul(&coeffs[j], &public_inputs[j][i]);
            acc = scalar_add(&acc, &term);
            j = j + 1;
        }
        pi.push(acc);
        i = i + 1;
    }
    assert(pi@ =~= combined_inputs(coeffs@, iviews, pi_num as int));

    // representations of the combined scalars, for the multiscalar engine
    let mut pi_reprs: Vec<[u8; 32]> = Vec::new();
    let mut i: usize = 0;
    while i < pi_num
        invariant
            i <= pi_num,
            pi@.len() == pi_num,
            pi_reprs@.len() == i,
            forall|k: int| 0 <= k < i ==> #[trigger] pi_reprs@[k]@ == scalar_repr_of(pi@[k]),
        decreases pi_num - i,
    {
        pi_reprs.push(scalar_repr(&pi[i]));
        i = i + 1;
    }
    assert(reprs_view(pi_reprs@) =~= input_reprs(pi@));

    proof {
        lemma_ic_tables(*pvk);
    }
    let msm = par_multiscalar(&pvk.multiscalar, 1, &pi_reprs);
    assert(tables_view(pvk.multiscalar.tables@).subrange(1, 1 + pi_num as int) =~= ic_msm_tables(
        pvk.ic@,
    ));
    let ic0_term = g1_mul_scalar(&pvk.ic[0], &sum_r);
    let acc_pi = g1_add(&ic0_term, &msm);

    let neg_sum = scalar_neg(&sum_r);
    let acc_y = gt_mul_scalar(&pvk.alpha_g1_beta_g2, &neg_sum);

    // accumulated delta term
    let mut acc_c = g1_identity();
    let mut j: usize = 0;
    while j < n
        invariant
            j <= n,
            n == coeffs@.len(),
            n == proofs@.len(),
            acc_c == acc_delta_upto(coeffs@, proofs@, j as int),
        decreases n - j,
    {
        let term = g1_mul_scalar(&proofs[j].c, &coeffs[j]);
        acc_c = g1_add(&acc_c, &term);
        j = j + 1;
    }

    // per-proof Miller-loop terms, then the two accumulated terms
    let mut terms: Vec<(bls12_381::G1Affine, bls12_381::G2Prepared)> = Vec::new();
    let mut j: usize = 0;
    while j < n
        invariant
            j <= n,
            n == coeffs@.len(),
            n == proofs@.len(),
            terms@.len() == j,
            forall|k: int| 0 <= k < j ==> #[trigger] terms@[k] == batch_pair(
                coeffs@[k],
                proofs@[k],
            ),
        decreases n - j,
    {
        let ra = g1_mul_scalar(&proofs[j].a, &coeffs[j]);
        let nb = g2_neg(&proofs[j].b);
        terms.push((g1_to_affine(&ra), g2_prepare(&nb)));
        j = j + 1;
    }
    terms.push((g1_to_affine(&acc_c), pvk.delta_g2.clone()));
    terms.push((g1_to_affine(&acc_pi), pvk.gamma_g2.clone()));
    assert(terms@ =~= Seq::new(n as nat, |k: int| batch_pair(coeffs@[k], proofs@[k])) + seq![
        (g1_to_affine_of(acc_delta_upto(coeffs@, proofs@, n as int)), pvk.delta_g2),
        (
            g1_to_affine_of(
                g1_add_of(
                    g1_mul_scalar_of(pvk.ic@[0], scalar_sum(coeffs@)),
                    msm_table_value(
                        ic_msm_tables(pvk.ic@),
                        input_reprs(combined_inputs(coeffs@, iviews, pvk.ic@.len() - 1)),
                    ),
                ),
            ),
            pvk.gamma_g2,
        ),
    ]);
    let ml = miller_loop(&terms);
    let fe = final_exponentiation(&ml);
    Ok(gt_eq(&fe, &acc_y))
}

/// Verifies a batch of proofs with `O(1)` pairings: draws one independent
/// 128-bit random coefficient per proof from `rng`, embeds each into the
/// scalar field, and runs the deterministic combined check of
/// [`verify_proofs_batch_with_coeffs`]. Structural validation of every
/// proof's input count happens first, before any randomness is drawn;
/// `Err(MalformedVerifyingKey)` is returned exactly on a mismatch. A batch
/// of zero proofs reduces to a vacuous pairing identity.
pub fn verify_proofs_batch(
    pvk: &PreparedVerifyingKey,
    rng: &mut rand::rngs::StdRng,
    proofs: &Vec<Proof>,
    public_inputs: &Vec<Vec<bls12_381::Scalar>>,
) -> (r: Result<bool, SynthesisError>)
    requires
        pvk.wf(),
        pvk.ic@.len() >= 1,
        public_inputs@.len() == proofs@.len(),
    ensures
        (exists|j: int|
            0 <= j < public_inputs@.len() && #[trigger] public_inputs@[j]@.len() + 1
                != pvk.ic@.len()) <==> r == Err::<bool, SynthesisError>(
            SynthesisError::MalformedVerifyingKey,
        ),
        exists|coeffs: Seq<bls12_381::Scalar>| coeffs.len() == proofs@.len() && r
            == #[trigger] batch_outcome(*pvk, coeffs, proofs@, inputs_view(public_inputs@)),
{
    let pi_num = pvk.ic.len() - 1;
    let n = proofs.len();
    let mut j: usize = 0;
    while j < n
        invariant
            j <= n,
            n == public_inputs@.len(),
            pi_num + 1 == pvk.ic@.len(),
            forall|k: int| 0 <= k < j ==> #[trigger] public_inputs@[k]@.len() == pi_num,
        decreases n - j,
    {
        if public_inputs[j].len() != pi_num {
            proof {
                let w = Seq::new(proofs@.len(), |i: int| scalar_from_u64_of(0));
                assert(inputs_view(public_inputs@)[j as int].len() + 1 != pvk.ic@.len());
                assert(Err::<bool, SynthesisError>(SynthesisError::MalformedVerifyingKey)
                    == batch_outcome(*pvk, w, proofs@, inputs_view(public_inputs@)));
            }
            return Err(SynthesisError::MalformedVerifyingKey);
        }
        j = j + 1;
    }
    let mut coeffs: Vec<bls12_381::Scalar> = Vec::new();
    let mut j: usize = 0;
    while j < n
        invariant
            j <= n,
            coeffs@.len() == j,
        decreases n - j,
    {
        let lo = rng_next_u64(rng);
        let hi = rng_next_u64(rng);
        coeffs.push(scalar_from_parts(lo, hi));
        j = j + 1;
    }
    let r = verify_proofs_batch_with_coeffs(pvk, &coeffs, proofs, public_inputs);
    proof {
        assert(r == batch_outcome(*pvk, coeffs@, proofs@, inputs_view(public_inputs@)));
    }
    r
}

} // verus!
