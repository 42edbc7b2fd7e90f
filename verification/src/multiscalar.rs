//! Windowed multiscalar multiplication over a fixed base-point set.
//!
//! The engine has two phases. Precomputation builds, for every base point, the
//! table of its first `255` multiples, amortized across all later evaluations
//! on the same key. Evaluation scans the scalars' canonical 32-byte
//! representations one byte-sized window at a time, most significant first,
//! doubling the accumulator between windows and adding the table entry picked
//! by each scalar's digit. The result is pinned as a function of the table and
//! the scalars alone, so every evaluation of the same inputs yields the same
//! group element no matter how calls are scheduled.

use vstd::prelude::*;

use crate::algebra::g1_add_mixed;
use crate::algebra::g1_add_mixed_of;
use crate::algebra::g1_double;
use crate::algebra::g1_double_of;
use crate::algebra::g1_from_affine;
use crate::algebra::g1_from_affine_of;
use crate::algebra::g1_identity;
use crate::algebra::g1_identity_of;
use crate::algebra::g1_to_affine;
use crate::algebra::g1_to_affine_of;

verus! {

/// Width of one window in bits: digits are whole bytes of the representation.
pub const WINDOW_BITS: usize = 8;

/// Entries per base point: one for each nonzero window digit.
pub const TABLE_ENTRIES: usize = 255;

/// The `k`-th multiple of a base point, written as `k - 1` successive mixed
/// additions of the point onto its own projective form; meaningful for
/// `k >= 1`.
pub open spec fn g1_multiple(base: bls12_381::G1Affine, k: nat) -> bls12_381::G1Projective
    decreases k,
{
    if k <= 1 {
        g1_from_affine_of(base)
    } else {
        g1_add_mixed_of(g1_multiple(base, (k - 1) as nat), base)
    }
}

/// The precomputed window table of one base point: its multiples `1` to
/// `255`, in affine form.
pub open spec fn window_table_of(base: bls12_381::G1Affine) -> Seq<bls12_381::G1Affine> {
    Seq::new(TABLE_ENTRIES as nat, |k: int| g1_to_affine_of(g1_multiple(base, (k + 1) as nat)))
}

/// The views of a vector of table rows.
pub open spec fn tables_view(tables: Seq<Vec<bls12_381::G1Affine>>) -> Seq<Seq<bls12_381::G1Affine>> {
    tables.map_values(|row: Vec<bls12_381::G1Affine>| row@)
}

/// Whether `tables` holds exactly the window tables of `bases`.
pub open spec fn tables_match(
    tables: Seq<Seq<bls12_381::G1Affine>>,
    bases: Seq<bls12_381::G1Affine>,
) -> bool {
    &&& tables.len() == bases.len()
    &&& forall|i: int| 0 <= i < bases.len() ==> tables[i] == window_table_of(bases[i])
}

/// Fixed-window precomputation table over a base-point set.
pub struct MultiscalarTable {
    pub tables: Vec<Vec<bls12_381::G1Affine>>,
}

impl MultiscalarTable {
    /// The table was built from exactly these base points.
    pub open spec fn wf(self, bases: Seq<bls12_381::G1Affine>) -> bool {
        tables_match(tables_view(self.tables@), bases)
    }
}

/// Builds the fixed-window table of every point in `points`.
pub fn precompute_fixed_window(points: &Vec<bls12_381::G1Affine>) -> (r: MultiscalarTable)
    ensures
        r.wf(points@),
{
    let mut tables: Vec<Vec<bls12_381::G1Affine>> = Vec::new();
    let n = points.len();
    let mut i: usize = 0;
    while i < n
        invariant
            i <= n,
            n == points@.len(),
            tables@.len() == i,
            forall|j: int| 0 <= j < i ==> #[trigger] tables@[j]@ == window_table_of(points@[j]),
        decreases n - i,
    {
        let base = points[i];
        let mut row: Vec<bls12_381::G1Affine> = Vec::new();
        let mut acc = g1_from_affine(&base);
        row.push(g1_to_affine(&acc));
        let mut k: usize = 2;
        while k <= TABLE_ENTRIES
            invariant
                2 <= k <= TABLE_ENTRIES + 1,
                acc == g1_multiple(base, (k - 1) as nat),
                row@.len() == k - 1,
                forall|m: int| 0 <= m < k - 1 ==> row@[m] == g1_to_affine_of(
                    g1_multiple(base, (m + 1) as nat),
                ),
            decreases TABLE_ENTRIES + 1 - k,
        {
            acc = g1_add_mixed(&acc, &base);
            row.push(g1_to_affine(&acc));
            k = k + 1;
        }
        assert(row@ =~= window_table_of(base));
        tables.push(row);
        i = i + 1;
    }
    let r = MultiscalarTable { tables };
    assert forall|j: int| 0 <= j < points@.len() implies tables_view(r.tables@)[j]
        == window_table_of(points@[j]) by {
        assert(tables_view(r.tables@)[j] == r.tables@[j]@);
    }
    r
}

/// The views of a vector of 32-byte scalar representations.
pub open spec fn reprs_view(scalars: Seq<[u8; 32]>) -> Seq<Seq<u8>> {
    scalars.map_values(|a: [u8; 32]| a@)
}

/// `n` successive doublings of a point.
pub open spec fn double_n(p: bls12_381::G1Projective, n: nat) -> bls12_381::G1Projective
    decreases n,
{
    if n == 0 {
        p
    } else {
        g1_double_of(double_n(p, (n - 1) as nat))
    }
}

/// One window round restricted to the first `n` scalars: starting from `acc`,
/// adds, for each scalar whose digit at byte `byte` is nonzero, the matching
/// table entry.
pub open spec fn msm_row(
    acc: bls12_381::G1Projective,
    tables: Seq<Seq<bls12_381::G1Affine>>,
    scalars: Seq<Seq<u8>>,
    byte: int,
    n: int,
) -> bls12_381::G1Projective
    decreases n,
{
    if n <= 0 {
        acc
    } else {
        let prev = msm_row(acc, tables, scalars, byte, n - 1);
        let d = scalars[n - 1][byte];
        if d == 0 {
            prev
        } else {
            g1_add_mixed_of(prev, tables[n - 1][d - 1])
        }
    }
}

/// The accumulator after the first `rounds` window rounds, scanning bytes
/// from the most significant (index 31) down; each round doubles the
/// accumulator once per window bit and then adds one digit of every scalar.
pub open spec fn msm_rounds(
    tables: Seq<Seq<bls12_381::G1Affine>>,
    scalars: Seq<Seq<u8>>,
    rounds: int,
) -> bls12_381::G1Projective
    decreases rounds,
{
    if rounds <= 0 {
        g1_identity_of(0)
    } else {
        msm_row(
            double_n(msm_rounds(tables, scalars, rounds - 1), WINDOW_BITS as nat),
            tables,
            scalars,
            32 - rounds,
            scalars.len() as int,
        )
    }
}

/// The multiscalar multiplication of `scalars` against the base points whose
/// window tables are `tables`.
pub open spec fn msm_table_value(
    tables: Seq<Seq<bls12_381::G1Affine>>,
    scalars: Seq<Seq<u8>>,
) -> bls12_381::G1Projective {
    msm_rounds(tables, scalars, 32)
}

/// Evaluates the multiscalar multiplication of `scalars` against the
/// `scalars.len()` base points whose tables sit in `table` starting at row
/// `start`.
pub fn par_multiscalar(
    table: &MultiscalarTable,
    start: usize,
    scalars: &Vec<[u8; 32]>,
) -> (r: bls12_381::G1Projective)
    requires
        start + scalars@.len() <= table.tables@.len(),
        forall|i: int| start <= i < start + scalars@.len() ==> #[trigger] table.tables@[i]@.len()
            == TABLE_ENTRIES,
    ensures
        r == msm_table_value(
            tables_view(table.tables@).subrange(start as int, start + scalars@.len()),
            reprs_view(scalars@),
        ),
{
    let ghost sub = tables_view(table.tables@).subrange(start as int, start + scalars@.len());
    let ghost reprs = reprs_view(scalars@);
    let total = table.tables.len();
    let n = scalars.len();
    let mut acc = g1_identity();
    let mut round: usize = 0;
    while round < 32
        invariant
            round <= 32,
            n == scalars@.len(),
            total == table.tables@.len(),
            start + n <= total,
            sub == tables_view(table.tables@).subrange(start as int, start + scalars@.len()),
            reprs == reprs_view(scalars@),
            forall|i: int| start <= i < start + n ==> #[trigger] table.tables@[i]@.len()
                == TABLE_ENTRIES,
            acc == msm_rounds(sub, reprs, round as int),
        decreases 32 - round,
    {
        let mut d: usize = 0;
        let ghost acc_in = acc;
        while d < WINDOW_BITS
            invariant
                d <= WINDOW_BITS,
                acc == double_n(acc_in, d as nat),
            decreases WINDOW_BITS - d,
        {
            acc = g1_double(&acc);
            d = d + 1;
        }
        let byte: usize = 31 - round;
        let ghost shifted = acc;
        let mut i: usize = 0;
        while i < n
            invariant
                i <= n,
                n == scalars@.len(),
                total == table.tables@.len(),
                start + n <= total,
                sub == tables_view(table.tables@).subrange(start as int, start + scalars@.len()),
                reprs == reprs_view(scalars@),
                forall|j: int| start <= j < start + n ==> #[trigger] table.tables@[j]@.len()
                    == TABLE_ENTRIES,
                byte == 31 - round,
                round < 32,
                acc == msm_row(shifted, sub, reprs, byte as int, i as int),
            decreases n - i,
        {
            let digit = scalars[i][byte];
            if digit != 0 {
                let entry = &table.tables[start + i][(digit - 1) as usize];
                assert(sub[i as int][digit - 1] == tables_view(table.tables@)[start + i][digit
                    - 1]);
                acc = g1_add_mixed(&acc, entry);
            }
            i = i + 1;
        }
        round = round + 1;
        assert(32 - round as int == byte);
        assert(acc == msm_rounds(sub, reprs, round as int));
    }
    acc
}

/// The engine is purely functional: two evaluations of the same table and
/// scalars yield one and the same group element, so parallel scheduling can
/// change only the wall-clock cost of a multiscalar multiplication, never its
/// result.
pub proof fn lemma_multiexp_deterministic(
    tables: Seq<Seq<bls12_381::G1Affine>>,
    scalars: Seq<Seq<u8>>,
    r1: bls12_381::G1Projective,
    r2: bls12_381::G1Projective,
)
    requires
        r1 == msm_table_value(tables, scalars),
        r2 == msm_table_value(tables, scalars),
    ensures
        r1 == r2,
{
}

} // verus!
