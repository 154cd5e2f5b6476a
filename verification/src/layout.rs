//! Stretch layout: when fewer candles than data columns are visible, each
//! candle gets `columns / count` columns and the remaining columns become
//! single-column gaps spread as evenly as possible between candles.
use vstd::prelude::*;

verus! {

/// How many of the first `n` gap slots carry an extra blank column.
pub open spec fn marked_count(gaps: Seq<bool>, n: int) -> int
    recommends 0 <= n <= gaps.len(),
    decreases n,
{
    if n <= 0 {
        0
    } else {
        marked_count(gaps, n - 1) + if gaps[n - 1] { 1int } else { 0int }
    }
}

/// Whether gap slot `j` carries an extra blank column when `extra` extra
/// columns are spread over `count` candles: the slot is marked exactly where
/// the cumulative share `(j + 2) * extra / count` steps past
/// `(j + 1) * extra / count`, which spaces the marked slots evenly (no slot
/// carries two, and any two prefixes differ by at most their share).
pub open spec fn gap_marked(count: int, extra: int, j: int) -> bool {
    (j + 2) * extra / count > (j + 1) * extra / count
}

/// Computes the per-candle width and the gap marking for stretch layout.
/// Gap slot `j` sits after candle `j`; the last candle has no slot. The sum
/// law holds: `width * count + (number of marked gaps) == columns`.
pub fn stretch_layout(count: usize, columns: usize) -> (r: (usize, Vec<bool>))
    requires
        0 < count <= columns,
        columns <= 0xFFFF,
    ensures
        r.0 == columns as int / count as int,
        r.1.len() == count - 1,
        r.0 * count + marked_count(r.1@, r.1.len() as int) == columns,
        marked_count(r.1@, r.1.len() as int) < count,
        forall|j: int| 0 <= j < r.1.len() ==> #[trigger] r.1@[j]
            == gap_marked(count as int, columns - (columns as int / count as int) * count, j),
{
    let base: usize = columns / count;
    proof {
        assert(base * count <= columns && columns - base * count < count) by (nonlinear_arith)
            requires base == columns as int / count as int, count > 0,
        ;
    }
    let extra: usize = columns - base * count;
    let gaps_n: usize = count - 1;
    let mut gaps: Vec<bool> = Vec::new();
    let mut j: usize = 0;
    proof {
        assert(1int * extra as int / count as int == 0 && extra as int / count as int >= 0) by (nonlinear_arith)
            requires 0 <= extra < count,
        ;
    }
    while j < gaps_n
        invariant
            j <= gaps_n,
            gaps_n < count <= columns <= 0xFFFF,
            extra < count,
            gaps.len() == j,
            marked_count(gaps@, j as int) == (j + 1) * extra as int / count as int,
            forall|m: int| 0 <= m < j ==> #[trigger] gaps@[m] == gap_marked(count as int, extra as int, m),
        decreases gaps_n - j,
    {
        proof {
            assert((j + 2) * extra <= 0xFFFF * 0xFFFF && (j + 1) * extra <= 0xFFFF * 0xFFFF) by (nonlinear_arith)
                requires j + 2 <= count + 1, extra < count, count <= 0xFFFF,
            ;
        }
        let before: usize = (j + 1) * extra / count;
        let after: usize = (j + 2) * extra / count;
        proof {
            assert((j + 1) * extra <= (j + 2) * extra <= (j + 1) * extra + extra) by (nonlinear_arith);
            assert(after as int - before as int <= 1 && before <= after) by (nonlinear_arith)
                requires
                    before == (j + 1) * extra as int / count as int,
                    after == (j + 2) * extra as int / count as int,
                    (j + 1) * extra <= (j + 2) * extra <= (j + 1) * extra + extra,
                    0 < count,
                    extra < count,
            ;
        }
        let ghost g1 = gaps@;
        gaps.push(after > before);
        proof {
            lemma_marked_stable(g1, gaps@, j as int);
            assert(gaps@[j as int] == (after > before));
        }
        j = j + 1;
    }
    proof {
        if gaps_n == 0 {
            assert(extra == 0) by (nonlinear_arith)
                requires count == 1, extra < count,
            ;
        } else {
            assert(count * extra as int / count as int == extra) by (nonlinear_arith)
                requires count > 0,
            ;
        }
    }
    (base, gaps)
}

/// At most one extra column per gap slot.
pub proof fn lemma_marked_le(gaps: Seq<bool>, n: int)
    requires 0 <= n,
    ensures marked_count(gaps, n) <= n, marked_count(gaps, n) >= 0,
    decreases n,
{
    if n > 0 {
        lemma_marked_le(gaps, n - 1);
    }
}

proof fn lemma_marked_stable(a: Seq<bool>, b: Seq<bool>, n: int)
    requires
        0 <= n <= a.len(),
        n <= b.len(),
        forall|i: int| 0 <= i < n ==> a[i] == b[i],
    ensures
        marked_count(a, n) == marked_count(b, n),
    decreases n,
{
    if n > 0 {
        lemma_marked_stable(a, b, n - 1);
    }
}

} // verus!
