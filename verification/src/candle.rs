//! The OHLC data unit, its validation invariant, its classification, and the
//! lossy squash-merge aggregation used when more candles exist than columns.
//!
//! Prices are fixed-point integers: the caller picks a scale (for example
//! thousandths) and uses it consistently; the chart only compares and
//! aggregates, so the scale never appears here.
use vstd::prelude::*;

verus! {

/// One OHLC sample. Invariant: `low <= open, close <= high`.
#[derive(Clone, Copy, PartialEq, Eq, Structural, Debug)]
pub struct Candle {
    pub timestamp: i64,
    pub open: i64,
    pub high: i64,
    pub low: i64,
    pub close: i64,
}

/// Raised when the OHLC ordering invariant is violated at construction.
#[derive(Clone, Copy, PartialEq, Eq, Structural, Debug)]
pub struct ValidationError;

/// Derived classification: computed on demand, never stored.
#[derive(Clone, Copy, PartialEq, Eq, Structural, Debug)]
pub enum CandleType {
    Bullish,
    Bearish,
}

impl Candle {
    /// The ordering invariant every candle in a series satisfies.
    pub open spec fn wf(self) -> bool {
        self.low <= self.open <= self.high && self.low <= self.close <= self.high
    }

    /// Builds a candle, rejecting any sample that breaks the OHLC ordering.
    pub fn new(timestamp: i64, open: i64, high: i64, low: i64, close: i64)
        -> (r: Result<Candle, ValidationError>)
        ensures
            (low <= open <= high && low <= close <= high) <==> r is Ok,
            r matches Ok(c) ==> c == (Candle { timestamp, open, high, low, close })
                && c.wf(),
    {
        if low <= open && open <= high && low <= close && close <= high {
            Ok(Candle { timestamp, open, high, low, close })
        } else {
            Err(ValidationError)
        }
    }

    /// Bullish when the close is at or above the open, bearish otherwise.
    pub fn classify(&self) -> (r: CandleType)
        ensures
            r == CandleType::Bullish <==> self.open <= self.close,
    {
        if self.open <= self.close {
            CandleType::Bullish
        } else {
            CandleType::Bearish
        }
    }
}

/// The aggregate of a non-empty run of candles: first open, last close,
/// extreme high and low, first timestamp.
pub open spec fn spec_merge(s: Seq<Candle>) -> Candle
    recommends s.len() > 0,
    decreases s.len(),
{
    if s.len() <= 1 {
        s[0]
    } else {
        let rest = spec_merge(s.drop_first());
        Candle {
            timestamp: s[0].timestamp,
            open: s[0].open,
            high: if rest.high >= s[0].high { rest.high } else { s[0].high },
            low: if rest.low <= s[0].low { rest.low } else { s[0].low },
            close: rest.close,
        }
    }
}

/// The merged high is the maximum of the members' highs, and the low their
/// minimum; a merged run of well-formed candles is well-formed.
pub proof fn lemma_merge_bounds(s: Seq<Candle>)
    requires
        s.len() > 0,
        forall|i: int| 0 <= i < s.len() ==> s[i].wf(),
    ensures
        forall|i: int| 0 <= i < s.len() ==> #[trigger] s[i].high <= spec_merge(s).high,
        forall|i: int| 0 <= i < s.len() ==> #[trigger] s[i].low >= spec_merge(s).low,
        exists|i: int| 0 <= i < s.len() && #[trigger] s[i].high == spec_merge(s).high,
        exists|i: int| 0 <= i < s.len() && #[trigger] s[i].low == spec_merge(s).low,
        spec_merge(s).open == s[0].open,
        spec_merge(s).close == s[s.len() - 1].close,
        spec_merge(s).timestamp == s[0].timestamp,
        spec_merge(s).wf(),
    decreases s.len(),
{
    if s.len() == 1 {
        assert(s[0].high == spec_merge(s).high);
        assert(s[0].low == spec_merge(s).low);
    }
    if s.len() > 1 {
        lemma_merge_bounds(s.drop_first());
        assert forall|i: int| 0 <= i < s.len() implies #[trigger] s[i].high <= spec_merge(s).high by {
            if i > 0 {
                assert(s.drop_first()[i - 1] == s[i]);
            }
        }
        assert forall|i: int| 0 <= i < s.len() implies #[trigger] s[i].low >= spec_merge(s).low by {
            if i > 0 {
                assert(s.drop_first()[i - 1] == s[i]);
            }
        }
        let j = choose|j: int| 0 <= j < s.drop_first().len()
            && #[trigger] s.drop_first()[j].high == spec_merge(s.drop_first()).high;
        assert(s.drop_first()[j] == s[j + 1]);
        let k = choose|k: int| 0 <= k < s.drop_first().len()
            && #[trigger] s.drop_first()[k].low == spec_merge(s.drop_first()).low;
        assert(s.drop_first()[k] == s[k + 1]);
        if spec_merge(s).high == s[0].high {
            assert(0 <= 0 < s.len() && s[0].high == spec_merge(s).high);
        } else {
            assert(s[j + 1].high == spec_merge(s).high);
        }
        if spec_merge(s).low == s[0].low {
            assert(0 <= 0 < s.len() && s[0].low == spec_merge(s).low);
        } else {
            assert(s[k + 1].low == spec_merge(s).low);
        }
        assert(s.drop_first()[s.len() - 2] == s[s.len() - 1]);
    }
}

/// Squash-merge is associative over grouping boundaries: merging two adjacent
/// runs and then merging the two aggregates equals merging the concatenation,
/// so regrouping in sizes `k` then `k'` equals grouping directly by `k * k'`
/// whenever the boundaries coincide.
pub proof fn lemma_merge_associative(a: Seq<Candle>, b: Seq<Candle>)
    requires
        a.len() > 0,
        b.len() > 0,
    ensures
        spec_merge(a + b) == spec_merge(seq![spec_merge(a), spec_merge(b)]),
    decreases a.len(),
{
    let two = seq![spec_merge(a), spec_merge(b)];
    assert(two.drop_first() =~= seq![spec_merge(b)]);
    assert(two[0] == spec_merge(a) && two.drop_first()[0] == spec_merge(b));
    assert(spec_merge(two.drop_first()) == spec_merge(b));
    if a.len() == 1 {
        assert((a + b).drop_first() =~= b);
        assert((a + b)[0] == a[0]);
        assert(spec_merge(a) == a[0]);
    } else {
        lemma_merge_associative(a.drop_first(), b);
        assert((a + b).drop_first() =~= a.drop_first() + b);
        let inner = seq![spec_merge(a.drop_first()), spec_merge(b)];
        assert(inner.drop_first() =~= seq![spec_merge(b)]);
        assert(inner[0] == spec_merge(a.drop_first()) && inner.drop_first()[0] == spec_merge(b));
        assert(spec_merge(inner.drop_first()) == spec_merge(b));
        assert((a + b)[0] == a[0]);
        assert(spec_merge(a.drop_first() + b) == spec_merge(inner));
    }
}

/// Squash-merge is associative over any grouping: merging a series group by
/// group and then merging the aggregates equals merging the whole series at
/// once. Hence grouping by `k` and regrouping the results by `k'` equals
/// grouping directly by `k * k'` whenever the boundaries coincide: both are
/// a partition of the series into consecutive non-empty groups, and each
/// side equals the single merge of the concatenation.
pub proof fn lemma_merge_regrouping(gs: Seq<Seq<Candle>>)
    requires
        gs.len() > 0,
        forall|i: int| 0 <= i < gs.len() ==> (#[trigger] gs[i]).len() > 0,
    ensures
        spec_merge(gs.flatten()) == spec_merge(gs.map_values(|g: Seq<Candle>| spec_merge(g))),
    decreases gs.len(),
{
    let ms = gs.map_values(|g: Seq<Candle>| spec_merge(g));
    if gs.len() == 1 {
        assert(gs.drop_first() =~= Seq::<Seq<Candle>>::empty());
        assert(gs.flatten() =~= gs[0] + gs.drop_first().flatten());
        assert(gs[0] + Seq::<Candle>::empty() =~= gs[0]);
        assert(gs.flatten() =~= gs[0]);
        assert(ms =~= seq![spec_merge(gs[0])]);
    } else {
        let rest = gs.drop_first();
        lemma_merge_regrouping(rest);
        assert(gs.flatten() =~= gs[0] + rest.flatten());
        rest.lemma_flatten_length_ge_single_element_length(0);
        lemma_merge_associative(gs[0], rest.flatten());
        let two = seq![spec_merge(gs[0]), spec_merge(rest.flatten())];
        assert(ms =~= seq![spec_merge(gs[0])] + rest.map_values(|g: Seq<Candle>| spec_merge(g)));
        let mrest = rest.map_values(|g: Seq<Candle>| spec_merge(g));
        assert(ms[0] == spec_merge(gs[0]));
        assert(ms.drop_first() =~= mrest);
        assert(two[0] == spec_merge(gs[0]));
        assert(two.drop_first() =~= seq![spec_merge(rest.flatten())]);
        assert(spec_merge(two.drop_first()) == spec_merge(rest.flatten()));
        assert(spec_merge(rest.flatten()) == spec_merge(mrest));
        assert(mrest.len() > 0);
    }
}

/// Merges a non-empty run into one synthetic candle: first open, last close,
/// maximum high, minimum low, first timestamp.
pub fn merge(group: &Vec<Candle>) -> (r: Candle)
    requires
        group.len() > 0,
    ensures
        r == spec_merge(group@),
{
    let mut i: usize = group.len() - 1;
    let mut acc: Candle = group[i];
    while i > 0
        invariant
            i < group.len(),
            acc == spec_merge(group@.subrange(i as int, group.len() as int)),
        decreases i,
    {
        i = i - 1;
        let c = group[i];
        let prev = acc;
        acc = Candle {
            timestamp: c.timestamp,
            open: c.open,
            high: if prev.high >= c.high { prev.high } else { c.high },
            low: if prev.low <= c.low { prev.low } else { c.low },
            close: prev.close,
        };
        proof {
            let sub = group@.subrange(i as int, group.len() as int);
            assert(sub.drop_first() =~= group@.subrange(i + 1, group.len() as int));
            assert(sub[0] == group@[i as int]);
        }
    }
    proof {
        assert(group@.subrange(0, group.len() as int) =~= group@);
    }
    acc
}

/// Partitions the series into consecutive groups of `group_size` and merges
/// each group, preserving order; the trailing group may be shorter.
pub fn squash(candles: &Vec<Candle>, group_size: usize) -> (r: Vec<Candle>)
    requires
        group_size > 0,
        candles.len() + group_size <= usize::MAX,
    ensures
        r.len() == (candles.len() + group_size - 1) / group_size as int,
        forall|i: int| 0 <= i < r.len() ==> #[trigger] r[i] == spec_merge(
            candles@.subrange(
                i * group_size,
                if (i + 1) * group_size <= candles.len() { (i + 1) * group_size }
                else { candles.len() as int },
            )),
{
    let mut out: Vec<Candle> = Vec::new();
    let mut start: usize = 0;
    proof {
        assert(0int * group_size == 0) by (nonlinear_arith);
    }
    while start < candles.len()
        invariant
            group_size > 0,
            candles.len() + group_size <= usize::MAX,
            start == out.len() * group_size,
            out.len() == 0 || (out.len() - 1) * group_size < candles.len(),
            forall|i: int| 0 <= i < out.len() ==> #[trigger] out[i] == spec_merge(
                candles@.subrange(
                    i * group_size,
                    if (i + 1) * group_size <= candles.len() { (i + 1) * group_size }
                    else { candles.len() as int },
                )),
        decreases candles.len() + group_size - start,
    {
        let end: usize = if candles.len() - start > group_size { start + group_size } else { candles.len() };
        let mut group: Vec<Candle> = Vec::new();
        let mut j: usize = start;
        while j < end
            invariant
                start <= j <= end <= candles.len(),
                group@ =~= candles@.subrange(start as int, j as int),
            decreases end - j,
        {
            group.push(candles[j]);
            j = j + 1;
        }
        assert(group@ =~= candles@.subrange(start as int, end as int));
        let m = merge(&group);
        out.push(m);
        proof {
            let i = out.len() - 1;
            assert(i * group_size == start && (i + 1) * group_size == start + group_size
                && out.len() * group_size == start + group_size) by (nonlinear_arith)
                requires i == out.len() - 1, start == i * group_size,
            ;
        }
        start = start + group_size;
    }
    proof {
        if candles.len() == 0 {
            assert((group_size - 1) as int / group_size as int == 0) by (nonlinear_arith)
                requires group_size > 0,
            ;
        }
        if candles.len() > 0 {
            assert(out.len() == (candles.len() + group_size - 1) / group_size as int) by (nonlinear_arith)
                requires
                    group_size > 0,
                    candles.len() > 0,
                    out.len() * group_size >= candles.len(),
                    (out.len() - 1) * group_size < candles.len(),
            ;
        }
    }
    out
}

} // verus!
