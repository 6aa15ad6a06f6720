//! The per-series engine: the bounded observation window, the multi-scale
//! aggregate table, and the query path that reads final statistics from it.

use vstd::prelude::*;
use vstd::pervasive::VecAdditionalExecFns;
use crate::float_bits::{
    add_bits, div_bits, min_bits, max_bits, mul_bits, round4_spec, sub_bits, double_of_uint,
    fadd, fdiv, fmin, fmax, fmul, fsub, round_to_4_decimals, uint_to_double,
    DOUBLE_MAX_BITS, ZERO_BITS,
};

verus! {

/// Capacity of the observation window: 10^8, the largest scale.
pub const MAX_POINTS_SIZE: usize = 100_000_000;

/// 10 raised to the power `e`.
pub open spec fn pow10(e: nat) -> nat
    decreases e,
{
    if e == 0 {
        1
    } else {
        10 * pow10((e - 1) as nat)
    }
}

/// `pow10` is at least one.
pub proof fn lemma_pow10_pos(e: nat)
    ensures
        pow10(e) >= 1,
    decreases e,
{
    if e > 0 {
        lemma_pow10_pos((e - 1) as nat);
    }
}

/// `pow10` is monotonic.
pub proof fn lemma_pow10_mono(a: nat, b: nat)
    requires
        a <= b,
    ensures
        pow10(a) <= pow10(b),
    decreases b,
{
    if a < b {
        lemma_pow10_mono(a, (b - 1) as nat);
        lemma_pow10_pos((b - 1) as nat);
    }
}

/// The capacity of the window is the largest scale, 10^8.
pub proof fn lemma_pow10_capacity()
    ensures
        pow10(8) == 100000000,
{
    reveal_with_fuel(pow10, 9);
}

/// The window left by a history of appended observations: the whole history
/// while it fits, otherwise its most recent `MAX_POINTS_SIZE` entries.
pub open spec fn window_after(h: Seq<u64>) -> Seq<u64> {
    if h.len() <= MAX_POINTS_SIZE {
        h
    } else {
        h.skip(h.len() - MAX_POINTS_SIZE)
    }
}

/// Running minimum over the `n` most recent entries of `w`, folded most
/// recent first and seeded with the largest finite double.
pub open spec fn suffix_min(w: Seq<u64>, n: int) -> u64
    decreases n,
{
    if n <= 0 {
        DOUBLE_MAX_BITS
    } else {
        min_bits(suffix_min(w, n - 1), w[w.len() - n])
    }
}

/// Running maximum over the `n` most recent entries of `w`, folded most
/// recent first and seeded with 0.0 (the engine's sentinel seed, kept as is;
/// windows holding only negative observations therefore report a max of 0.0).
pub open spec fn suffix_max(w: Seq<u64>, n: int) -> u64
    decreases n,
{
    if n <= 0 {
        ZERO_BITS
    } else {
        max_bits(suffix_max(w, n - 1), w[w.len() - n])
    }
}

/// Running sum over the `n` most recent entries of `w`, folded most recent
/// first and seeded with 0.0.
pub open spec fn suffix_sum(w: Seq<u64>, n: int) -> u64
    decreases n,
{
    if n <= 0 {
        ZERO_BITS
    } else {
        add_bits(suffix_sum(w, n - 1), w[w.len() - n])
    }
}

/// Running sum of squares over the `n` most recent entries of `w`, folded
/// most recent first and seeded with 0.0.
pub open spec fn suffix_sum_sq(w: Seq<u64>, n: int) -> u64
    decreases n,
{
    if n <= 0 {
        ZERO_BITS
    } else {
        add_bits(suffix_sum_sq(w, n - 1), mul_bits(w[w.len() - n], w[w.len() - n]))
    }
}

/// One aggregate-table entry: min, max, sum and sum of squares over one
/// trailing window, each as a double's bit pattern.
#[derive(Clone, Copy, Debug, PartialEq, Eq, Structural)]
pub struct DataStats {
    pub min: u64,
    pub max: u64,
    pub sum: u64,
    pub sum_of_squared: u64,
}

/// The aggregate of the `n` most recent entries of `w`, by direct scan.
pub open spec fn agg_at(w: Seq<u64>, n: int) -> DataStats {
    DataStats {
        min: suffix_min(w, n),
        max: suffix_max(w, n),
        sum: suffix_sum(w, n),
        sum_of_squared: suffix_sum_sq(w, n),
    }
}

/// A batch of observations to append to one series, values as double bit
/// patterns.
pub struct BatchRequest {
    pub symbol: String,
    pub values: Vec<u64>,
}

/// A statistics query: which series, and which scale `k` (window length
/// 10^k, 1 <= k <= 8).
pub struct StatsRequest {
    pub symbol: String,
    pub k: i32,
}

/// The answer to a statistics query. `min`, `max` and `last` are exact;
/// `avg` and `var` are rounded to four decimal places. All five are double
/// bit patterns.
#[derive(Clone, Copy, Debug, PartialEq, Eq, Structural)]
pub struct StatsResult {
    pub min: u64,
    pub max: u64,
    pub last: u64,
    pub avg: u64,
    pub var: u64,
}

/// One series' state: the bounded observation window (arrival order, oldest
/// first) and the eight-entry aggregate table, entry `i` covering the
/// trailing window of length 10^(i+1).
#[derive(Clone, Debug)]
pub struct TradingData {
    pub data_points: Vec<u64>,
    pub data_stats: Vec<DataStats>,
}

impl TradingData {
    /// Structural well-formedness: the table has exactly eight entries and
    /// the window never exceeds its capacity.
    pub open spec fn wf(self) -> bool {
        &&& self.data_stats@.len() == 8
        &&& self.data_points@.len() <= MAX_POINTS_SIZE
    }

    /// Every aggregate entry whose window length is met is exactly the
    /// direct-scan aggregate of that many most recent observations.
    pub open spec fn consistent(self) -> bool {
        forall|i: int|
            0 <= i < 8 && pow10((i + 1) as nat) <= self.data_points@.len()
                ==> self.data_stats@[i] == agg_at(self.data_points@, pow10((i + 1) as nat) as int)
    }

    /// The seed value every aggregate entry starts from.
    pub open spec fn seed_stats() -> DataStats {
        DataStats { min: DOUBLE_MAX_BITS, max: ZERO_BITS, sum: ZERO_BITS, sum_of_squared: ZERO_BITS }
    }

    /// A fresh series: empty window, all eight table entries at their seed.
    pub fn new() -> (r: Self)
        ensures
            r.wf(),
            r.consistent(),
            r.data_points@ == Seq::<u64>::empty(),
            forall|i: int| 0 <= i < 8 ==> r.data_stats@[i] == Self::seed_stats(),
    {
        let mut stats: Vec<DataStats> = Vec::new();
        let seed = DataStats {
            min: DOUBLE_MAX_BITS,
            max: ZERO_BITS,
            sum: ZERO_BITS,
            sum_of_squared: ZERO_BITS,
        };
        let mut i: usize = 0;
        while i < 8
            invariant
                i <= 8,
                stats@.len() == i,
                forall|j: int| 0 <= j < i ==> stats@[j] == Self::seed_stats(),
                seed == Self::seed_stats(),
            decreases 8 - i,
        {
            stats.push(seed);
            i += 1;
        }
        TradingData { data_points: Vec::new(), data_stats: stats }
    }
}

impl TradingData {
    /// Appends a batch of observations, evicting the oldest entry for each
    /// value pushed once the window is at capacity, then recomputes the whole
    /// aggregate table from the new window contents in one reverse pass.
    pub fn add_batch(&mut self, batch: &Vec<u64>)
        requires
            old(self).wf(),
        ensures
            final(self).wf(),
            final(self).consistent(),
            final(self).data_points@ == window_after(old(self).data_points@ + batch@),
    {
        let ghost p = old(self).data_points@;
        let ghost b = batch@;

        // Stream the batch into the window, evicting one oldest value per
        // inserted value once the window is full.
        let mut j: usize = 0;
        while j < batch.len()
            invariant
                j <= b.len(),
                batch@ == b,
                self.data_stats@ == old(self).data_stats@,
                self.data_stats@.len() == old(self).data_stats@.len(),
                self.data_points@ == window_after(p + b.take(j as int)),
                self.data_points@.len() <= MAX_POINTS_SIZE,
                p.len() <= MAX_POINTS_SIZE,
            decreases b.len() - j,
        {
            proof {
                assert(b.take((j + 1) as int) =~= b.take(j as int).push(b[j as int]));
                assert((p + b.take((j + 1) as int)) =~= (p + b.take(j as int)).push(b[j as int]));
            }
            let ghost h = p + b.take(j as int);
            if self.data_points.len() >= MAX_POINTS_SIZE {
                self.data_points.remove(0);
                proof {
                    assert(window_after(h).remove(0) =~= window_after(h).skip(1));
                }
            }
            self.data_points.push(batch[j]);
            proof {
                let h1 = p + b.take((j + 1) as int);
                if h.len() < MAX_POINTS_SIZE {
                    assert(self.data_points@ =~= window_after(h1));
                } else {
                    assert(h1.len() > MAX_POINTS_SIZE);
                    assert(self.data_points@ =~= h1.skip(h1.len() - MAX_POINTS_SIZE));
                }
            }
            j += 1;
        }
        proof {
            assert(b.take(b.len() as int) =~= b);
        }

        // One pass from the most recent observation to the oldest: fold each
        // value into the running accumulators and write the cumulative state
        // into the table entry of the power-of-ten bracket the rank is in.
        let ghost w = self.data_points@;
        let len = self.data_points.len();
        let mut min_acc: u64 = DOUBLE_MAX_BITS;
        let mut max_acc: u64 = ZERO_BITS;
        let mut sum_acc: u64 = ZERO_BITS;
        let mut sum_sq_acc: u64 = ZERO_BITS;
        let mut idx: usize = 0;
        let mut next_boundary: usize = 10;
        let mut r: usize = 0;
        proof {
            lemma_pow10_capacity();
            reveal_with_fuel(pow10, 2);
            assert(pow10(1) == 10);
            assert forall|i: int| 0 <= i < 8 implies #[trigger] pow10((i + 1) as nat) >= 1 by {
                lemma_pow10_pos((i + 1) as nat);
            }
        }
        while r < len
            invariant
                r <= len,
                len == self.data_points@.len(),
                self.data_points@ == w,
                w.len() <= MAX_POINTS_SIZE,
                self.data_stats@.len() == 8,
                pow10(8) == 100000000,
                idx < 8,
                next_boundary == pow10((idx + 1) as nat),
                r <= next_boundary,
                idx > 0 ==> pow10(idx as nat) <= r,
                min_acc == suffix_min(w, r as int),
                max_acc == suffix_max(w, r as int),
                sum_acc == suffix_sum(w, r as int),
                sum_sq_acc == suffix_sum_sq(w, r as int),
                forall|i: int|
                    0 <= i < 8 && pow10((i + 1) as nat) <= r
                        ==> self.data_stats@[i] == agg_at(w, pow10((i + 1) as nat) as int),
            decreases len - r,
        {
            if r == next_boundary {
                proof {
                    lemma_pow10_pos((idx + 1) as nat);
                    if idx >= 7 {
                        assert(r == pow10(8));
                        assert(false);
                    }
                    lemma_pow10_mono((idx + 2) as nat, 8);
                }
                idx += 1;
                next_boundary = next_boundary * 10;
            }
            proof {
                lemma_pow10_pos(idx as nat);
                assert(r < next_boundary);
            }
            let v = self.data_points[len - 1 - r];
            min_acc = fmin(min_acc, v);
            max_acc = fmax(max_acc, v);
            sum_acc = fadd(sum_acc, v);
            let v_sq = fmul(v, v);
            sum_sq_acc = fadd(sum_sq_acc, v_sq);
            let entry = DataStats {
                min: min_acc,
                max: max_acc,
                sum: sum_acc,
                sum_of_squared: sum_sq_acc,
            };
            let ghost before = self.data_stats@;
            self.data_stats.set(idx, entry);
            proof {
                let rr = r as int;
                assert(w[w.len() - (rr + 1)] == w[len - 1 - r]);
                assert(min_acc == suffix_min(w, rr + 1));
                assert(max_acc == suffix_max(w, rr + 1));
                assert(sum_acc == suffix_sum(w, rr + 1));
                assert(sum_sq_acc == suffix_sum_sq(w, rr + 1));
                assert forall|i: int|
                    0 <= i < 8 && pow10((i + 1) as nat) <= rr + 1
                        implies self.data_stats@[i] == agg_at(w, pow10((i + 1) as nat) as int) by {
                    if pow10((i + 1) as nat) <= rr {
                        // already committed; the write at `idx` is above this bracket
                        if i >= idx {
                            lemma_pow10_mono((idx + 1) as nat, (i + 1) as nat);
                            assert(false);
                        }
                        assert(self.data_stats@[i] == before[i]);
                    } else {
                        // this step is the boundary rank of bracket `i`
                        assert(pow10((i + 1) as nat) == rr + 1);
                        if i + 1 > idx + 1 {
                            lemma_pow10_mono((idx + 2) as nat, (i + 1) as nat);
                            assert(false);
                        }
                        if idx > 0 && i + 1 <= idx {
                            lemma_pow10_mono((i + 1) as nat, idx as nat);
                            assert(false);
                        }
                        assert(i == idx);
                        assert(self.data_stats@[i] == entry);
                    }
                }
            }
            r += 1;
        }
    }
}

/// 10^e for a supported scale exponent, as a window length.
pub fn pow10_exec(e: u32) -> (r: usize)
    requires
        e <= 8,
    ensures
        r == pow10(e as nat),
{
    let mut acc: usize = 1;
    let mut j: u32 = 0;
    proof {
        lemma_pow10_capacity();
    }
    while j < e
        invariant
            j <= e,
            e <= 8,
            acc == pow10(j as nat),
            pow10(8) == 100000000,
        decreases e - j,
    {
        proof {
            lemma_pow10_mono((j + 1) as nat, 8);
        }
        acc = acc * 10;
        j += 1;
    }
    acc
}

impl TradingData {
    /// What a query for scale `k` returns: nothing while the window holds
    /// fewer than 10^k observations, otherwise the committed aggregate of the
    /// most recent 10^k observations, the last observation, and the rounded
    /// average and population variance derived from sum and sum of squares.
    pub open spec fn stats_of(self, k: int) -> Option<StatsResult> {
        let kl = pow10(k as nat) as int;
        if self.data_points@.len() < kl {
            None
        } else {
            let klf = double_of_uint(pow10(k as nat) as u64);
            let a = agg_at(self.data_points@, kl);
            let avg0 = div_bits(a.sum, klf);
            let var0 = sub_bits(div_bits(a.sum_of_squared, klf), mul_bits(avg0, avg0));
            Some(
                StatsResult {
                    min: a.min,
                    max: a.max,
                    last: self.data_points@.last(),
                    avg: round4_spec(avg0),
                    var: round4_spec(var0),
                },
            )
        }
    }

    /// Answers a query for scale `k` (window length 10^k) in constant time
    /// from the aggregate table: `None` exactly when the window holds fewer
    /// than 10^k observations.
    pub fn get_stats(&self, k: i32) -> (r: Option<StatsResult>)
        requires
            self.wf(),
            1 <= k <= 8,
        ensures
            r is Some <==> self.data_points@.len() >= pow10(k as nat),
            self.consistent() ==> r == self.stats_of(k as int),
    {
        proof {
            lemma_pow10_pos(k as nat);
        }
        let k_len = pow10_exec(k as u32);
        let index = (k - 1) as usize;
        if self.data_points.len() == 0 || k_len > self.data_points.len() {
            return None;
        }
        let stats = self.data_stats[index];
        let last = self.data_points[self.data_points.len() - 1];
        let klf = uint_to_double(k_len as u64);
        let avg0 = fdiv(stats.sum, klf);
        let var0 = fsub(fdiv(stats.sum_of_squared, klf), fmul(avg0, avg0));
        let result = StatsResult {
            min: stats.min,
            max: stats.max,
            last,
            avg: round_to_4_decimals(avg0),
            var: round_to_4_decimals(var0),
        };
        Some(result)
    }
}

/// Law (capacity invariant across appends): appending a batch to the window
/// left by an earlier history gives the same window as the whole concatenated
/// history at once. Together with `add_batch`'s postcondition this pins the
/// window after any sequence of appends to the most recent `MAX_POINTS_SIZE`
/// entries of everything ever appended, in arrival order.
pub proof fn lemma_window_compose(h: Seq<u64>, b: Seq<u64>)
    ensures
        window_after(window_after(h) + b) == window_after(h + b),
{
    assert(window_after(window_after(h) + b) =~= window_after(h + b));
}

/// The window a fresh series is left with after appending each batch of
/// `batches` in turn.
pub open spec fn window_of_batches(batches: Seq<Seq<u64>>) -> Seq<u64>
    decreases batches.len(),
{
    if batches.len() == 0 {
        Seq::empty()
    } else {
        window_after(window_of_batches(batches.drop_last()) + batches.last())
    }
}

/// Law (capacity invariant): after any sequence of appends to a fresh series,
/// the window holds exactly the most recent `MAX_POINTS_SIZE` (or fewer) of
/// all values ever appended, in arrival order — so its length is the total
/// number of appended values capped at `MAX_POINTS_SIZE`.
pub proof fn lemma_capacity_invariant(batches: Seq<Seq<u64>>)
    ensures
        window_of_batches(batches) == window_after(batches.flatten_alt()),
        window_of_batches(batches).len() == if batches.flatten_alt().len() <= MAX_POINTS_SIZE {
            batches.flatten_alt().len()
        } else {
            MAX_POINTS_SIZE as nat
        },
    decreases batches.len(),
{
    if batches.len() == 0 {
        assert(batches.flatten_alt() =~= Seq::<u64>::empty());
    } else {
        lemma_capacity_invariant(batches.drop_last());
        lemma_window_compose(batches.drop_last().flatten_alt(), batches.last());
    }
}

/// Law (idempotent reads): what a query returns is a function of the series
/// state and the scale alone, so repeated queries with the same scale against
/// an unmodified series return identical results.
pub proof fn lemma_reads_idempotent(
    d: TradingData,
    k: int,
    r1: Option<StatsResult>,
    r2: Option<StatsResult>,
)
    requires
        r1 == d.stats_of(k),
        r2 == d.stats_of(k),
    ensures
        r1 == r2,
{
}

impl Default for TradingData {
    /// Same as [`TradingData::new`].
    fn default() -> (r: Self)
        ensures
            r.wf(),
            r.consistent(),
            r.data_points@ == Seq::<u64>::empty(),
    {
        TradingData::new()
    }
}

} // verus!
