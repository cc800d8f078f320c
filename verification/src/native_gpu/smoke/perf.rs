//! Timing statistics of repeated draw/readback samples, in nanoseconds.

use vstd::prelude::*;
use vstd::relations::{sorted_by, total_ordering};

use crate::native_gpu::reports::GpuTerminalTextPerfReport;
use crate::native_gpu::readback::div_ceil;

verus! {

/// Sum of `s`.
pub open spec fn seq_sum(s: Seq<u128>) -> int
    decreases s.len(),
{
    if s.len() == 0 {
        0
    } else {
        seq_sum(s.drop_last()) + s.last()
    }
}

/// Ascending order of durations.
pub open spec fn ascending() -> spec_fn(u128, u128) -> bool {
    |a: u128, b: u128| a <= b
}

/// `s` in ascending order.
pub open spec fn sorted_samples(s: Seq<u128>) -> Seq<u128> {
    s.sort_by(ascending())
}

/// Zero-based position of the inclusive 95th percentile among `n` samples:
/// the `ceil(95 n / 100)`-th smallest.
pub open spec fn p95_rank(n: int) -> int {
    if div_ceil(n * 95, 100) >= 1 {
        div_ceil(n * 95, 100) - 1
    } else {
        0
    }
}

/// Sums of prefixes never exceed the sum of the whole sequence.
proof fn lemma_prefix_sum_bound(s: Seq<u128>, i: int)
    requires
        0 <= i <= s.len(),
    ensures
        seq_sum(s.subrange(0, i)) <= seq_sum(s),
        0 <= seq_sum(s.subrange(0, i)),
    decreases s.len() - i,
{
    if i < s.len() {
        lemma_prefix_sum_bound(s, i + 1);
        assert(s.subrange(0, i + 1).drop_last() =~= s.subrange(0, i));
    } else {
        assert(s.subrange(0, i) =~= s);
    }
    lemma_sum_nonnegative(s.subrange(0, i));
}

proof fn lemma_sum_nonnegative(s: Seq<u128>)
    ensures
        0 <= seq_sum(s),
    decreases s.len(),
{
    if s.len() > 0 {
        lemma_sum_nonnegative(s.drop_last());
    }
}

/// Average of the samples, rounded down; zero without samples.
pub fn average_duration_ns(durations: &[u128]) -> (r: u128)
    requires
        seq_sum(durations@) <= u128::MAX,
    ensures
        durations@.len() == 0 ==> r == 0,
        durations@.len() > 0 ==> r == seq_sum(durations@) / durations@.len() as int,
{
    if durations.len() == 0 {
        return 0;
    }
    let mut total: u128 = 0;
    let mut i: usize = 0;
    while i < durations.len()
        invariant
            i <= durations@.len(),
            seq_sum(durations@) <= u128::MAX,
            total == seq_sum(durations@.subrange(0, i as int)),
        decreases durations@.len() - i,
    {
        proof {
            assert(durations@.subrange(0, i + 1).drop_last() =~= durations@.subrange(0, i as int));
            lemma_prefix_sum_bound(durations@, i + 1);
        }
        total = total + durations[i];
        i = i + 1;
    }
    proof {
        assert(durations@.subrange(0, durations@.len() as int) =~= durations@);
    }
    total / (durations.len() as u128)
}

/// Exchanging two elements keeps the multiset of a sequence.
proof fn lemma_swap_multiset(s: Seq<u128>, i: int, j: int)
    requires
        0 <= i < s.len(),
        0 <= j < s.len(),
    ensures
        s.update(i, s[j]).update(j, s[i]).to_multiset() =~= s.to_multiset(),
{
    broadcast use vstd::seq_lib::group_to_multiset_ensures, vstd::multiset::group_multiset_axioms;

    assert(s.update(i, s[j]).to_multiset() =~= s.to_multiset().insert(s[j]).remove(s[i]));
    assert(s.update(i, s[j])[j] == if i == j { s[j] } else { s[j] });
}

/// The samples in ascending order.
pub fn sorted_durations(durations: &[u128]) -> (v: Vec<u128>)
    ensures
        v@ == sorted_samples(durations@),
        v@.len() == durations@.len(),
{
    let mut v: Vec<u128> = Vec::new();
    let mut k: usize = 0;
    while k < durations.len()
        invariant
            k <= durations@.len(),
            v@ == durations@.subrange(0, k as int),
        decreases durations@.len() - k,
    {
        v.push(durations[k]);
        k = k + 1;
    }
    proof {
        assert(v@ =~= durations@);
    }
    let n = v.len();
    let mut i: usize = 0;
    while i < n
        invariant
            n == v@.len(),
            n == durations@.len(),
            i <= n,
            v@.to_multiset() == durations@.to_multiset(),
            forall|a: int, b: int| 0 <= a < b < i ==> v@[a] <= v@[b],
            forall|a: int, b: int| 0 <= a < i <= b < n ==> v@[a] <= v@[b],
        decreases n - i,
    {
        let mut m: usize = i;
        let mut j: usize = i + 1;
        while j < n
            invariant
                n == v@.len(),
                i < n,
                i <= m < n,
                i < j <= n,
                forall|b: int| i <= b < j ==> v@[m as int] <= v@[b],
            decreases n - j,
        {
            if v[j] < v[m] {
                m = j;
            }
            j = j + 1;
        }
        let ghost before = v@;
        let vi = v[i];
        let vm = v[m];
        v.set(i, vm);
        v.set(m, vi);
        proof {
            lemma_swap_multiset(before, i as int, m as int);
            assert(v@ == before.update(i as int, before[m as int]).update(m as int, before[i as int]));
        }
        i = i + 1;
    }
    proof {
        let leq = ascending();
        assert(total_ordering(leq));
        assert(sorted_by(v@, leq));
        durations@.lemma_sort_by_ensures(leq);
        vstd::seq_lib::lemma_sorted_unique(v@, durations@.sort_by(leq), leq);
    }
    v
}

/// Inclusive 95th-percentile sample; zero without samples.
pub fn p95_duration_ns(durations: &[u128]) -> (r: u128)
    requires
        durations@.len() * 95 <= usize::MAX,
    ensures
        durations@.len() == 0 ==> r == 0,
        durations@.len() > 0 ==> r == sorted_samples(durations@)[p95_rank(durations@.len() as int)],
{
    if durations.len() == 0 {
        return 0;
    }
    let sorted = sorted_durations(durations);
    let scaled = durations.len() * 95;
    let rank = if scaled % 100 == 0 { scaled / 100 } else { scaled / 100 + 1 };
    let index = if rank >= 1 { rank - 1 } else { 0 };
    assert(scaled / 100 < durations@.len()) by (nonlinear_arith)
        requires
            scaled == durations@.len() * 95,
            durations@.len() > 0;
    sorted[index]
}

/// Timing summary of repeated terminal-text draws: sample count, target size,
/// coverage of the last frame, and the fastest, average, slowest and p95 sample.
pub fn terminal_text_perf_report(width: u32, height: u32, drawn_pixels: usize, durations: &[u128]) -> (r: GpuTerminalTextPerfReport)
    requires
        seq_sum(durations@) <= u128::MAX,
        durations@.len() * 95 <= usize::MAX,
    ensures
        r.frames == durations@.len(),
        r.width == width,
        r.height == height,
        r.drawn_pixels == drawn_pixels,
        durations@.len() == 0 ==> r.min_ns == 0 && r.max_ns == 0 && r.avg_ns == 0 && r.p95_ns == 0,
        durations@.len() > 0 ==> {
            &&& r.min_ns == sorted_samples(durations@)[0]
            &&& r.max_ns == sorted_samples(durations@).last()
            &&& r.avg_ns == seq_sum(durations@) / durations@.len() as int
            &&& r.p95_ns == sorted_samples(durations@)[p95_rank(durations@.len() as int)]
        },
{
    let sorted = sorted_durations(durations);
    let (min_ns, max_ns) = if sorted.len() == 0 {
        (0, 0)
    } else {
        (sorted[0], sorted[sorted.len() - 1])
    };
    GpuTerminalTextPerfReport {
        frames: durations.len(),
        width,
        height,
        drawn_pixels,
        min_ns,
        avg_ns: average_duration_ns(durations),
        max_ns,
        p95_ns: p95_duration_ns(durations),
    }
}

} // verus!
