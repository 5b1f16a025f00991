use vstd::prelude::*;

use crate::media_error::{MediaErrorCode, MediaOperation, MediaServiceError};

verus! {

/// Sum of the first `k` weights.
pub open spec fn weight_prefix(weights: Seq<u64>, k: int) -> int
    decreases k,
{
    if k <= 0 || k > weights.len() {
        0
    } else {
        weight_prefix(weights, k - 1) + weights[k - 1]
    }
}

/// Every running total of the weights is positive and fits in a `u64`.
pub open spec fn weights_accumulate(weights: Seq<u64>) -> bool {
    forall|k: int| 1 <= k <= weights.len() ==> 0 < #[trigger] weight_prefix(weights, k) <= u64::MAX
}

/// The `k`-th boundary of the partition of `start..end` by `weights`: every
/// piece gets one millisecond, and the rest is handed out in proportion to the
/// running weight, rounded down.
pub open spec fn partition_boundary(start: int, end: int, weights: Seq<u64>, k: int) -> int {
    let n = weights.len() as int;
    let spare = end - start - n;
    let total = weight_prefix(weights, n);
    start + k + spare * weight_prefix(weights, k) / total
}

/// The range list that `partition_time_range` returns for accepted inputs.
pub open spec fn partition_ranges(start: int, end: int, weights: Seq<u64>) -> Seq<(u64, u64)> {
    Seq::new(
        weights.len(),
        |i: int|
            (
                partition_boundary(start, end, weights, i) as u64,
                partition_boundary(start, end, weights, i + 1) as u64,
            ),
    )
}

/// The inputs on which the partition succeeds.
pub open spec fn partition_accepted(start: int, end: int, weights: Seq<u64>) -> bool {
    &&& start <= end
    &&& weights.len() > 0
    &&& end - start >= weights.len()
    &&& weights_accumulate(weights)
}

proof fn lemma_prefix_monotone(weights: Seq<u64>, a: int, b: int)
    requires
        0 <= a <= b <= weights.len(),
    ensures
        0 <= weight_prefix(weights, a) <= weight_prefix(weights, b),
    decreases b - a,
{
    if a < b {
        lemma_prefix_monotone(weights, a, b - 1);
    } else {
        lemma_prefix_nonneg(weights, a);
    }
}

proof fn lemma_prefix_nonneg(weights: Seq<u64>, k: int)
    ensures
        0 <= weight_prefix(weights, k),
    decreases k,
{
    if k > 0 && k <= weights.len() {
        lemma_prefix_nonneg(weights, k - 1);
    }
}

proof fn lemma_scaled_bounds(spare: int, part: int, whole: int)
    requires
        spare >= 0,
        0 <= part <= whole,
        whole > 0,
    ensures
        0 <= spare * part / whole <= spare,
        spare * whole / whole == spare,
        spare * 0 / whole == 0,
{
    assert(0 <= spare * part) by (nonlinear_arith)
        requires spare >= 0, part >= 0;
    assert(spare * part <= spare * whole) by (nonlinear_arith)
        requires spare >= 0, part <= whole;
    assert(spare * whole / whole == spare) by (nonlinear_arith)
        requires whole > 0;
    assert(spare * part / whole <= spare * whole / whole) by (nonlinear_arith)
        requires spare * part <= spare * whole, whole > 0;
    assert(0 <= spare * part / whole) by (nonlinear_arith)
        requires 0 <= spare * part, whole > 0;
}

proof fn lemma_scaled_monotone(spare: int, a: int, b: int, whole: int)
    requires
        spare >= 0,
        0 <= a <= b,
        whole > 0,
    ensures
        spare * a / whole <= spare * b / whole,
{
    assert(spare * a <= spare * b) by (nonlinear_arith)
        requires spare >= 0, a <= b;
    assert(spare * a / whole <= spare * b / whole) by (nonlinear_arith)
        requires spare * a <= spare * b, whole > 0;
}

/// Boundaries of an accepted partition rise by at least one and stay inside `start..=end`.
proof fn lemma_boundaries(start: int, end: int, weights: Seq<u64>, k: int)
    requires
        partition_accepted(start, end, weights),
        0 <= k <= weights.len(),
    ensures
        start + k <= partition_boundary(start, end, weights, k),
        partition_boundary(start, end, weights, k) <= end - (weights.len() - k),
        k < weights.len() ==> partition_boundary(start, end, weights, k) + 1
            <= partition_boundary(start, end, weights, k + 1),
        k == 0 ==> partition_boundary(start, end, weights, k) == start,
        k == weights.len() ==> partition_boundary(start, end, weights, k) == end,
{
    let n = weights.len() as int;
    let spare = end - start - n;
    let total = weight_prefix(weights, n);
    lemma_prefix_monotone(weights, k, n);
    lemma_prefix_monotone(weights, 0, k);
    assert(total > 0);
    lemma_scaled_bounds(spare, weight_prefix(weights, k), total);
    if k < n {
        lemma_prefix_monotone(weights, k, k + 1);
        lemma_prefix_monotone(weights, k + 1, n);
        lemma_scaled_monotone(spare, weight_prefix(weights, k), weight_prefix(weights, k + 1), total);
        lemma_scaled_bounds(spare, weight_prefix(weights, k + 1), total);
    }
    if k == n {
        assert(spare * weight_prefix(weights, k) / total == spare);
    }
    if k == 0 {
        assert(weight_prefix(weights, 0) == 0);
    }
}

/// The pieces of an accepted partition tile `start..end` in order: the first
/// begins at `start`, the last ends at `end`, each begins where the previous
/// one ends, and none is empty.
pub proof fn lemma_partition_tiles(start: int, end: int, weights: Seq<u64>)
    requires
        0 <= start,
        end <= u64::MAX,
        partition_accepted(start, end, weights),
    ensures
        partition_ranges(start, end, weights).len() == weights.len(),
        partition_ranges(start, end, weights)[0].0 == start,
        partition_ranges(start, end, weights)[weights.len() - 1].1 == end,
        forall|i: int|
            0 <= i < weights.len() ==> #[trigger] partition_ranges(start, end, weights)[i].0
                < partition_ranges(start, end, weights)[i].1,
        forall|i: int|
            0 <= i < weights.len() - 1 ==> #[trigger] partition_ranges(start, end, weights)[i].1
                == partition_ranges(start, end, weights)[i + 1].0,
{
    let ranges = partition_ranges(start, end, weights);
    lemma_boundaries(start, end, weights, 0);
    lemma_boundaries(start, end, weights, weights.len() as int);
    assert forall|i: int| 0 <= i < weights.len() implies #[trigger] ranges[i].0 < ranges[i].1 by {
        lemma_boundaries(start, end, weights, i);
        lemma_boundaries(start, end, weights, i + 1);
    }
}

/// Splits the cue range `start_ms..end_ms` into one range per weight, in
/// order, each at least one millisecond long, with the spare time distributed
/// in proportion to the running weight (see [`partition_boundary`]).
///
/// Fails with `InvalidMedia` when the range is reversed, and with
/// `ResourceLimitExceeded` when there are no weights, fewer milliseconds than
/// weights, or a running total of the weights is zero or overflows.
pub fn partition_time_range(
    start_ms: u64,
    end_ms: u64,
    weights: &[u64],
    operation: MediaOperation,
) -> (result: Result<Vec<(u64, u64)>, MediaServiceError>)
    ensures
        match result {
            Ok(ranges) => partition_accepted(start_ms as int, end_ms as int, weights@)
                && ranges@ == partition_ranges(start_ms as int, end_ms as int, weights@),
            Err(error) => !partition_accepted(start_ms as int, end_ms as int, weights@)
                && error.operation == operation
                && (error.code == MediaErrorCode::InvalidMedia <==> end_ms < start_ms)
                && (error.code == MediaErrorCode::InvalidMedia
                    || error.code == MediaErrorCode::ResourceLimitExceeded),
        },
{
    if end_ms < start_ms {
        return Err(MediaServiceError::new(
            MediaErrorCode::InvalidMedia,
            operation,
            "字幕 cue 时间范围无效。",
        ));
    }
    let duration = end_ms - start_ms;
    let count = weights.len();
    if count == 0 || (duration as u128) < (count as u128) {
        return Err(MediaServiceError::new(
            MediaErrorCode::ResourceLimitExceeded,
            operation,
            "字幕 cue 时长不足以生成非零估算 timing mappings。",
        ));
    }
    let mut total: u64 = 0;
    let mut k: usize = 0;
    while k < count
        invariant
            count == weights@.len(),
            start_ms <= end_ms,
            0 <= k <= count,
            total as int == weight_prefix(weights@, k as int),
            forall|j: int| 1 <= j <= k ==> 0 < #[trigger] weight_prefix(weights@, j) <= u64::MAX,
        decreases count - k,
    {
        let weight = weights[k];
        assert(weight_prefix(weights@, k + 1) == weight_prefix(weights@, k as int) + weight);
        if total > u64::MAX - weight || total + weight == 0 {
            proof {
                assert(!(0 < weight_prefix(weights@, k + 1) <= u64::MAX));
                assert(!weights_accumulate(weights@));
            }
            return Err(MediaServiceError::new(
                MediaErrorCode::ResourceLimitExceeded,
                operation,
                "字幕 mapping 权重溢出。",
            ));
        }
        total = total + weight;
        k = k + 1;
    }
    let ghost w = weights@;
    let ghost s = start_ms as int;
    let ghost e = end_ms as int;
    assert(partition_accepted(s, e, w));
    let distributable: u64 = duration - count as u64;
    let mut cumulative: u64 = 0;
    let mut previous: u64 = start_ms;
    let mut ranges: Vec<(u64, u64)> = Vec::new();
    let mut index: usize = 0;
    proof {
        lemma_boundaries(s, e, w, 0);
    }
    while index < count
        invariant
            count == w.len(),
            partition_accepted(s, e, w),
            s == start_ms,
            e == end_ms,
            w == weights@,
            total as int == weight_prefix(w, count as int),
            distributable as int == e - s - count,
            0 <= index <= count,
            cumulative as int == weight_prefix(w, index as int),
            previous as int == partition_boundary(s, e, w, index as int),
            ranges@.len() == index,
            forall|j: int| 0 <= j < index ==> #[trigger] ranges@[j] == partition_ranges(s, e, w)[j],
        decreases count - index,
    {
        proof {
            lemma_prefix_monotone(w, index as int + 1, count as int);
            lemma_boundaries(s, e, w, index as int);
            lemma_boundaries(s, e, w, index as int + 1);
        }
        let weight = weights[index];
        assert(weight_prefix(w, index + 1) == weight_prefix(w, index as int) + weight);
        cumulative = cumulative + weight;
        let wide_spare: u128 = distributable as u128;
        let wide_cumulative: u128 = cumulative as u128;
        assert(wide_spare * wide_cumulative <= u128::MAX) by (nonlinear_arith)
            requires
                wide_spare <= u64::MAX,
                wide_cumulative <= u64::MAX;
        let product: u128 = wide_spare * wide_cumulative;
        let quotient: u128 = product / (total as u128);
        proof {
            lemma_scaled_bounds(distributable as int, cumulative as int, total as int);
        }
        let distributed: u64 = quotient as u64;
        let boundary: u64 = if index + 1 == count {
            end_ms
        } else {
            start_ms + index as u64 + 1 + distributed
        };
        assert(boundary as int == partition_boundary(s, e, w, index as int + 1));
        ranges.push((previous, boundary));
        previous = boundary;
        index = index + 1;
    }
    assert(ranges@ =~= partition_ranges(s, e, w));
    Ok(ranges)
}

} // verus!
