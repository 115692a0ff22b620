//! Average, minimum and maximum of the elapsed times in the statistics window.
use vstd::prelude::*;
use crate::time_span::GpuCpuTimeSpan;

verus! {

/// Statistics of one sample over the whole window, per clock.
#[derive(Debug, Clone, Copy, PartialEq, Eq, Structural)]
pub struct GpuCpuStats {
    pub gpu_elapsed_avg: u64,
    pub gpu_elapsed_min: u64,
    pub gpu_elapsed_max: u64,
    pub cpu_elapsed_avg: u64,
    pub cpu_elapsed_min: u64,
    pub cpu_elapsed_max: u64,
}

/// Sum of all values.
pub open spec fn sum_of(values: Seq<u64>) -> int
    decreases values.len(),
{
    if values.len() == 0 {
        0
    } else {
        sum_of(values.drop_last()) + values.last()
    }
}

/// Smallest of the values; zero for an empty sequence.
pub open spec fn min_of(values: Seq<u64>) -> u64
    decreases values.len(),
{
    if values.len() == 0 {
        0
    } else if values.len() == 1 {
        values[0]
    } else {
        let before = min_of(values.drop_last());
        if values.last() < before {
            values.last()
        } else {
            before
        }
    }
}

/// Largest of the values; zero for an empty sequence.
pub open spec fn max_of(values: Seq<u64>) -> u64
    decreases values.len(),
{
    if values.len() == 0 {
        0
    } else if values.len() == 1 {
        values[0]
    } else {
        let before = max_of(values.drop_last());
        if values.last() > before {
            values.last()
        } else {
            before
        }
    }
}

/// Mean of the values, rounded down.
pub open spec fn average_of(values: Seq<u64>) -> int
    recommends
        values.len() > 0,
{
    sum_of(values) / (values.len() as int)
}

/// The minimum and the maximum are values of the sequence and bound every value of it;
/// the sum lies between `len * min` and `len * max`, so the average lies between the
/// minimum and the maximum.
pub proof fn lemma_min_max_average(values: Seq<u64>)
    requires
        values.len() > 0,
    ensures
        forall|i: int| 0 <= i < values.len() ==> min_of(values) <= #[trigger] values[i] <= max_of(values),
        exists|i: int| 0 <= i < values.len() && values[i] == min_of(values),
        exists|i: int| 0 <= i < values.len() && values[i] == max_of(values),
        values.len() * min_of(values) <= sum_of(values) <= values.len() * max_of(values),
        min_of(values) <= average_of(values) <= max_of(values),
    decreases values.len(),
{
    let n = values.len() as int;
    let lo = min_of(values) as int;
    let hi = max_of(values) as int;
    if values.len() == 1 {
        assert(values.drop_last().len() == 0);
        assert(sum_of(values.drop_last()) == 0);
        assert(values.last() == values[0]);
        assert(values[0] == min_of(values));
        assert(values[0] == max_of(values));
    } else {
        let before = values.drop_last();
        lemma_min_max_average(before);
        let i_min = choose|i: int| 0 <= i < before.len() && before[i] == min_of(before);
        let i_max = choose|i: int| 0 <= i < before.len() && before[i] == max_of(before);
        assert(values[i_min] == before[i_min]);
        assert(values[i_max] == before[i_max]);
        assert(values[n - 1] == values.last());
        assert forall|i: int| 0 <= i < values.len() implies lo <= #[trigger] values[i] <= hi by {
            if i < n - 1 {
                assert(values[i] == before[i]);
            }
        }
        let w_min = if values.last() < min_of(before) {
            n - 1
        } else {
            i_min
        };
        assert(values[w_min] == min_of(values));
        let w_max = if values.last() > max_of(before) {
            n - 1
        } else {
            i_max
        };
        assert(values[w_max] == max_of(values));
        assert(n * lo <= sum_of(values) <= n * hi) by (nonlinear_arith)
            requires
                (n - 1) * (min_of(before) as int) <= sum_of(before) <= (n - 1) * (max_of(before) as int),
                sum_of(values) == sum_of(before) + (values.last() as int),
                lo <= min_of(before),
                lo <= values.last(),
                hi >= max_of(before),
                hi >= values.last(),
                n >= 2,
        ;
    }
    let total = sum_of(values);
    assert(lo <= total / n <= hi) by (nonlinear_arith)
        requires
            n * lo <= total <= n * hi,
            n > 0,
    ;
}

/// The elapsed times of a sample on both clocks, one entry per window row that holds a span.
pub open spec fn cpu_deltas(column: Seq<Option<GpuCpuTimeSpan>>) -> Seq<u64> {
    Seq::new(column.len(), |i: int| column[i]->0.cpu.spec_delta())
}

pub open spec fn gpu_deltas(column: Seq<Option<GpuCpuTimeSpan>>) -> Seq<u64> {
    Seq::new(column.len(), |i: int| column[i]->0.gpu.spec_delta())
}

/// Whether every row of the window holds a span for the sample.
pub open spec fn window_full(column: Seq<Option<GpuCpuTimeSpan>>) -> bool {
    forall|i: int| 0 <= i < column.len() ==> (#[trigger] column[i]) is Some
}

/// The statistics of a sample whose entries in the window are `column`: nothing unless
/// every row holds a span.
pub open spec fn stats_of(column: Seq<Option<GpuCpuTimeSpan>>) -> Option<GpuCpuStats> {
    if window_full(column) && column.len() > 0 {
        Some(
            GpuCpuStats {
                gpu_elapsed_avg: average_of(gpu_deltas(column)) as u64,
                gpu_elapsed_min: min_of(gpu_deltas(column)),
                gpu_elapsed_max: max_of(gpu_deltas(column)),
                cpu_elapsed_avg: average_of(cpu_deltas(column)) as u64,
                cpu_elapsed_min: min_of(cpu_deltas(column)),
                cpu_elapsed_max: max_of(cpu_deltas(column)),
            },
        )
    } else {
        None
    }
}

/// Average (rounded down), minimum and maximum of `values`.
pub fn summarize(values: &Vec<u64>) -> (summary: (u64, u64, u64))
    requires
        values@.len() > 0,
    ensures
        summary.0 == average_of(values@),
        summary.1 == min_of(values@),
        summary.2 == max_of(values@),
{
    let mut total: u128 = values[0] as u128;
    let mut lo: u64 = values[0];
    let mut hi: u64 = values[0];
    let mut i: usize = 1;
    assert(values@.take(1).drop_last().len() == 0);
    assert(sum_of(values@.take(1).drop_last()) == 0);
    while i < values.len()
        invariant
            1 <= i <= values@.len(),
            total == sum_of(values@.take(i as int)),
            total <= i * u64::MAX,
            lo == min_of(values@.take(i as int)),
            hi == max_of(values@.take(i as int)),
        decreases values@.len() - i,
    {
        let value: u64 = values[i];
        proof {
            assert(values@.take(i + 1).drop_last() =~= values@.take(i as int));
            assert(values@.take(i + 1).last() == value);
            assert((i + 1) * u64::MAX == i * u64::MAX + u64::MAX) by (nonlinear_arith);
            assert(i * u64::MAX <= usize::MAX * u64::MAX) by (nonlinear_arith)
                requires
                    i <= usize::MAX,
            ;
        }
        total = total + value as u128;
        if value < lo {
            lo = value;
        }
        if value > hi {
            hi = value;
        }
        i = i + 1;
    }
    proof {
        assert(values@.take(values@.len() as int) =~= values@);
        lemma_min_max_average(values@);
    }
    let count: u128 = values.len() as u128;
    let avg: u128 = total / count;
    (avg as u64, lo, hi)
}

} // verus!
