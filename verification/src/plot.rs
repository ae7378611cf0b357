//! The axis ranges of the latency chart.

use vstd::prelude::*;

verus! {

/// The number of bytes in a kilobyte.
pub const KB: u64 = 1024;

/// The number of bytes in a megabyte.
pub const MB: u64 = KB * 1024;

/// The unit in which a size is shown.
#[derive(Clone, Copy, Debug, PartialEq, Eq, Structural)]
pub enum SizeUnit {
    Bytes,
    Kilobytes,
    Megabytes,
}

/// The largest unit that a size reaches.
pub open spec fn unit_of(size_in_bytes: u64) -> SizeUnit {
    if size_in_bytes >= MB {
        SizeUnit::Megabytes
    } else if size_in_bytes >= KB {
        SizeUnit::Kilobytes
    } else {
        SizeUnit::Bytes
    }
}

/// Chooses the unit in which a size is shown.
pub fn size_unit(size_in_bytes: u64) -> (unit: SizeUnit)
    ensures
        unit == unit_of(size_in_bytes),
{
    if size_in_bytes >= MB {
        SizeUnit::Megabytes
    } else if size_in_bytes >= KB {
        SizeUnit::Kilobytes
    } else {
        SizeUnit::Bytes
    }
}

/// One measured point: the average latency of requests with one payload
/// size, under the name of its series.
pub struct Measurement<'a> {
    pub name: &'a str,
    pub latency: u64,
    pub payload_size: u64,
}

/// The ranges of the two axes; each ends before its `end`.
#[derive(Clone, Copy, Debug, PartialEq, Eq, Structural)]
pub struct PlotRanges {
    pub x_start: u64,
    pub x_end: u64,
    pub y_start: u64,
    pub y_end: u64,
}

/// The latencies of a list of measurements.
pub open spec fn latencies(records: Seq<Measurement>) -> Seq<u64> {
    Seq::new(records.len(), |i: int| records[i].latency)
}

/// The payload sizes of a list of measurements.
pub open spec fn payload_sizes(records: Seq<Measurement>) -> Seq<u64> {
    Seq::new(records.len(), |i: int| records[i].payload_size)
}

/// Whether `least` is the smallest of `values`.
pub open spec fn is_smallest(values: Seq<u64>, least: u64) -> bool {
    &&& exists|i: int| 0 <= i < values.len() && values[i] == least
    &&& forall|i: int| 0 <= i < values.len() ==> least <= values[i]
}

/// Whether `most` is the largest of `values`.
pub open spec fn is_largest(values: Seq<u64>, most: u64) -> bool {
    &&& exists|i: int| 0 <= i < values.len() && values[i] == most
    &&& forall|i: int| 0 <= i < values.len() ==> values[i] <= most
}

/// The room left below the lowest and above the highest latency: a tenth of
/// their distance, but no more than the lowest latency itself.
pub open spec fn padding(y_min: u64, y_max: u64) -> int {
    let tenth = (y_max - y_min) / 10;
    if tenth <= y_min {
        tenth
    } else {
        y_min as int
    }
}

/// The ranges of a chart whose latencies lie between `y_min` and `y_max` and
/// whose largest payload has the size `x_max`.
pub open spec fn ranges_from(y_min: u64, y_max: u64, x_max: u64) -> PlotRanges {
    PlotRanges {
        x_start: 1,
        x_end: x_max,
        y_start: (y_min - padding(y_min, y_max)) as u64,
        y_end: (y_max + padding(y_min, y_max)) as u64,
    }
}

/// Whether `ranges` are the ranges of the chart of `records`.
pub open spec fn ranges_of(records: Seq<Measurement>, ranges: PlotRanges) -> bool {
    exists|y_min: u64, y_max: u64, x_max: u64|
        #![trigger ranges_from(y_min, y_max, x_max)]
        is_smallest(latencies(records), y_min) && is_largest(latencies(records), y_max)
            && is_largest(payload_sizes(records), x_max) && y_max + padding(y_min, y_max)
            <= u64::MAX && ranges == ranges_from(y_min, y_max, x_max)
}

/// Whether a chart of `records` has ranges: there is a measurement, and the
/// upper end of the latency axis fits in 64 bits.
pub open spec fn plottable(records: Seq<Measurement>) -> bool {
    exists|ranges: PlotRanges| ranges_of(records, ranges)
}

/// The axis ranges of the chart of `records`: payload sizes from 1 to the
/// largest, latencies from the lowest to the highest with padding on both
/// sides. `None` where there is no measurement or the upper end of the
/// latency axis does not fit in 64 bits.
pub fn plot_ranges(records: &Vec<Measurement>) -> (ranges: Option<PlotRanges>)
    ensures
        match ranges {
            Some(r) => ranges_of(records@, r),
            None => !plottable(records@),
        },
{
    if records.len() == 0 {
        assert forall|r: PlotRanges| !ranges_of(records@, r) by {}
        return None;
    }
    let mut y_min = records[0].latency;
    let mut y_max = records[0].latency;
    let mut x_max = records[0].payload_size;
    let mut i: usize = 1;
    proof {
        let first = records@.take(1);
        assert(latencies(first)[0] == y_min);
        assert(payload_sizes(first)[0] == x_max);
    }
    while i < records.len()
        invariant
            1 <= i <= records.len(),
            is_smallest(latencies(records@.take(i as int)), y_min),
            is_largest(latencies(records@.take(i as int)), y_max),
            is_largest(payload_sizes(records@.take(i as int)), x_max),
        decreases records.len() - i,
    {
        let ghost seen = records@.take(i as int);
        let ghost grown = records@.take(i + 1);
        let record = &records[i];
        proof {
            let a = choose|k: int| 0 <= k < latencies(seen).len() && latencies(seen)[k] == y_min;
            let b = choose|k: int| 0 <= k < latencies(seen).len() && latencies(seen)[k] == y_max;
            let c = choose|k: int|
                0 <= k < payload_sizes(seen).len() && payload_sizes(seen)[k] == x_max;
            assert(latencies(grown)[a] == y_min);
            assert(latencies(grown)[b] == y_max);
            assert(payload_sizes(grown)[c] == x_max);
            assert(latencies(grown)[i as int] == record.latency);
            assert(payload_sizes(grown)[i as int] == record.payload_size);
            assert forall|k: int| 0 <= k < i implies latencies(grown)[k] == latencies(seen)[k]
                && payload_sizes(grown)[k] == payload_sizes(seen)[k] by {}
        }
        if record.latency < y_min {
            y_min = record.latency;
        }
        if record.latency > y_max {
            y_max = record.latency;
        }
        if record.payload_size > x_max {
            x_max = record.payload_size;
        }
        i += 1;
    }
    assert(records@.take(records.len() as int) =~= records@);
    let y_diff = y_max - y_min;
    let tenth = y_diff / 10;
    let y_padding = if tenth <= y_min {
        tenth
    } else {
        y_min
    };
    proof {
        lemma_extremes_are_unique(latencies(records@), y_min, y_max);
    }
    if y_padding > u64::MAX - y_max {
        assert forall|r: PlotRanges| !ranges_of(records@, r) by {
            assert forall|low: u64, high: u64|
                is_smallest(latencies(records@), low) && is_largest(
                    latencies(records@),
                    high,
                ) implies low == y_min && high == y_max by {
                lemma_extremes_are_unique(latencies(records@), low, high);
            }
        }
        return None;
    }
    let ranges = PlotRanges {
        x_start: 1,
        x_end: x_max,
        y_start: y_min - y_padding,
        y_end: y_max + y_padding,
    };
    assert(ranges == ranges_from(y_min, y_max, x_max));
    Some(ranges)
}

/// A list has one smallest and one largest value: any two candidates agree.
pub proof fn lemma_extremes_are_unique(values: Seq<u64>, least: u64, most: u64)
    requires
        is_smallest(values, least),
        is_largest(values, most),
    ensures
        least <= most,
        forall|other: u64| is_smallest(values, other) ==> other == least,
        forall|other: u64| is_largest(values, other) ==> other == most,
{
    let a = choose|i: int| 0 <= i < values.len() && values[i] == least;
    let b = choose|i: int| 0 <= i < values.len() && values[i] == most;
    assert forall|other: u64| is_smallest(values, other) implies other == least by {
        let c = choose|i: int| 0 <= i < values.len() && values[i] == other;
        assert(least <= values[c]);
        assert(other <= values[a]);
    }
    assert forall|other: u64| is_largest(values, other) implies other == most by {
        let c = choose|i: int| 0 <= i < values.len() && values[i] == other;
        assert(values[c] <= most);
        assert(values[b] <= other);
    }
    assert(least <= values[b]);
}

} // verus!
