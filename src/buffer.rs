//! The buffered fraction of the media: how far the buffered range around the
//! playback position reaches.
use vstd::prelude::*;

verus! {

/// A buffered range `[start, end)` of media time, in microseconds.
pub type TimeRange = (u64, u64);

/// Whether `range` holds media time `time`.
pub open spec fn covers(range: TimeRange, time: int) -> bool {
    range.0 <= time < range.1
}

/// The index of the last range in `ranges` that holds `time`, if any.
pub open spec fn last_covering(ranges: Seq<TimeRange>, time: int) -> Option<int>
    decreases ranges.len(),
{
    if ranges.len() == 0 {
        None
    } else if covers(ranges.last(), time) {
        Some(ranges.len() - 1)
    } else {
        last_covering(ranges.drop_last(), time)
    }
}

/// The index of the last range in `ranges` that holds `time`, if any:
/// ranges are looked at from last to first.
pub fn find_covering(ranges: &Vec<TimeRange>, time: u64) -> (r: Option<usize>)
    ensures
        match r {
            Some(i) => last_covering(ranges@, time as int) == Some(i as int),
            None => last_covering(ranges@, time as int) is None,
        },
        r matches Some(i) ==> i < ranges.len() && covers(ranges@[i as int], time as int),
{
    let mut i: usize = ranges.len();
    assert(ranges@.subrange(0, i as int) =~= ranges@);
    while i > 0
        invariant
            i <= ranges.len(),
            last_covering(ranges@, time as int) == last_covering(
                ranges@.subrange(0, i as int),
                time as int,
            ),
        decreases i,
    {
        let range = ranges[i - 1];
        let ghost prefix = ranges@.subrange(0, i as int);
        assert(prefix.drop_last() =~= ranges@.subrange(0, i - 1));
        if range.0 <= time && time < range.1 {
            return Some(i - 1);
        }
        i = i - 1;
    }
    None
}

/// The buffered fraction `end / total`, kept as its two parts. It lies in `[0, 1]`.
#[derive(Clone, Copy, Debug, PartialEq, Eq, Structural)]
pub struct Fraction {
    pub end: u64,
    pub total: u64,
}

impl Fraction {
    /// A denominator that is positive and a numerator no larger.
    pub open spec fn wf(self) -> bool {
        0 < self.total && self.end <= self.total
    }

    /// Nothing buffered: `0 / 1`.
    pub fn zero() -> (r: Fraction)
        ensures
            r == (Fraction { end: 0, total: 1 }),
            r.wf(),
    {
        Fraction { end: 0, total: 1 }
    }
}

/// The buffered fraction after a buffering notification: the end of the last
/// range that holds `time`, over `duration`, with the end capped at the
/// duration. With no such range, or with a duration that is unknown or zero,
/// the fraction is `previous`.
pub open spec fn spec_preloaded(
    previous: Fraction,
    ranges: Seq<TimeRange>,
    time: int,
    duration: Option<u64>,
) -> Fraction {
    match duration {
        Some(d) if d > 0 => match last_covering(ranges, time) {
            Some(i) => Fraction {
                end: if ranges[i].1 <= d {
                    ranges[i].1
                } else {
                    d
                },
                total: d,
            },
            None => previous,
        },
        _ => previous,
    }
}

/// The buffered fraction after a buffering notification: see `spec_preloaded`.
pub fn preloaded(previous: Fraction, ranges: &Vec<TimeRange>, time: u64, duration: Option<u64>) -> (r:
    Fraction)
    ensures
        r == spec_preloaded(previous, ranges@, time as int, duration),
        previous.wf() ==> r.wf(),
{
    match duration {
        Some(d) if d > 0 => match find_covering(ranges, time) {
            Some(i) => {
                let end = ranges[i].1;
                Fraction { end: if end <= d { end } else { d }, total: d }
            },
            None => previous,
        },
        _ => previous,
    }
}

} // verus!
