//! Sample rate ranges and the search for the one that a requested rate needs.

use crate::rate::SampleRate;
use vstd::prelude::*;

verus! {

/// One operating point or contiguous range of sample rates that a device
/// supports, in Hz.
#[derive(Clone, Copy, Debug, PartialEq, Eq, Structural)]
pub struct SampleRateRange {
    pub minimum: SampleRate,
    pub maximum: SampleRate,
}

impl SampleRateRange {
    /// Whether the range is the discrete rate `rate`: both ends are the same
    /// number of whole Hz as `rate`. A rate inside a wider range does not
    /// count.
    pub open spec fn is_exactly(self, rate: SampleRate) -> bool {
        self.minimum.hz() == rate.hz() && self.maximum.hz() == rate.hz()
    }

    /// Whether the range is the discrete rate `rate`.
    pub fn matches_rate(&self, rate: &SampleRate) -> (exact: bool)
        ensures
            exact == self.is_exactly(*rate),
    {
        let wanted: u32 = rate.whole_hz();
        self.minimum.whole_hz() == wanted && self.maximum.whole_hz() == wanted
    }
}

/// Whether some range of `ranges` is the discrete rate `rate`.
pub open spec fn supports_rate(ranges: Seq<SampleRateRange>, rate: SampleRate) -> bool {
    exists|i: int| 0 <= i < ranges.len() && (#[trigger] ranges[i]).is_exactly(rate)
}

/// The position of the first range of `ranges` that is the discrete rate
/// `rate`, or the length of `ranges` if there is none.
pub open spec fn first_exact_range(ranges: Seq<SampleRateRange>, rate: SampleRate) -> int
    decreases ranges.len(),
{
    if ranges.len() == 0 {
        0
    } else if ranges[0].is_exactly(rate) {
        0
    } else {
        1 + first_exact_range(ranges.drop_first(), rate)
    }
}

/// `first_exact_range` is within bounds, names a range that is the rate when
/// it names one at all, and passes over none that is.
pub proof fn lemma_first_exact_range(ranges: Seq<SampleRateRange>, rate: SampleRate)
    ensures
        0 <= first_exact_range(ranges, rate) <= ranges.len(),
        first_exact_range(ranges, rate) < ranges.len() ==> ranges[first_exact_range(
            ranges,
            rate,
        )].is_exactly(rate),
        forall|i: int|
            0 <= i < first_exact_range(ranges, rate) ==> !(#[trigger] ranges[i]).is_exactly(rate),
        supports_rate(ranges, rate) <==> first_exact_range(ranges, rate) < ranges.len(),
    decreases ranges.len(),
{
    if ranges.len() == 0 {
    } else if ranges[0].is_exactly(rate) {
    } else {
        let rest = ranges.drop_first();
        lemma_first_exact_range(rest, rate);
        let k = first_exact_range(rest, rate);
        assert forall|i: int| 0 <= i < 1 + k implies !(#[trigger] ranges[i]).is_exactly(rate) by {
            if i > 0 {
                assert(ranges[i] == rest[i - 1]);
            }
        }
        if k < rest.len() {
            assert(ranges[1 + k] == rest[k]);
        }
    }
}

/// Finds the first range that is the discrete rate `rate`. There is no
/// nearest match: `None` means that no range has both ends at the rate.
pub fn find_rate_range(ranges: &Vec<SampleRateRange>, rate: &SampleRate) -> (found: Option<usize>)
    ensures
        found is Some <==> supports_rate(ranges@, *rate),
        found matches Some(i) ==> i == first_exact_range(ranges@, *rate) && i < ranges.len()
            && ranges[i as int].is_exactly(*rate),
{
    proof {
        lemma_first_exact_range(ranges@, *rate);
    }
    let mut i: usize = 0;
    while i < ranges.len()
        invariant
            i <= ranges.len(),
            i <= first_exact_range(ranges@, *rate) <= ranges.len(),
            forall|j: int|
                0 <= j < first_exact_range(ranges@, *rate) ==> !(#[trigger] ranges@[j]).is_exactly(
                    *rate,
                ),
            first_exact_range(ranges@, *rate) < ranges.len() ==> ranges@[first_exact_range(
                ranges@,
                *rate,
            )].is_exactly(*rate),
            supports_rate(ranges@, *rate) <==> first_exact_range(ranges@, *rate) < ranges.len(),
        decreases ranges.len() - i,
    {
        if ranges[i].matches_rate(rate) {
            return Some(i);
        }
        i = i + 1;
    }
    None
}

} // verus!
