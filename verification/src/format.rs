//! Stream format descriptors and their comparison.

use crate::rate::{lemma_sub_unit_bits_do_not_count, SampleRate, EXPONENT_UNIT};
use vstd::arithmetic::power2::pow2;
use vstd::prelude::*;

verus! {

/// A stream format: sample rate, encoding and the geometry of packets and
/// frames. A descriptor always holds every field.
#[derive(Clone, Copy, Debug, PartialEq, Eq, Structural)]
pub struct StreamFormat {
    pub sample_rate: SampleRate,
    pub format_id: u32,
    pub format_flags: u32,
    pub bytes_per_packet: u32,
    pub frames_per_packet: u32,
    pub bytes_per_frame: u32,
    pub channels_per_frame: u32,
    pub bits_per_channel: u32,
}

impl StreamFormat {
    /// Whether every field but the sample rate is the same in both.
    pub open spec fn same_layout(self, other: StreamFormat) -> bool {
        &&& self.format_id == other.format_id
        &&& self.format_flags == other.format_flags
        &&& self.bytes_per_packet == other.bytes_per_packet
        &&& self.frames_per_packet == other.frames_per_packet
        &&& self.bytes_per_frame == other.bytes_per_frame
        &&& self.channels_per_frame == other.channels_per_frame
        &&& self.bits_per_channel == other.bits_per_channel
    }

    /// Equality for reconfiguration: the same number of whole Hz and the same
    /// layout.
    pub open spec fn matches(self, other: StreamFormat) -> bool {
        self.sample_rate.hz() == other.sample_rate.hz() && self.same_layout(other)
    }

    /// The descriptor with another sample rate.
    pub open spec fn with_rate(self, rate: SampleRate) -> StreamFormat {
        StreamFormat { sample_rate: rate, ..self }
    }
}

/// Whether two descriptors are equal for reconfiguration: the sample rates
/// agree in whole Hz and all other fields agree exactly.
pub fn formats_equal(left: &StreamFormat, right: &StreamFormat) -> (equal: bool)
    ensures
        equal == left.matches(*right),
{
    left.sample_rate.same_hz(&right.sample_rate) && left.format_id == right.format_id
        && left.format_flags == right.format_flags && left.bytes_per_packet
        == right.bytes_per_packet && left.frames_per_packet == right.frames_per_packet
        && left.bytes_per_frame == right.bytes_per_frame && left.channels_per_frame
        == right.channels_per_frame && left.bits_per_channel == right.bits_per_channel
}

/// Descriptors that differ only in their sample rates, and there only below
/// the whole Hertz, are equal.
pub proof fn lemma_sub_hertz_noise_is_ignored(format: StreamFormat, noisy_rate: SampleRate)
    requires
        noisy_rate.hz() == format.sample_rate.hz(),
    ensures
        format.matches(format.with_rate(noisy_rate)),
        format.with_rate(noisy_rate).matches(format),
{
}

/// Jitter in the sample rate does not make descriptors unequal: a descriptor
/// equals the one that differs from it only in the bits of the rate that
/// stand behind the binary point.
pub proof fn lemma_jitter_is_ignored(format: StreamFormat, jittered: SampleRate)
    requires
        1023 <= format.sample_rate.exponent() <= EXPONENT_UNIT,
        format.sample_rate.bits as nat / pow2(format.sample_rate.sub_unit_bits())
            == jittered.bits as nat / pow2(format.sample_rate.sub_unit_bits()),
    ensures
        format.matches(format.with_rate(jittered)),
        format.with_rate(jittered).matches(format),
{
    lemma_sub_unit_bits_do_not_count(format.sample_rate, jittered);
}

/// Descriptors that are equal agree in every field but the sample rate: a
/// difference in any one of them makes the descriptors unequal.
pub proof fn lemma_layout_mismatch_is_strict(left: StreamFormat, right: StreamFormat)
    ensures
        left.format_id != right.format_id ==> !left.matches(right),
        left.format_flags != right.format_flags ==> !left.matches(right),
        left.bytes_per_packet != right.bytes_per_packet ==> !left.matches(right),
        left.frames_per_packet != right.frames_per_packet ==> !left.matches(right),
        left.bytes_per_frame != right.bytes_per_frame ==> !left.matches(right),
        left.channels_per_frame != right.channels_per_frame ==> !left.matches(right),
        left.bits_per_channel != right.bits_per_channel ==> !left.matches(right),
{
}

/// The comparison is an equivalence: reflexive, symmetric and transitive.
pub proof fn lemma_matches_is_equivalence(a: StreamFormat, b: StreamFormat, c: StreamFormat)
    ensures
        a.matches(a),
        a.matches(b) ==> b.matches(a),
        a.matches(b) && b.matches(c) ==> a.matches(c),
{
}

} // verus!
