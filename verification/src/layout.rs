//! The byte layout of the lists that the platform writes into a buffer.
//!
//! A list property is read in two steps: its size in bytes is asked for, then
//! a buffer of exactly that size is filled. The buffer holds records of a
//! fixed size, one after the other, each field in little-endian byte order;
//! bytes behind the last whole record are not part of any record.

use crate::address::AudioDeviceID;
use crate::format::StreamFormat;
use crate::range::SampleRateRange;
use crate::rate::SampleRate;
use vstd::prelude::*;

verus! {

/// Size in bytes of a device id.
pub const DEVICE_ID_SIZE: usize = 4;

/// Size in bytes of a sample rate range: two doubles.
pub const RANGE_SIZE: usize = 16;

/// Size in bytes of a stream format descriptor: a double and eight 32-bit
/// fields, the last of them reserved.
pub const FORMAT_SIZE: usize = 40;

/// The 32-bit value whose little-endian bytes start at `at`.
pub open spec fn le_u32(data: Seq<u8>, at: int) -> nat {
    (data[at] + 0x100 * data[at + 1] + 0x1_0000 * data[at + 2] + 0x100_0000 * data[at + 3]) as nat
}

/// The 64-bit value whose little-endian bytes start at `at`.
pub open spec fn le_u64(data: Seq<u8>, at: int) -> nat {
    le_u32(data, at) + 0x1_0000_0000 * le_u32(data, at + 4)
}

/// The number of whole records of `size` bytes in `data`.
pub open spec fn record_count(data: Seq<u8>, size: int) -> nat {
    (data.len() as int / size) as nat
}

/// The device id in record `i`.
pub open spec fn device_id_at(data: Seq<u8>, i: int) -> AudioDeviceID {
    le_u32(data, DEVICE_ID_SIZE * i) as u32
}

/// The sample rate range in record `i`.
pub open spec fn range_at(data: Seq<u8>, i: int) -> SampleRateRange {
    SampleRateRange {
        minimum: SampleRate { bits: le_u64(data, RANGE_SIZE * i) as u64 },
        maximum: SampleRate { bits: le_u64(data, RANGE_SIZE * i + 8) as u64 },
    }
}

/// The stream format in record `i`.
pub open spec fn format_at(data: Seq<u8>, i: int) -> StreamFormat {
    let at = FORMAT_SIZE * i;
    StreamFormat {
        sample_rate: SampleRate { bits: le_u64(data, at) as u64 },
        format_id: le_u32(data, at + 8) as u32,
        format_flags: le_u32(data, at + 12) as u32,
        bytes_per_packet: le_u32(data, at + 16) as u32,
        frames_per_packet: le_u32(data, at + 20) as u32,
        bytes_per_frame: le_u32(data, at + 24) as u32,
        channels_per_frame: le_u32(data, at + 28) as u32,
        bits_per_channel: le_u32(data, at + 32) as u32,
    }
}

/// The device ids that `data` holds.
pub open spec fn device_ids_of(data: Seq<u8>) -> Seq<AudioDeviceID> {
    Seq::new(record_count(data, DEVICE_ID_SIZE as int), |i: int| device_id_at(data, i))
}

/// The sample rate ranges that `data` holds.
pub open spec fn ranges_of(data: Seq<u8>) -> Seq<SampleRateRange> {
    Seq::new(record_count(data, RANGE_SIZE as int), |i: int| range_at(data, i))
}

/// The stream formats that `data` holds.
pub open spec fn formats_of(data: Seq<u8>) -> Seq<StreamFormat> {
    Seq::new(record_count(data, FORMAT_SIZE as int), |i: int| format_at(data, i))
}

/// Reads the 32-bit little-endian value at `at`.
pub fn read_u32(data: &[u8], at: usize) -> (value: u32)
    requires
        at + 4 <= data.len(),
    ensures
        value == le_u32(data@, at as int),
{
    let b0: u32 = data[at] as u32;
    let b1: u32 = data[at + 1] as u32;
    let b2: u32 = data[at + 2] as u32;
    let b3: u32 = data[at + 3] as u32;
    b0 + 0x100 * b1 + 0x1_0000 * b2 + 0x100_0000 * b3
}

/// Reads the 64-bit little-endian value at `at`.
pub fn read_u64(data: &[u8], at: usize) -> (value: u64)
    requires
        at + 8 <= data.len(),
    ensures
        value == le_u64(data@, at as int),
{
    let low: u64 = read_u32(data, at) as u64;
    let high: u64 = read_u32(data, at + 4) as u64;
    low + 0x1_0000_0000 * high
}

/// Decodes the device ids in `data`.
pub fn decode_device_ids(data: &[u8]) -> (ids: Vec<AudioDeviceID>)
    ensures
        ids@ == device_ids_of(data@),
{
    let count: usize = data.len() / DEVICE_ID_SIZE;
    let mut ids: Vec<AudioDeviceID> = Vec::new();
    let mut i: usize = 0;
    while i < count
        invariant
            count == data.len() / DEVICE_ID_SIZE,
            i <= count,
            ids.len() == i,
            forall|j: int| 0 <= j < i ==> ids@[j] == device_id_at(data@, j),
        decreases count - i,
    {
        let id: AudioDeviceID = read_u32(data, i * DEVICE_ID_SIZE);
        ids.push(id);
        i = i + 1;
    }
    assert(ids@ =~= device_ids_of(data@));
    ids
}

/// Decodes the sample rate ranges in `data`.
pub fn decode_ranges(data: &[u8]) -> (ranges: Vec<SampleRateRange>)
    ensures
        ranges@ == ranges_of(data@),
{
    let count: usize = data.len() / RANGE_SIZE;
    let mut ranges: Vec<SampleRateRange> = Vec::new();
    let mut i: usize = 0;
    while i < count
        invariant
            count == data.len() / RANGE_SIZE,
            i <= count,
            ranges.len() == i,
            forall|j: int| 0 <= j < i ==> ranges@[j] == range_at(data@, j),
        decreases count - i,
    {
        let at: usize = i * RANGE_SIZE;
        let minimum: SampleRate = SampleRate::from_bits(read_u64(data, at));
        let maximum: SampleRate = SampleRate::from_bits(read_u64(data, at + 8));
        ranges.push(SampleRateRange { minimum, maximum });
        i = i + 1;
    }
    assert(ranges@ =~= ranges_of(data@));
    ranges
}

/// Decodes the stream formats in `data`.
pub fn decode_formats(data: &[u8]) -> (formats: Vec<StreamFormat>)
    ensures
        formats@ == formats_of(data@),
{
    let count: usize = data.len() / FORMAT_SIZE;
    let mut formats: Vec<StreamFormat> = Vec::new();
    let mut i: usize = 0;
    while i < count
        invariant
            count == data.len() / FORMAT_SIZE,
            i <= count,
            formats.len() == i,
            forall|j: int| 0 <= j < i ==> formats@[j] == format_at(data@, j),
        decreases count - i,
    {
        let at: usize = i * FORMAT_SIZE;
        let format = StreamFormat {
            sample_rate: SampleRate::from_bits(read_u64(data, at)),
            format_id: read_u32(data, at + 8),
            format_flags: read_u32(data, at + 12),
            bytes_per_packet: read_u32(data, at + 16),
            frames_per_packet: read_u32(data, at + 20),
            bytes_per_frame: read_u32(data, at + 24),
            channels_per_frame: read_u32(data, at + 28),
            bits_per_channel: read_u32(data, at + 32),
        };
        formats.push(format);
        i = i + 1;
    }
    assert(formats@ =~= formats_of(data@));
    formats
}

} // verus!
