use vstd::prelude::*;

use crate::output::Data;
use crate::tdms_parse_error::TdmsParseError;

verus! {

/// The absolute value of a raw index: its sign is not part of the offset.
pub open spec fn magnitude(x: i64) -> int {
    if x < 0 { -(x as int) } else { x as int }
}

/// A frame's byte offset in the file: its start index, made absolute, past
/// the start of the data region.
pub open spec fn frame_byte_offset(base: u64, start: i64) -> int {
    magnitude(start) + base
}

/// A frame's size: how far apart its start and end indices are, both made absolute.
pub open spec fn frame_size_of(start: i64, end: i64) -> int {
    let d = magnitude(end) - magnitude(start);
    if d >= 0 { d } else { -d }
}

/// The three channels hold the same number of frames: two index values, four
/// timestamps and one header record per frame.
pub open spec fn counts_agree(n_index: int, n_timestamp: int, n_header: int) -> bool {
    n_index / 2 == n_timestamp / 4 && n_index / 2 == n_header
}

/// Every frame's byte offset fits in 64 bits.
pub open spec fn offsets_fit(base: u64, indices: Seq<i64>) -> bool {
    forall|i: int| 0 <= i < indices.len() / 2 ==> #[trigger] frame_byte_offset(base, indices[2 * i]) <= u64::MAX
}

fn magnitude_u64(x: i64) -> (r: u64)
    ensures
        r == magnitude(x),
{
    if x < 0 {
        ((-(x + 1)) as u64) + 1
    } else {
        x as u64
    }
}

/// Zips the three channels into frame records, as five columns. Frame `i`
/// has the byte offset of its absolute start index past `data_start_pos`, the
/// distance between its absolute start and end indices as its size, the
/// relative start timestamp of its timestamp record, and its header's state
/// and frame number. Channels of different lengths (or a header channel
/// with as many states as frame numbers) give the three lengths and no record.
pub fn correlate_frames(
    data_start_pos: u64,
    timestamps: &Vec<u64>,
    indices: &Vec<i64>,
    states: &Vec<u32>,
    frame_numbers: &Vec<u32>,
) -> (r: Result<Data, TdmsParseError>)
    ensures
        match r {
            Ok(data) => {
                let n = indices@.len() / 2;
                &&& counts_agree(indices@.len() as int, timestamps@.len() as int, states@.len() as int)
                &&& frame_numbers@.len() == states@.len()
                &&& offsets_fit(data_start_pos, indices@)
                &&& data.byte_offset@ == Seq::new(n as nat, |i: int| frame_byte_offset(data_start_pos, indices@[2 * i]) as u64)
                &&& data.frame_size@ == Seq::new(n as nat, |i: int| frame_size_of(indices@[2 * i], indices@[2 * i + 1]) as u64)
                &&& data.timestamp@ == Seq::new(n as nat, |i: int| timestamps@[4 * i])
                &&& data.state@ == states@
                &&& data.frame_number@ == frame_numbers@
            },
            Err(e) => {
                ||| (!counts_agree(indices@.len() as int, timestamps@.len() as int, states@.len() as int)
                    || frame_numbers@.len() != states@.len())
                    && e == TdmsParseError::ChannelLengthMismatch {
                        index: indices.len(),
                        timestamp: timestamps.len(),
                        header: states.len(),
                    }
                ||| counts_agree(indices@.len() as int, timestamps@.len() as int, states@.len() as int)
                    && frame_numbers@.len() == states@.len()
                    && !offsets_fit(data_start_pos, indices@)
                    && e == TdmsParseError::OffsetOutOfRange
            },
        },
{
    let count = indices.len() / 2;
    if count != timestamps.len() / 4 || count != states.len() || frame_numbers.len() != states.len() {
        return Err(TdmsParseError::ChannelLengthMismatch {
            index: indices.len(),
            timestamp: timestamps.len(),
            header: states.len(),
        });
    }
    let mut byte_offset: Vec<u64> = Vec::new();
    let mut frame_size: Vec<u64> = Vec::new();
    let mut timestamp: Vec<u64> = Vec::new();
    let mut state: Vec<u32> = Vec::new();
    let mut frame_number: Vec<u32> = Vec::new();
    let ghost base = data_start_pos;
    let mut i: usize = 0;
    while i < count
        invariant
            i <= count,
            count == indices@.len() / 2,
            count == timestamps@.len() / 4,
            count == states@.len(),
            frame_numbers@.len() == states@.len(),
            indices@.len() <= usize::MAX,
            timestamps@.len() <= usize::MAX,
            base == data_start_pos,
            forall|k: int| 0 <= k < i ==> #[trigger] frame_byte_offset(base, indices@[2 * k]) <= u64::MAX,
            byte_offset@ == Seq::new(i as nat, |k: int| frame_byte_offset(base, indices@[2 * k]) as u64),
            frame_size@ == Seq::new(i as nat, |k: int| frame_size_of(indices@[2 * k], indices@[2 * k + 1]) as u64),
            timestamp@ == Seq::new(i as nat, |k: int| timestamps@[4 * k]),
            state@ == states@.subrange(0, i as int),
            frame_number@ == frame_numbers@.subrange(0, i as int),
        decreases count - i,
    {
        let start = magnitude_u64(indices[2 * i]);
        let end = magnitude_u64(indices[2 * i + 1]);
        if start > u64::MAX - data_start_pos {
            assert(frame_byte_offset(base, indices@[2 * (i as int)]) > u64::MAX);
            return Err(TdmsParseError::OffsetOutOfRange);
        }
        byte_offset.push(start + data_start_pos);
        frame_size.push(if end >= start { end - start } else { start - end });
        timestamp.push(timestamps[4 * i]);
        state.push(states[i]);
        frame_number.push(frame_numbers[i]);
        proof {
            assert(byte_offset@ =~= Seq::new((i + 1) as nat, |k: int| frame_byte_offset(base, indices@[2 * k]) as u64));
            assert(frame_size@ =~= Seq::new((i + 1) as nat, |k: int| frame_size_of(indices@[2 * k], indices@[2 * k + 1]) as u64));
            assert(timestamp@ =~= Seq::new((i + 1) as nat, |k: int| timestamps@[4 * k]));
            assert(state@ =~= states@.subrange(0, i + 1));
            assert(frame_number@ =~= frame_numbers@.subrange(0, i + 1));
        }
        i = i + 1;
    }
    assert(state@ =~= states@);
    assert(frame_number@ =~= frame_numbers@);
    Ok(Data { byte_offset, frame_size, timestamp, state, frame_number })
}

/// A frame's byte offset is the same whichever sign its raw start index has.
pub proof fn lemma_offset_ignores_start_sign(base: u64, a: Seq<i64>, b: Seq<i64>, i: int)
    requires
        a.len() == b.len(),
        0 <= i < a.len() / 2,
        b[2 * i] as int == -(a[2 * i] as int),
    ensures
        frame_byte_offset(base, a[2 * i]) == frame_byte_offset(base, b[2 * i]),
{
}

/// A frame's size is never negative, is the end less the start once both are
/// absolute where the end is the larger, and does not depend on the signs of
/// the raw indices.
pub proof fn lemma_frame_size_of_magnitudes(start: i64, end: i64, start2: i64, end2: i64)
    requires
        magnitude(start2) == magnitude(start),
        magnitude(end2) == magnitude(end),
    ensures
        frame_size_of(start, end) >= 0,
        magnitude(end) >= magnitude(start) ==> frame_size_of(start, end) == magnitude(end) - magnitude(start),
        frame_size_of(start, end) == frame_size_of(start2, end2),
        frame_size_of(start, end) <= u64::MAX,
{
}

} // verus!
