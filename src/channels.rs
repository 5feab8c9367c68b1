use vstd::prelude::*;

use crate::object_path::{is_timestamp_channel, is_timestamp_path};
use crate::tdms_lead_in::LeadIn;
use crate::tdms_metadata::{objects_view, Metadata};
use crate::tdms_object::{ObjectView, RawDataIndex, RawDataIndexView, TdmsObject};
use crate::tdms_parse_error::TdmsParseError;
use crate::util::{
    available, i64_of_bits, read_i64, read_u32, read_unified_timestamp, u32_of, u64_of,
    unified_timestamp, ByteReader,
};

verus! {

/// The index of the first object whose path is that of the timestamp channel.
pub open spec fn find_timestamp(objs: Seq<ObjectView>) -> Option<int>
    decreases objs.len(),
{
    if objs.len() == 0 {
        None
    } else {
        match find_timestamp(objs.drop_last()) {
            Some(i) => Some(i),
            None => if is_timestamp_path(objs.last().path) { Some(objs.len() - 1) } else { None },
        }
    }
}

/// The value count that an object's raw data index gives in full, if it does.
pub open spec fn new_index_chunk(o: ObjectView) -> Option<u64> {
    match o.raw_data_index {
        RawDataIndexView::NewDataIndex(x) => Some(x.chunk_size),
        _ => None,
    }
}

/// The value count of the timestamp channel: from the first object named `'timestamp'`.
pub open spec fn timestamp_chunk(objs: Seq<ObjectView>) -> Option<u64> {
    match find_timestamp(objs) {
        Some(i) => new_index_chunk(objs[i]),
        None => None,
    }
}

/// The value count of the index and header channels: from the segment's first object.
pub open spec fn first_chunk(objs: Seq<ObjectView>) -> Option<u64> {
    if objs.len() > 0 { new_index_chunk(objs[0]) } else { None }
}

/// The `k`-th 64-bit value at `p`.
pub open spec fn u64_item(d: Seq<u8>, p: int, big: bool, k: int) -> u64 {
    u64_of(d.subrange(p + 8 * k, p + 8 * k + 8), big)
}

/// The `k`-th 32-bit value at `p`.
pub open spec fn u32_item(d: Seq<u8>, p: int, big: bool, k: int) -> u32 {
    u32_of(d.subrange(p + 4 * k, p + 4 * k + 4), big)
}

/// The timestamp channel's raw data at `p`: records of four unified
/// timestamps (relative start and end, absolute start and end), `chunk`
/// values in all, each with its flag bits cleared.
pub open spec fn dec_timestamps(d: Seq<u8>, p: int, big: bool, objs: Seq<ObjectView>) -> Result<(Seq<u64>, int), TdmsParseError> {
    match timestamp_chunk(objs) {
        None => Err(TdmsParseError::CannotReadTimestampChannel),
        Some(chunk) => if chunk % 4 != 0 {
            Err(TdmsParseError::ChunkSizeNotMultiple { chunk_size: chunk, stride: 4 })
        } else if available(d, p, 8 * chunk) {
            Ok((Seq::new(chunk as nat, |k: int| unified_timestamp(u64_item(d, p, big, k))), p + 8 * chunk))
        } else {
            Err(TdmsParseError::UnexpectedEndOfData)
        },
    }
}

/// The index channel's raw data at `p`: (start, end) pairs of signed 64-bit
/// values, `chunk` values in all.
pub open spec fn dec_indices(d: Seq<u8>, p: int, big: bool, objs: Seq<ObjectView>) -> Result<(Seq<i64>, int), TdmsParseError> {
    match first_chunk(objs) {
        None => Err(TdmsParseError::CannotReadIndexChannel),
        Some(chunk) => if chunk % 2 != 0 {
            Err(TdmsParseError::ChunkSizeNotMultiple { chunk_size: chunk, stride: 2 })
        } else if available(d, p, 8 * chunk) {
            Ok((Seq::new(chunk as nat, |k: int| i64_of_bits(u64_item(d, p, big, k))), p + 8 * chunk))
        } else {
            Err(TdmsParseError::UnexpectedEndOfData)
        },
    }
}

/// The header channel's raw data at `p`: (state, frame number) pairs of
/// 32-bit values, `chunk` values in all, split into the two columns.
pub open spec fn dec_headers(d: Seq<u8>, p: int, big: bool, objs: Seq<ObjectView>) -> Result<((Seq<u32>, Seq<u32>), int), TdmsParseError> {
    match first_chunk(objs) {
        None => Err(TdmsParseError::CannotReadHeaderChannel),
        Some(chunk) => if chunk % 2 != 0 {
            Err(TdmsParseError::ChunkSizeNotMultiple { chunk_size: chunk, stride: 2 })
        } else if available(d, p, 4 * chunk) {
            Ok((
                (
                    Seq::new((chunk / 2) as nat, |k: int| u32_item(d, p, big, 2 * k)),
                    Seq::new((chunk / 2) as nat, |k: int| u32_item(d, p, big, 2 * k + 1)),
                ),
                p + 4 * chunk,
            ))
        } else {
            Err(TdmsParseError::UnexpectedEndOfData)
        },
    }
}

/// The first object of the segment that is the timestamp channel.
pub fn get_raw_data_index(metadata: &Metadata) -> (r: Option<&TdmsObject>)
    ensures
        match r {
            Some(o) => find_timestamp(objects_view(metadata.objects@)) matches Some(i) && 0 <= i < metadata.objects@.len()
                && metadata.objects@[i] == *o,
            None => find_timestamp(objects_view(metadata.objects@)) is None,
        },
{
    let objs = &metadata.objects;
    let ghost v = objects_view(objs@);
    let mut i: usize = 0;
    while i < objs.len()
        invariant
            i <= objs@.len(),
            objs@ == metadata.objects@,
            v == objects_view(objs@),
            find_timestamp(v.subrange(0, i as int)) is None,
        decreases objs.len() - i,
    {
        assert(v.subrange(0, i + 1).drop_last() =~= v.subrange(0, i as int));
        if is_timestamp_channel(&objs[i]) {
            proof {
                assert(v.subrange(0, i + 1).last() == v[i as int]);
                assert(v[i as int] == objs@[i as int]@);
                assert(find_timestamp(v.subrange(0, i + 1)) == Some(i as int));
                lemma_find_timestamp_prefix(v, i + 1);
            }
            return Some(&objs[i]);
        }
        i = i + 1;
    }
    assert(v.subrange(0, i as int) =~= v);
    None
}

proof fn lemma_find_timestamp_prefix(objs: Seq<ObjectView>, n: int)
    requires
        0 <= n <= objs.len(),
        find_timestamp(objs.subrange(0, n)) is Some,
    ensures
        find_timestamp(objs) == find_timestamp(objs.subrange(0, n)),
        find_timestamp(objs).unwrap() < n,
    decreases objs.len() - n,
{
    lemma_find_timestamp_bound(objs.subrange(0, n));
    if n < objs.len() {
        assert(objs.subrange(0, n + 1).drop_last() =~= objs.subrange(0, n));
        lemma_find_timestamp_prefix(objs, n + 1);
    } else {
        assert(objs.subrange(0, n) =~= objs);
    }
}

proof fn lemma_find_timestamp_bound(objs: Seq<ObjectView>)
    ensures
        find_timestamp(objs) matches Some(i) ==> 0 <= i < objs.len(),
    decreases objs.len(),
{
    if objs.len() > 0 {
        lemma_find_timestamp_bound(objs.drop_last());
    }
}

/// The value count of an object whose raw data index is given in full.
fn chunk_of(o: &TdmsObject) -> (r: Option<u64>)
    ensures
        r == new_index_chunk(o@),
{
    match &o.raw_data_index {
        RawDataIndex::NewDataIndex(x) => Some(x.chunk_size),
        _ => None,
    }
}

/// Whether `n` values of `width` bytes are left after the reader's position.
fn fits(reader: &ByteReader, n: u64, width: u64) -> (r: bool)
    requires
        1 <= width <= 8,
    ensures
        r == available(reader.data@, reader.pos as int, width * n),
{
    let p = reader.pos;
    if p > reader.data.len() {
        return false;
    }
    let left = (reader.data.len() - p) as u64;
    let ok = n <= left / width;
    proof {
        if ok {
            assert(width * n <= left) by (nonlinear_arith)
                requires n <= left / width, width >= 1;
        } else {
            assert(width * n > left) by (nonlinear_arith)
                requires n > left / width, width >= 1;
        }
    }
    ok
}

/// Reads the timestamp channel of a segment, at the reader's position.
pub fn read_timestamps(reader: &mut ByteReader, lead_in: &LeadIn, metadata: &Metadata) -> (r: Result<Vec<u64>, TdmsParseError>)
    ensures
        final(reader).data@ == old(reader).data@,
        match r {
            Ok(v) => dec_timestamps(old(reader).data@, old(reader).pos as int, lead_in.is_toc_big_endian, metadata@.objects)
                == Ok::<(Seq<u64>, int), TdmsParseError>((v@, final(reader).pos as int)),
            Err(e) => dec_timestamps(old(reader).data@, old(reader).pos as int, lead_in.is_toc_big_endian, metadata@.objects)
                == Err::<(Seq<u64>, int), TdmsParseError>(e)
                && final(reader).pos == old(reader).pos,
        },
{
    let big = lead_in.is_toc_big_endian;
    let ghost objs = metadata@.objects;
    let found = get_raw_data_index(metadata);
    let chunk = match found {
        Some(o) => {
            proof {
                let i = find_timestamp(objs).unwrap();
                lemma_find_timestamp_bound(objs);
                assert(objs[i] == o@);
            }
            match chunk_of(o) {
                Some(c) => c,
                None => { return Err(TdmsParseError::CannotReadTimestampChannel); },
            }
        },
        None => { return Err(TdmsParseError::CannotReadTimestampChannel); },
    };
    assert(timestamp_chunk(objs) == Some(chunk));
    if chunk % 4 != 0 {
        return Err(TdmsParseError::ChunkSizeNotMultiple { chunk_size: chunk, stride: 4 });
    }
    if !fits(reader, chunk, 8) {
        return Err(TdmsParseError::UnexpectedEndOfData);
    }
    let ghost d = reader.data@;
    let ghost p = reader.pos as int;
    let mut out: Vec<u64> = Vec::new();
    let mut k: u64 = 0;
    while k < chunk
        invariant
            k <= chunk,
            reader.data@ == d,
            d == old(reader).data@,
            p == old(reader).pos as int,
            available(d, p, 8 * chunk),
            reader.pos == p + 8 * k,
            out@ == Seq::new(k as nat, |j: int| unified_timestamp(u64_item(d, p, big, j))),
        decreases chunk - k,
    {
        match read_unified_timestamp(reader, big) {
            Ok(x) => { out.push(x); },
            Err(_) => {
                assert(false);
                return Err(TdmsParseError::UnexpectedEndOfData);
            },
        }
        assert(out@ =~= Seq::new((k + 1) as nat, |j: int| unified_timestamp(u64_item(d, p, big, j))));
        k = k + 1;
    }
    Ok(out)
}

/// Reads the index channel of a segment, at the reader's position.
pub fn read_indices(reader: &mut ByteReader, lead_in: &LeadIn, metadata: &Metadata) -> (r: Result<Vec<i64>, TdmsParseError>)
    ensures
        final(reader).data@ == old(reader).data@,
        match r {
            Ok(v) => dec_indices(old(reader).data@, old(reader).pos as int, lead_in.is_toc_big_endian, metadata@.objects)
                == Ok::<(Seq<i64>, int), TdmsParseError>((v@, final(reader).pos as int)),
            Err(e) => dec_indices(old(reader).data@, old(reader).pos as int, lead_in.is_toc_big_endian, metadata@.objects)
                == Err::<(Seq<i64>, int), TdmsParseError>(e)
                && final(reader).pos == old(reader).pos,
        },
{
    let big = lead_in.is_toc_big_endian;
    if metadata.objects.len() == 0 {
        return Err(TdmsParseError::CannotReadIndexChannel);
    }
    let chunk = match chunk_of(&metadata.objects[0]) {
        Some(c) => c,
        None => { return Err(TdmsParseError::CannotReadIndexChannel); },
    };
    if chunk % 2 != 0 {
        return Err(TdmsParseError::ChunkSizeNotMultiple { chunk_size: chunk, stride: 2 });
    }
    if !fits(reader, chunk, 8) {
        return Err(TdmsParseError::UnexpectedEndOfData);
    }
    let ghost d = reader.data@;
    let ghost p = reader.pos as int;
    let mut out: Vec<i64> = Vec::new();
    let mut k: u64 = 0;
    while k < chunk
        invariant
            k <= chunk,
            reader.data@ == d,
            d == old(reader).data@,
            p == old(reader).pos as int,
            available(d, p, 8 * chunk),
            reader.pos == p + 8 * k,
            out@ == Seq::new(k as nat, |j: int| i64_of_bits(u64_item(d, p, big, j))),
        decreases chunk - k,
    {
        match read_i64(reader, big) {
            Ok(x) => { out.push(x); },
            Err(_) => {
                assert(false);
                return Err(TdmsParseError::UnexpectedEndOfData);
            },
        }
        assert(out@ =~= Seq::new((k + 1) as nat, |j: int| i64_of_bits(u64_item(d, p, big, j))));
        k = k + 1;
    }
    Ok(out)
}

/// Reads the header channel of a segment, at the reader's position: the
/// states and the frame numbers.
pub fn read_headers(reader: &mut ByteReader, lead_in: &LeadIn, metadata: &Metadata) -> (r: Result<(Vec<u32>, Vec<u32>), TdmsParseError>)
    ensures
        final(reader).data@ == old(reader).data@,
        match r {
            Ok((s, f)) => dec_headers(old(reader).data@, old(reader).pos as int, lead_in.is_toc_big_endian, metadata@.objects)
                == Ok::<((Seq<u32>, Seq<u32>), int), TdmsParseError>(((s@, f@), final(reader).pos as int)),
            Err(e) => dec_headers(old(reader).data@, old(reader).pos as int, lead_in.is_toc_big_endian, metadata@.objects)
                == Err::<((Seq<u32>, Seq<u32>), int), TdmsParseError>(e)
                && final(reader).pos == old(reader).pos,
        },
{
    let big = lead_in.is_toc_big_endian;
    if metadata.objects.len() == 0 {
        return Err(TdmsParseError::CannotReadHeaderChannel);
    }
    let chunk = match chunk_of(&metadata.objects[0]) {
        Some(c) => c,
        None => { return Err(TdmsParseError::CannotReadHeaderChannel); },
    };
    if chunk % 2 != 0 {
        return Err(TdmsParseError::ChunkSizeNotMultiple { chunk_size: chunk, stride: 2 });
    }
    if !fits(reader, chunk, 4) {
        return Err(TdmsParseError::UnexpectedEndOfData);
    }
    let ghost d = reader.data@;
    let ghost p = reader.pos as int;
    let count = chunk / 2;
    let mut states: Vec<u32> = Vec::new();
    let mut frame_numbers: Vec<u32> = Vec::new();
    let mut k: u64 = 0;
    while k < count
        invariant
            k <= count,
            count == chunk / 2,
            chunk % 2 == 0,
            reader.data@ == d,
            d == old(reader).data@,
            p == old(reader).pos as int,
            available(d, p, 4 * chunk),
            reader.pos == p + 8 * k,
            states@ == Seq::new(k as nat, |j: int| u32_item(d, p, big, 2 * j)),
            frame_numbers@ == Seq::new(k as nat, |j: int| u32_item(d, p, big, 2 * j + 1)),
        decreases count - k,
    {
        match read_u32(reader, big) {
            Ok(x) => { states.push(x); },
            Err(_) => {
                assert(false);
                return Err(TdmsParseError::UnexpectedEndOfData);
            },
        }
        match read_u32(reader, big) {
            Ok(x) => { frame_numbers.push(x); },
            Err(_) => {
                assert(false);
                return Err(TdmsParseError::UnexpectedEndOfData);
            },
        }
        assert(states@ =~= Seq::new((k + 1) as nat, |j: int| u32_item(d, p, big, 2 * j)));
        assert(frame_numbers@ =~= Seq::new((k + 1) as nat, |j: int| u32_item(d, p, big, 2 * j + 1)));
        k = k + 1;
    }
    Ok((states, frame_numbers))
}

} // verus!
