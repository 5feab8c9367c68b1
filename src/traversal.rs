use vstd::prelude::*;

use crate::aggregator::{check_extract_metadata, fold_file_view, fold_stream_view, metadata_error, properties_at};
use crate::channels::{dec_headers, dec_indices, dec_timestamps, read_headers, read_indices, read_timestamps};
use crate::output::{
    empty_file_metadata, empty_stream_metadata, FileMetadata, FileMetadataView, StreamMetadata,
    StreamMetadataView,
};
use crate::tdms_lead_in::{dec_lead_in, LeadIn, LEAD_IN_SIZE};
use crate::tdms_metadata::{dec_metadata, Metadata, MetadataView};
use crate::tdms_parse_error::{ParseErrorView, TdmsParseError};
use crate::util::ByteReader;

verus! {

/// A segment's lead-in and its metadata, which it must have.
#[verifier::opaque]
pub open spec fn dec_segment_header(d: Seq<u8>, p: int) -> Result<((LeadIn, MetadataView), int), TdmsParseError> {
    match dec_lead_in(d, p) {
        Err(e) => Err(e),
        Ok((l, q)) => if !l.contains_metadata {
            Err(TdmsParseError::NoMetadata)
        } else {
            match dec_metadata(d, q, l.is_toc_big_endian) {
                Err(e) => Err(e),
                Ok((m, q2)) => Ok(((l, m), q2)),
            }
        },
    }
}

/// Where the segment after the one at `p` starts.
pub open spec fn next_segment(p: int, l: LeadIn) -> int {
    p + l.next_segment_offset + LEAD_IN_SIZE
}

/// The `k`-th segment (from 0), where it and all before it can be read: where
/// it starts, its lead-in, its metadata, and where its metadata ends.
pub open spec fn segment_at(d: Seq<u8>, k: nat) -> Option<(int, LeadIn, MetadataView, int)>
    decreases k,
{
    let start = if k == 0 {
        Some(0int)
    } else {
        match segment_at(d, (k - 1) as nat) {
            Some((s, l, _, _)) => Some(next_segment(s, l)),
            None => None,
        }
    };
    match start {
        None => None,
        Some(s) => match dec_segment_header(d, s) {
            Ok(((l, m), e)) => Some((s, l, m, e)),
            Err(_) => None,
        },
    }
}

/// What the channels of a file are, where its five segments can be read: the
/// data region's start (from the first segment), the timestamps (third), the
/// indices (fourth), and the states and frame numbers (fifth). The second
/// segment only carries metadata.
pub open spec fn channels_of(d: Seq<u8>) -> Option<(u64, Seq<u64>, Seq<i64>, Seq<u32>, Seq<u32>)> {
    match (segment_at(d, 0), segment_at(d, 2), segment_at(d, 3), segment_at(d, 4)) {
        (Some((_, l1, _, _)), Some((_, l3, m3, e3)), Some((_, l4, m4, e4)), Some((_, l5, m5, e5))) => {
            match (
                dec_timestamps(d, e3, l3.is_toc_big_endian, m3.objects),
                dec_indices(d, e4, l4.is_toc_big_endian, m4.objects),
                dec_headers(d, e5, l5.is_toc_big_endian, m5.objects),
            ) {
                (Ok((ts, _)), Ok((idx, _)), Ok(((st, fr), _))) => if l1.raw_data_offset + LEAD_IN_SIZE <= u64::MAX {
                    Some(((l1.raw_data_offset + LEAD_IN_SIZE) as u64, ts, idx, st, fr))
                } else {
                    None
                },
                _ => None,
            }
        },
        _ => None,
    }
}

/// Where the `k`-th segment starts, where every segment before it can be read.
pub open spec fn segment_start(d: Seq<u8>, k: nat) -> Option<int> {
    if k == 0 {
        Some(0int)
    } else {
        match segment_at(d, (k - 1) as nat) {
            Some((s, l, _, _)) => Some(next_segment(s, l)),
            None => None,
        }
    }
}

/// The error that the `k`-th segment raises, where it is reached: its header,
/// then its objects, then what its role reads (the data region's start for
/// the first, a channel for the third to the fifth).
pub open spec fn segment_error(d: Seq<u8>, k: nat) -> Option<ParseErrorView> {
    match segment_start(d, k) {
        None => None,
        Some(s) => match dec_segment_header(d, s) {
            Err(e) => Some(e@),
            Ok(((l, m), q)) => match metadata_error(m.objects) {
                Some(e) => Some(e),
                None => if k == 0 {
                    if l.raw_data_offset + LEAD_IN_SIZE > u64::MAX { Some(ParseErrorView::OffsetOutOfRange) } else { None }
                } else if k == 2 {
                    match dec_timestamps(d, q, l.is_toc_big_endian, m.objects) {
                        Err(e) => Some(e@),
                        Ok(_) => None,
                    }
                } else if k == 3 {
                    match dec_indices(d, q, l.is_toc_big_endian, m.objects) {
                        Err(e) => Some(e@),
                        Ok(_) => None,
                    }
                } else if k == 4 {
                    match dec_headers(d, q, l.is_toc_big_endian, m.objects) {
                        Err(e) => Some(e@),
                        Ok(_) => None,
                    }
                } else {
                    None
                },
            },
        },
    }
}

/// The first error met when indexing a file: the first segment, in order,
/// that raises one.
pub open spec fn parse_error(d: Seq<u8>) -> Option<ParseErrorView> {
    match segment_error(d, 0) {
        Some(e) => Some(e),
        None => match segment_error(d, 1) {
            Some(e) => Some(e),
            None => match segment_error(d, 2) {
                Some(e) => Some(e),
                None => match segment_error(d, 3) {
                    Some(e) => Some(e),
                    None => segment_error(d, 4),
                },
            },
        },
    }
}

/// The file metadata gathered from the root objects of the first `k + 1`
/// segments, in order, starting from empty fields.
pub open spec fn file_metadata_after(d: Seq<u8>, k: nat) -> FileMetadataView
    decreases k,
{
    let before = if k == 0 { empty_file_metadata() } else { file_metadata_after(d, (k - 1) as nat) };
    match segment_at(d, k) {
        Some((_, _, m, _)) => fold_file_view(before, properties_at(m.objects, "/"@)),
        None => before,
    }
}

/// The stream metadata gathered from the stream objects of the first `k + 1`
/// segments, in order, starting from empty fields.
pub open spec fn stream_metadata_after(d: Seq<u8>, k: nat) -> StreamMetadataView
    decreases k,
{
    let before = if k == 0 { empty_stream_metadata() } else { stream_metadata_after(d, (k - 1) as nat) };
    match segment_at(d, k) {
        Some((_, _, m, _)) => fold_stream_view(before, properties_at(m.objects, "/'Stream'"@)),
        None => before,
    }
}

/// Reads a segment's lead-in and metadata; a segment without metadata is refused.
pub fn read_segment_header(reader: &mut ByteReader) -> (r: Result<(LeadIn, Metadata), TdmsParseError>)
    ensures
        final(reader).data@ == old(reader).data@,
        match r {
            Ok((l, m)) => dec_segment_header(old(reader).data@, old(reader).pos as int)
                == Ok::<((LeadIn, MetadataView), int), TdmsParseError>(((l, m@), final(reader).pos as int)),
            Err(e) => {
                &&& dec_segment_header(old(reader).data@, old(reader).pos as int)
                    == Err::<((LeadIn, MetadataView), int), TdmsParseError>(e)
                &&& match dec_lead_in(old(reader).data@, old(reader).pos as int) {
                    Ok((l, q)) => !l.contains_metadata ==> final(reader).pos == q,
                    Err(_) => true,
                }
            },
        },
{
    reveal(dec_segment_header);
    let lead_in = LeadIn::read(reader)?;
    if lead_in.contains_metadata {
        let metadata = Metadata::read(reader, lead_in.is_toc_big_endian)?;
        Ok((lead_in, metadata))
    } else {
        Err(TdmsParseError::NoMetadata)
    }
}

/// Moves the reader to the segment after the one that started at `start`.
fn seek_next_segment(reader: &mut ByteReader, start: u64, lead_in: &LeadIn) -> (r: Result<u64, TdmsParseError>)
    ensures
        final(reader).data@ == old(reader).data@,
        match r {
            Ok(p) => p == next_segment(start as int, *lead_in) && final(reader).pos == p,
            Err(e) => next_segment(start as int, *lead_in) > old(reader).data@.len()
                && e == TdmsParseError::UnexpectedEndOfData,
        },
{
    let len = reader.data.len() as u64;
    if start > len || lead_in.next_segment_offset > len - start || LEAD_IN_SIZE > len - start - lead_in.next_segment_offset {
        return Err(TdmsParseError::UnexpectedEndOfData);
    }
    let target = start + lead_in.next_segment_offset + LEAD_IN_SIZE;
    reader.pos = target as usize;
    Ok(target)
}

proof fn lemma_header_past_end(d: Seq<u8>)
    ensures
        forall|q: int| q > d.len() ==> #[trigger] dec_segment_header(d, q)
            == Err::<((LeadIn, MetadataView), int), TdmsParseError>(TdmsParseError::UnexpectedEndOfData),
{
    reveal(dec_segment_header);
}

/// Reads the `k`-th segment's header, where the reader stands at its start,
/// and checks its objects and takes in their metadata.
fn take_segment(
    reader: &mut ByteReader,
    file_metadata: &mut FileMetadata,
    stream_metadata: &mut StreamMetadata,
    Ghost(k): Ghost<nat>,
) -> (r: Result<(LeadIn, Metadata), TdmsParseError>)
    requires
        k == 0 ==> old(reader).pos == 0,
        k > 0 ==> (segment_at(old(reader).data@, (k - 1) as nat) matches Some((s, l, _, _))
            && old(reader).pos as int == next_segment(s, l)),
    ensures
        final(reader).data@ == old(reader).data@,
        match r {
            Ok((l, m)) => {
                &&& segment_at(old(reader).data@, k) == Some((old(reader).pos as int, l, m@, final(reader).pos as int))
                &&& metadata_error(m@.objects) is None
                &&& final(file_metadata)@ == fold_file_view(old(file_metadata)@, properties_at(m@.objects, "/"@))
                &&& final(stream_metadata)@ == fold_stream_view(old(stream_metadata)@, properties_at(m@.objects, "/'Stream'"@))
            },
            Err(e) => match dec_segment_header(old(reader).data@, old(reader).pos as int) {
                Err(x) => e == x,
                Ok(((_, m), _)) => metadata_error(m.objects) == Some(e@),
            },
        },
{
    let ghost d = reader.data@;
    let ghost p = reader.pos as int;
    let (lead_in, metadata) = read_segment_header(reader)?;
    assert(segment_at(d, k) == Some((p, lead_in, metadata@, reader.pos as int)));
    check_extract_metadata(&metadata, file_metadata, stream_metadata)?;
    Ok((lead_in, metadata))
}

/// Indexes a file held in memory. The five segments are visited in their
/// fixed roles: the first gives the data region's start (its raw data offset
/// past its lead-in), the third the timestamps, the fourth the indices, the
/// fifth the states and frame numbers. Each segment's objects are checked and
/// their root and stream metadata taken in, in order; anything after the
/// fifth segment is ignored.
#[verifier::rlimit(100)]
pub fn parse(data: Vec<u8>) -> (r: Result<(FileMetadata, StreamMetadata, u64, Vec<u64>, Vec<i64>, Vec<u32>, Vec<u32>), TdmsParseError>)
    ensures
        match r {
            Ok((fm, sm, base, ts, idx, st, fr)) => {
                &&& parse_error(data@) is None
                &&& channels_of(data@) == Some((base, ts@, idx@, st@, fr@))
                &&& fm@ == file_metadata_after(data@, 4)
                &&& sm@ == stream_metadata_after(data@, 4)
            },
            Err(e) => parse_error(data@) == Some(e@),
        },
{
    let ghost d = data@;
    let mut file_metadata = FileMetadata::new();
    let mut stream_metadata = StreamMetadata::new();
    let mut reader = ByteReader::new(data);
    proof { lemma_header_past_end(d); }

    let (lead_in, _metadata) = match take_segment(&mut reader, &mut file_metadata, &mut stream_metadata, Ghost(0)) {
        Ok(x) => x,
        Err(e) => {
            assert(segment_error(d, 0) == Some(e@));
            return Err(e);
        },
    };
    assert(file_metadata@ == file_metadata_after(d, 0) && stream_metadata@ == stream_metadata_after(d, 0));
    if lead_in.raw_data_offset > u64::MAX - LEAD_IN_SIZE {
        assert(segment_error(d, 0) == Some(ParseErrorView::OffsetOutOfRange));
        return Err(TdmsParseError::OffsetOutOfRange);
    }
    assert(segment_error(d, 0) is None);
    let data_start_pos = lead_in.raw_data_offset + LEAD_IN_SIZE;
    let current = match seek_next_segment(&mut reader, 0, &lead_in) {
        Ok(c) => c,
        Err(e) => {
            assert(segment_error(d, 1) == Some(e@));
            return Err(e);
        },
    };

    let (lead_in, _metadata) = match take_segment(&mut reader, &mut file_metadata, &mut stream_metadata, Ghost(1)) {
        Ok(x) => x,
        Err(e) => {
            assert(segment_error(d, 1) == Some(e@));
            return Err(e);
        },
    };
    assert(file_metadata@ == file_metadata_after(d, 1) && stream_metadata@ == stream_metadata_after(d, 1));
    assert(segment_error(d, 1) is None);
    let current = match seek_next_segment(&mut reader, current, &lead_in) {
        Ok(c) => c,
        Err(e) => {
            assert(segment_error(d, 2) == Some(e@));
            return Err(e);
        },
    };

    let (lead_in, metadata) = match take_segment(&mut reader, &mut file_metadata, &mut stream_metadata, Ghost(2)) {
        Ok(x) => x,
        Err(e) => {
            assert(segment_error(d, 2) == Some(e@));
            return Err(e);
        },
    };
    assert(file_metadata@ == file_metadata_after(d, 2) && stream_metadata@ == stream_metadata_after(d, 2));
    let timestamps = match read_timestamps(&mut reader, &lead_in, &metadata) {
        Ok(t) => t,
        Err(e) => {
            assert(segment_error(d, 2) == Some(e@));
            return Err(e);
        },
    };
    assert(segment_error(d, 2) is None);
    let current = match seek_next_segment(&mut reader, current, &lead_in) {
        Ok(c) => c,
        Err(e) => {
            assert(segment_error(d, 3) == Some(e@));
            return Err(e);
        },
    };

    let (lead_in, metadata) = match take_segment(&mut reader, &mut file_metadata, &mut stream_metadata, Ghost(3)) {
        Ok(x) => x,
        Err(e) => {
            assert(segment_error(d, 3) == Some(e@));
            return Err(e);
        },
    };
    assert(file_metadata@ == file_metadata_after(d, 3) && stream_metadata@ == stream_metadata_after(d, 3));
    let indices = match read_indices(&mut reader, &lead_in, &metadata) {
        Ok(t) => t,
        Err(e) => {
            assert(segment_error(d, 3) == Some(e@));
            return Err(e);
        },
    };
    assert(segment_error(d, 3) is None);
    let current = match seek_next_segment(&mut reader, current, &lead_in) {
        Ok(c) => c,
        Err(e) => {
            assert(segment_error(d, 4) == Some(e@));
            return Err(e);
        },
    };

    let (lead_in, metadata) = match take_segment(&mut reader, &mut file_metadata, &mut stream_metadata, Ghost(4)) {
        Ok(x) => x,
        Err(e) => {
            assert(segment_error(d, 4) == Some(e@));
            return Err(e);
        },
    };
    assert(file_metadata@ == file_metadata_after(d, 4) && stream_metadata@ == stream_metadata_after(d, 4));
    let (states, frame_numbers) = match read_headers(&mut reader, &lead_in, &metadata) {
        Ok(t) => t,
        Err(e) => {
            assert(segment_error(d, 4) == Some(e@));
            return Err(e);
        },
    };
    assert(segment_error(d, 4) is None);
    Ok((file_metadata, stream_metadata, data_start_pos, timestamps, indices, states, frame_numbers))
}

} // verus!
