use vstd::prelude::*;

use crate::tdms_parse_error::TdmsParseError;
use crate::util::{available, read_u32, read_u64, take4, u32_from_bytes, u32_of, u64_of, ByteReader};

verus! {

/// The size of a segment's lead-in, from which every offset in it counts.
pub const LEAD_IN_SIZE: u64 = 28;

/// The tag that opens every segment: the bytes `T`, `D`, `S`, `m`, read least
/// significant first.
pub const TDMS_TAG: u32 = 0x6D53_4454;

/// The fixed header of a segment.
#[derive(Debug, Clone, Copy, PartialEq, Eq, Structural)]
pub struct LeadIn {
    pub toc_mask: u32,
    pub version: u32,
    pub next_segment_offset: u64,
    pub raw_data_offset: u64,
    pub contains_metadata: bool,
    pub contains_raw_data: bool,
    pub contains_daqmx_raw_data: bool,
    pub is_raw_data_in_segment_interleaved: bool,
    pub is_toc_big_endian: bool,
    pub contains_new_object_list: bool,
}

/// The lead-in whose 28 bytes start at `p`; the table of contents is always
/// little-endian, and its big-endian bit sets the order of the fields after it.
pub open spec fn lead_in_at(d: Seq<u8>, p: int) -> LeadIn {
    let toc = u32_of(d.subrange(p + 4, p + 8), false);
    let big = toc & 64 != 0;
    LeadIn {
        toc_mask: toc,
        version: u32_of(d.subrange(p + 8, p + 12), big),
        next_segment_offset: u64_of(d.subrange(p + 12, p + 20), big),
        raw_data_offset: u64_of(d.subrange(p + 20, p + 28), big),
        contains_metadata: toc & 2 != 0,
        contains_new_object_list: toc & 4 != 0,
        contains_raw_data: toc & 8 != 0,
        is_raw_data_in_segment_interleaved: toc & 32 != 0,
        is_toc_big_endian: big,
        contains_daqmx_raw_data: toc & 128 != 0,
    }
}

/// The four bytes at `p` are the segment tag.
pub open spec fn tag_at(d: Seq<u8>, p: int) -> bool {
    u32_of(d.subrange(p, p + 4), false) == TDMS_TAG
}

/// Decoding a lead-in: the tag is checked before anything after it is needed.
pub open spec fn dec_lead_in(d: Seq<u8>, p: int) -> Result<(LeadIn, int), TdmsParseError> {
    if !available(d, p, 4) {
        Err(TdmsParseError::UnexpectedEndOfData)
    } else if !tag_at(d, p) {
        Err(TdmsParseError::IncorrectTdmsTag)
    } else if !available(d, p, 28) {
        Err(TdmsParseError::UnexpectedEndOfData)
    } else {
        Ok((lead_in_at(d, p), p + 28))
    }
}

impl LeadIn {
    /// Reads the lead-in at the reader's position.
    pub fn read(reader: &mut ByteReader) -> (r: Result<LeadIn, TdmsParseError>)
        ensures
            final(reader).data@ == old(reader).data@,
            match r {
                Ok(l) => dec_lead_in(old(reader).data@, old(reader).pos as int) == Ok::<(LeadIn, int), TdmsParseError>((l, final(reader).pos as int)),
                Err(e) => {
                    &&& dec_lead_in(old(reader).data@, old(reader).pos as int) == Err::<(LeadIn, int), TdmsParseError>(e)
                    &&& e == TdmsParseError::IncorrectTdmsTag ==> final(reader).pos == old(reader).pos + 4
                },
            },
    {
        let tag = take4(reader)?;
        if u32_from_bytes(tag, false) != TDMS_TAG {
            return Err(TdmsParseError::IncorrectTdmsTag);
        }
        let toc = take4(reader)?;
        let toc_mask = u32_from_bytes(toc, false);
        let is_toc_big_endian = toc_mask & 64 != 0;
        let version = read_u32(reader, is_toc_big_endian)?;
        let next_segment_offset = read_u64(reader, is_toc_big_endian)?;
        let raw_data_offset = read_u64(reader, is_toc_big_endian)?;
        Ok(LeadIn {
            toc_mask,
            version,
            next_segment_offset,
            raw_data_offset,
            contains_metadata: toc_mask & 2 != 0,
            contains_new_object_list: toc_mask & 4 != 0,
            contains_raw_data: toc_mask & 8 != 0,
            is_raw_data_in_segment_interleaved: toc_mask & 32 != 0,
            is_toc_big_endian,
            contains_daqmx_raw_data: toc_mask & 128 != 0,
        })
    }
}

/// A segment whose first four bytes are not the tag is refused on those four
/// bytes alone: whatever follows them, and however short the data is after them.
pub proof fn lemma_bad_tag_fails_first(d: Seq<u8>, e: Seq<u8>, p: int)
    requires
        available(d, p, 4),
        !tag_at(d, p),
        available(e, p, 4),
        e.subrange(p, p + 4) == d.subrange(p, p + 4),
    ensures
        dec_lead_in(d, p) == Err::<(LeadIn, int), TdmsParseError>(TdmsParseError::IncorrectTdmsTag),
        dec_lead_in(e, p) == Err::<(LeadIn, int), TdmsParseError>(TdmsParseError::IncorrectTdmsTag),
{
}

} // verus!
