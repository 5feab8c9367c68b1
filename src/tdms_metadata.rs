use vstd::prelude::*;

use crate::decimal::{decimal_chars, to_decimal};
use crate::tdms_datatype::{datatype_of_code, TdmsDataType};
use crate::tdms_object::{
    properties_view, DaqFormatChangingScaler, DaqmxScaler, DaqmxScalerView, NewRawDataIndex,
    ObjectView, PropertyView, RawDataIndex, RawDataIndexView, TdmsObject, TdmsProperty,
};
use crate::tdms_parse_error::TdmsParseError;
use crate::util::{
    available, dec_bytes, dec_chars, dec_u32, dec_u64, outcome, read_string, read_u32, read_u64,
    take4, u32_from_bytes, u32_of, ByteReader,
};

verus! {

/// Raw data index tag: no raw data for the object in this segment.
pub const NO_RAW_DATA: u32 = 0xFFFF_FFFF;

/// Raw data index tag: a DAQmx index with format changing scalers.
pub const FORMAT_CHANGING_SCALER: u32 = 0x0000_1269;

/// Raw data index tag: a DAQmx index with digital line scalers.
pub const DIGITAL_LINE_SCALER: u32 = 0x0000_1369;

/// Raw data index tag: the index of the previous segment holds.
pub const SAME_AS_PREVIOUS: u32 = 0;

/// The object table of one segment.
#[derive(Debug, Clone)]
pub struct Metadata {
    pub object_number: u32,
    pub objects: Vec<TdmsObject>,
}

pub struct MetadataView {
    pub object_number: u32,
    pub objects: Seq<ObjectView>,
}

/// The views of a sequence of objects.
pub open spec fn objects_view(s: Seq<TdmsObject>) -> Seq<ObjectView> {
    s.map_values(|o: TdmsObject| o@)
}

impl View for Metadata {
    type V = MetadataView;

    open spec fn view(&self) -> MetadataView {
        MetadataView { object_number: self.object_number, objects: objects_view(self.objects@) }
    }
}

/// What a decoding step gave, seen through the view of its value.
pub open spec fn outcome_view<T: View>(r: Result<T, TdmsParseError>, pos: usize) -> Result<(T::V, int), TdmsParseError> {
    match r {
        Ok(v) => Ok((v@, pos as int)),
        Err(e) => Err(e),
    }
}

pub open spec fn dec_datatype(d: Seq<u8>, p: int, big: bool) -> Result<(TdmsDataType, int), TdmsParseError> {
    match dec_u32(d, p, big) {
        Ok((code, q)) => match datatype_of_code(code) {
            Some(t) => Ok((t, q)),
            None => Err(TdmsParseError::UnsupportedDataType { code }),
        },
        Err(e) => Err(e),
    }
}

/// A string prefixed by its length in bytes.
pub open spec fn dec_lstring(d: Seq<u8>, p: int, big: bool) -> Result<(Seq<char>, int), TdmsParseError> {
    match dec_u32(d, p, big) {
        Ok((n, q)) => dec_chars(d, q, n as int),
        Err(e) => Err(e),
    }
}

/// `n` values of 32 bits, one after the other.
pub open spec fn dec_u32_array(d: Seq<u8>, p: int, big: bool, n: nat) -> Result<(Seq<u32>, int), TdmsParseError> {
    if available(d, p, 4 * n as int) {
        Ok((Seq::new(n, |i: int| u32_of(d.subrange(p + 4 * i, p + 4 * i + 4), big)), p + 4 * n))
    } else {
        Err(TdmsParseError::UnexpectedEndOfData)
    }
}

/// The body of a raw data index given in full, after its length.
pub open spec fn dec_new_index(d: Seq<u8>, p: int, big: bool, len: u32) -> Result<(NewRawDataIndex, int), TdmsParseError> {
    match dec_datatype(d, p, big) {
        Err(e) => Err(e),
        Ok((t, q1)) => match dec_u32(d, q1, big) {
            Err(e) => Err(e),
            Ok((dim, q2)) => match dec_u64(d, q2, big) {
                Err(e) => Err(e),
                Ok((chunk, q3)) => if t == TdmsDataType::String {
                    match dec_u64(d, q3, big) {
                        Err(e) => Err(e),
                        Ok((total, q4)) => Ok((NewRawDataIndex {
                            raw_data_index_length: len,
                            datatype: t,
                            array_dimension: dim,
                            chunk_size: chunk,
                            total_size_bytes: total,
                        }, q4)),
                    }
                } else {
                    Ok((NewRawDataIndex {
                        raw_data_index_length: len,
                        datatype: t,
                        array_dimension: dim,
                        chunk_size: chunk,
                        total_size_bytes: 0,
                    }, q3))
                },
            },
        },
    }
}

/// One format changing scaler; `size` is the length of the vector it stands in.
pub open spec fn dec_scaler(d: Seq<u8>, p: int, big: bool, size: u32) -> Result<(DaqFormatChangingScaler, int), TdmsParseError> {
    match dec_datatype(d, p, big) {
        Err(e) => Err(e),
        Ok((t, q)) => if available(d, q, 16) {
            Ok((DaqFormatChangingScaler {
                size,
                datatype: t,
                raw_buffer_index: u32_of(d.subrange(q, q + 4), big),
                raw_byte_offset_within_stride: u32_of(d.subrange(q + 4, q + 8), big),
                sample_format_bitmap: u32_of(d.subrange(q + 8, q + 12), big),
                scale_id: u32_of(d.subrange(q + 12, q + 16), big),
            }, q + 16))
        } else {
            Err(TdmsParseError::UnexpectedEndOfData)
        },
    }
}

/// The scaler vector: its length, then its one entry if it has one. A vector
/// of more than one scaler is refused.
pub open spec fn dec_scalers(d: Seq<u8>, p: int, big: bool) -> Result<((u32, Seq<DaqFormatChangingScaler>), int), TdmsParseError> {
    match dec_u32(d, p, big) {
        Err(e) => Err(e),
        Ok((n, q)) => if n > 1 {
            Err(TdmsParseError::UnsupportedScalerCount { count: n })
        } else if n == 1 {
            match dec_scaler(d, q, big, n) {
                Err(e) => Err(e),
                Ok((s, q2)) => Ok(((n, seq![s]), q2)),
            }
        } else {
            Ok(((n, seq![]), q))
        },
    }
}

/// The raw data width vector: its length, then its entries.
pub open spec fn dec_widths(d: Seq<u8>, p: int, big: bool) -> Result<((u32, Seq<u32>), int), TdmsParseError> {
    match dec_u32(d, p, big) {
        Err(e) => Err(e),
        Ok((n, q)) => match dec_u32_array(d, q, big, n as nat) {
            Err(e) => Err(e),
            Ok((w, q2)) => Ok(((n, w), q2)),
        },
    }
}

/// The body of a DAQmx raw data index with format changing scalers.
pub open spec fn dec_daqmx(d: Seq<u8>, p: int, big: bool) -> Result<(DaqmxScalerView, int), TdmsParseError> {
    match dec_u32(d, p, big) {
        Err(e) => Err(e),
        Ok((code, q1)) => if code != 0xFFFF_FFFF {
            Err(TdmsParseError::IncorrectDataTypeInDaqmxRawDataIndex)
        } else {
            match dec_u32(d, q1, big) {
                Err(e) => Err(e),
                Ok((dim, q2)) => match dec_u64(d, q2, big) {
                    Err(e) => Err(e),
                    Ok((chunk, q3)) => match dec_scalers(d, q3, big) {
                        Err(e) => Err(e),
                        Ok(((n, scalers), q4)) => match dec_widths(d, q4, big) {
                            Err(e) => Err(e),
                            Ok(((w, widths), q5)) => Ok((DaqmxScalerView {
                                datatype: TdmsDataType::DAQmxRawData,
                                array_dimension: dim,
                                chunk_size: chunk,
                                scalers_size: n,
                                scalers,
                                raw_data_size: w,
                                raw_data_vector: widths,
                            }, q5)),
                        },
                    },
                },
            }
        },
    }
}

/// A raw data index. Its first four bytes, read least significant first, tell
/// the variant; any value that is not one of the tags is the length of an
/// index given in full, read in the segment's byte order.
pub open spec fn dec_raw_data_index(d: Seq<u8>, p: int, big: bool) -> Result<(RawDataIndexView, int), TdmsParseError> {
    match dec_bytes(d, p, 4) {
        Err(e) => Err(e),
        Ok((b, q)) => {
            let tag = u32_of(b, false);
            if tag == NO_RAW_DATA {
                Ok((RawDataIndexView::NoRawData, q))
            } else if tag == FORMAT_CHANGING_SCALER {
                match dec_daqmx(d, q, big) {
                    Err(e) => Err(e),
                    Ok((x, q2)) => Ok((RawDataIndexView::Daqmx(x), q2)),
                }
            } else if tag == DIGITAL_LINE_SCALER {
                Err(TdmsParseError::UnsupportedDigitalLineScaler)
            } else if tag == SAME_AS_PREVIOUS {
                Ok((RawDataIndexView::SameAsPrevious, q))
            } else {
                match dec_new_index(d, q, big, u32_of(b, big)) {
                    Err(e) => Err(e),
                    Ok((x, q2)) => Ok((RawDataIndexView::NewDataIndex(x), q2)),
                }
            }
        },
    }
}

/// A property's value: strings are kept, `u32` and `u64` kept in decimal, a
/// timestamp (16 bytes) and any other type (4 bytes) skipped.
pub open spec fn dec_property_value(d: Seq<u8>, p: int, big: bool, t: TdmsDataType) -> Result<(Seq<char>, int), TdmsParseError> {
    if t == TdmsDataType::String {
        dec_lstring(d, p, big)
    } else if t == TdmsDataType::TimeStamp {
        match dec_bytes(d, p, 16) {
            Err(e) => Err(e),
            Ok((_, q)) => Ok((seq![], q)),
        }
    } else if t == TdmsDataType::U64 {
        match dec_u64(d, p, big) {
            Err(e) => Err(e),
            Ok((v, q)) => Ok((decimal_chars(v as nat), q)),
        }
    } else if t == TdmsDataType::U32 {
        match dec_u32(d, p, big) {
            Err(e) => Err(e),
            Ok((v, q)) => Ok((decimal_chars(v as nat), q)),
        }
    } else {
        match dec_bytes(d, p, 4) {
            Err(e) => Err(e),
            Ok((_, q)) => Ok((seq![], q)),
        }
    }
}

pub open spec fn dec_property(d: Seq<u8>, p: int, big: bool) -> Result<(PropertyView, int), TdmsParseError> {
    match dec_lstring(d, p, big) {
        Err(e) => Err(e),
        Ok((name, q1)) => match dec_datatype(d, q1, big) {
            Err(e) => Err(e),
            Ok((t, q2)) => match dec_property_value(d, q2, big, t) {
                Err(e) => Err(e),
                Ok((value, q3)) => Ok((PropertyView { name, datatype: t, string_value: value }, q3)),
            },
        },
    }
}

/// `n` properties, one after the other.
pub open spec fn dec_properties(d: Seq<u8>, p: int, big: bool, n: nat) -> Result<(Seq<PropertyView>, int), TdmsParseError>
    decreases n,
{
    if n == 0 {
        Ok((seq![], p))
    } else {
        match dec_properties(d, p, big, (n - 1) as nat) {
            Err(e) => Err(e),
            Ok((s, q)) => match dec_property(d, q, big) {
                Err(e) => Err(e),
                Ok((x, q2)) => Ok((s.push(x), q2)),
            },
        }
    }
}

pub open spec fn dec_object(d: Seq<u8>, p: int, big: bool) -> Result<(ObjectView, int), TdmsParseError> {
    match dec_lstring(d, p, big) {
        Err(e) => Err(e),
        Ok((path, q1)) => match dec_raw_data_index(d, q1, big) {
            Err(e) => Err(e),
            Ok((raw, q2)) => match dec_u32(d, q2, big) {
                Err(e) => Err(e),
                Ok((n, q3)) => match dec_properties(d, q3, big, n as nat) {
                    Err(e) => Err(e),
                    Ok((props, q4)) => Ok((ObjectView {
                        path,
                        raw_data_index: raw,
                        property_size: n,
                        properties: props,
                    }, q4)),
                },
            },
        },
    }
}

/// `n` objects, one after the other.
pub open spec fn dec_objects(d: Seq<u8>, p: int, big: bool, n: nat) -> Result<(Seq<ObjectView>, int), TdmsParseError>
    decreases n,
{
    if n == 0 {
        Ok((seq![], p))
    } else {
        match dec_objects(d, p, big, (n - 1) as nat) {
            Err(e) => Err(e),
            Ok((s, q)) => match dec_object(d, q, big) {
                Err(e) => Err(e),
                Ok((x, q2)) => Ok((s.push(x), q2)),
            },
        }
    }
}

/// A segment's metadata: the object count, then the objects.
pub open spec fn dec_metadata(d: Seq<u8>, p: int, big: bool) -> Result<(MetadataView, int), TdmsParseError> {
    match dec_u32(d, p, big) {
        Err(e) => Err(e),
        Ok((n, q)) => match dec_objects(d, q, big, n as nat) {
            Err(e) => Err(e),
            Ok((objs, q2)) => Ok((MetadataView { object_number: n, objects: objs }, q2)),
        },
    }
}

proof fn lemma_properties_err_stays(d: Seq<u8>, p: int, big: bool, i: nat, n: nat)
    requires
        i <= n,
        dec_properties(d, p, big, i) is Err,
    ensures
        dec_properties(d, p, big, n) == dec_properties(d, p, big, i),
    decreases n - i,
{
    if i < n {
        lemma_properties_err_stays(d, p, big, i, (n - 1) as nat);
    }
}

proof fn lemma_objects_err_stays(d: Seq<u8>, p: int, big: bool, i: nat, n: nat)
    requires
        i <= n,
        dec_objects(d, p, big, i) is Err,
    ensures
        dec_objects(d, p, big, n) == dec_objects(d, p, big, i),
    decreases n - i,
{
    if i < n {
        lemma_objects_err_stays(d, p, big, i, (n - 1) as nat);
    }
}

fn read_datatype(reader: &mut ByteReader, big: bool) -> (r: Result<TdmsDataType, TdmsParseError>)
    ensures
        final(reader).data@ == old(reader).data@,
        outcome(r, final(reader).pos) == dec_datatype(old(reader).data@, old(reader).pos as int, big),
{
    let code = read_u32(reader, big)?;
    match TdmsDataType::from_code(code) {
        Some(t) => Ok(t),
        None => Err(TdmsParseError::UnsupportedDataType { code }),
    }
}

fn read_lstring(reader: &mut ByteReader, big: bool) -> (r: Result<String, TdmsParseError>)
    ensures
        final(reader).data@ == old(reader).data@,
        outcome_view(r, final(reader).pos) == dec_lstring(old(reader).data@, old(reader).pos as int, big),
{
    let n = read_u32(reader, big)?;
    read_string(reader, n as usize)
}

fn skip(reader: &mut ByteReader, n: usize) -> (r: Result<(), TdmsParseError>)
    ensures
        final(reader).data@ == old(reader).data@,
        match dec_bytes(old(reader).data@, old(reader).pos as int, n as int) {
            Ok((_, q)) => r is Ok && final(reader).pos == q,
            Err(e) => r == Err::<(), TdmsParseError>(e),
        },
{
    let p = reader.pos;
    if p > reader.data.len() || reader.data.len() - p < n {
        return Err(TdmsParseError::UnexpectedEndOfData);
    }
    reader.pos = p + n;
    Ok(())
}

fn read_u32_array(reader: &mut ByteReader, big: bool, n: u32) -> (r: Result<Vec<u32>, TdmsParseError>)
    ensures
        final(reader).data@ == old(reader).data@,
        outcome_view(r, final(reader).pos) == dec_u32_array(old(reader).data@, old(reader).pos as int, big, n as nat),
{
    let p = reader.pos;
    if p > reader.data.len() || ((reader.data.len() - p) as u64) < 4 * (n as u64) {
        return Err(TdmsParseError::UnexpectedEndOfData);
    }
    let ghost d = reader.data@;
    let mut out: Vec<u32> = Vec::new();
    let mut i: u32 = 0;
    while i < n
        invariant
            i <= n,
            reader.data@ == d,
            d == old(reader).data@,
            p == old(reader).pos,
            available(d, p as int, 4 * n as int),
            reader.pos == p + 4 * i,
            out@ == Seq::new(i as nat, |k: int| u32_of(d.subrange(p + 4 * k, p + 4 * k + 4), big)),
        decreases n - i,
    {
        let v = read_u32(reader, big);
        match v {
            Ok(v) => {
                out.push(v);
            },
            Err(_) => {
                assert(false);
                return Err(TdmsParseError::UnexpectedEndOfData);
            },
        }
        assert(out@ =~= Seq::new((i + 1) as nat, |k: int| u32_of(d.subrange(p + 4 * k, p + 4 * k + 4), big)));
        i = i + 1;
    }
    Ok(out)
}

fn read_new_index(reader: &mut ByteReader, big: bool, len: u32) -> (r: Result<NewRawDataIndex, TdmsParseError>)
    ensures
        final(reader).data@ == old(reader).data@,
        outcome(r, final(reader).pos) == dec_new_index(old(reader).data@, old(reader).pos as int, big, len),
{
    let datatype = read_datatype(reader, big)?;
    let array_dimension = read_u32(reader, big)?;
    let chunk_size = read_u64(reader, big)?;
    let mut total_size_bytes: u64 = 0;
    if datatype == TdmsDataType::String {
        total_size_bytes = read_u64(reader, big)?;
    }
    Ok(NewRawDataIndex { raw_data_index_length: len, datatype, array_dimension, chunk_size, total_size_bytes })
}

fn read_scaler(reader: &mut ByteReader, big: bool, size: u32) -> (r: Result<DaqFormatChangingScaler, TdmsParseError>)
    ensures
        final(reader).data@ == old(reader).data@,
        outcome(r, final(reader).pos) == dec_scaler(old(reader).data@, old(reader).pos as int, big, size),
{
    let datatype = read_datatype(reader, big)?;
    let p = reader.pos;
    if p > reader.data.len() || reader.data.len() - p < 16 {
        return Err(TdmsParseError::UnexpectedEndOfData);
    }
    let raw_buffer_index = read_u32(reader, big)?;
    let raw_byte_offset_within_stride = read_u32(reader, big)?;
    let sample_format_bitmap = read_u32(reader, big)?;
    let scale_id = read_u32(reader, big)?;
    Ok(DaqFormatChangingScaler {
        size,
        datatype,
        raw_buffer_index,
        raw_byte_offset_within_stride,
        sample_format_bitmap,
        scale_id,
    })
}

fn read_daqmx(reader: &mut ByteReader, big: bool) -> (r: Result<DaqmxScaler, TdmsParseError>)
    ensures
        final(reader).data@ == old(reader).data@,
        outcome_view(r, final(reader).pos) == dec_daqmx(old(reader).data@, old(reader).pos as int, big),
{
    let ghost d = reader.data@;
    let code = read_u32(reader, big)?;
    if code != 0xFFFF_FFFF {
        return Err(TdmsParseError::IncorrectDataTypeInDaqmxRawDataIndex);
    }
    let array_dimension = read_u32(reader, big)?;
    let chunk_size = read_u64(reader, big)?;
    let ghost q3 = reader.pos as int;
    let scalers_size = read_u32(reader, big)?;
    if scalers_size > 1 {
        return Err(TdmsParseError::UnsupportedScalerCount { count: scalers_size });
    }
    let mut scalers: Vec<DaqFormatChangingScaler> = Vec::new();
    if scalers_size == 1 {
        let s = read_scaler(reader, big, scalers_size)?;
        scalers.push(s);
    }
    assert(dec_scalers(d, q3, big) == Ok::<((u32, Seq<DaqFormatChangingScaler>), int), TdmsParseError>(((scalers_size, scalers@), reader.pos as int))) by {
        if scalers_size == 1 {
            assert(scalers@ =~= seq![scalers@[0]]);
        } else {
            assert(scalers@ =~= seq![]);
        }
    }
    let ghost q4 = reader.pos as int;
    let raw_data_size = read_u32(reader, big)?;
    let raw_data_vector = read_u32_array(reader, big, raw_data_size)?;
    assert(dec_widths(d, q4, big) == Ok::<((u32, Seq<u32>), int), TdmsParseError>(((raw_data_size, raw_data_vector@), reader.pos as int)));
    Ok(DaqmxScaler {
        datatype: TdmsDataType::DAQmxRawData,
        array_dimension,
        chunk_size,
        scalers_size,
        scalers,
        raw_data_size,
        raw_data_vector,
    })
}

fn read_raw_data_index(reader: &mut ByteReader, big: bool) -> (r: Result<RawDataIndex, TdmsParseError>)
    ensures
        final(reader).data@ == old(reader).data@,
        outcome_view(r, final(reader).pos) == dec_raw_data_index(old(reader).data@, old(reader).pos as int, big),
{
    let b = take4(reader)?;
    let tag = u32_from_bytes(b, false);
    if tag == NO_RAW_DATA {
        Ok(RawDataIndex::NoRawData)
    } else if tag == FORMAT_CHANGING_SCALER {
        let x = read_daqmx(reader, big)?;
        Ok(RawDataIndex::Daqmx(x))
    } else if tag == DIGITAL_LINE_SCALER {
        Err(TdmsParseError::UnsupportedDigitalLineScaler)
    } else if tag == SAME_AS_PREVIOUS {
        Ok(RawDataIndex::SameAsPrevious)
    } else {
        let x = read_new_index(reader, big, u32_from_bytes(b, big))?;
        Ok(RawDataIndex::NewDataIndex(x))
    }
}

fn read_property(reader: &mut ByteReader, big: bool) -> (r: Result<TdmsProperty, TdmsParseError>)
    ensures
        final(reader).data@ == old(reader).data@,
        outcome_view(r, final(reader).pos) == dec_property(old(reader).data@, old(reader).pos as int, big),
{
    let ghost d = reader.data@;
    let name = read_lstring(reader, big)?;
    let datatype = read_datatype(reader, big)?;
    let ghost q2 = reader.pos as int;
    let string_value = if datatype == TdmsDataType::String {
        read_lstring(reader, big)?
    } else if datatype == TdmsDataType::TimeStamp {
        skip(reader, 16)?;
        String::new()
    } else if datatype == TdmsDataType::U64 {
        let v = read_u64(reader, big)?;
        to_decimal(v)
    } else if datatype == TdmsDataType::U32 {
        let v = read_u32(reader, big)?;
        to_decimal(v as u64)
    } else {
        skip(reader, 4)?;
        String::new()
    };
    assert(dec_property_value(d, q2, big, datatype) == Ok::<(Seq<char>, int), TdmsParseError>((string_value@, reader.pos as int))) by {
        if datatype != TdmsDataType::String && datatype != TdmsDataType::U64 && datatype != TdmsDataType::U32 {
            assert(string_value@ =~= seq![]);
        }
    }
    Ok(TdmsProperty { name, datatype, string_value })
}

fn read_properties(reader: &mut ByteReader, big: bool, n: u32) -> (r: Result<Vec<TdmsProperty>, TdmsParseError>)
    ensures
        final(reader).data@ == old(reader).data@,
        match r {
            Ok(v) => dec_properties(old(reader).data@, old(reader).pos as int, big, n as nat) == Ok::<(Seq<PropertyView>, int), TdmsParseError>((properties_view(v@), final(reader).pos as int)),
            Err(e) => dec_properties(old(reader).data@, old(reader).pos as int, big, n as nat) == Err::<(Seq<PropertyView>, int), TdmsParseError>(e),
        },
{
    let ghost d = reader.data@;
    let ghost q = reader.pos as int;
    let mut properties: Vec<TdmsProperty> = Vec::new();
    assert(properties_view(properties@) =~= seq![]);
    let mut i: u32 = 0;
    while i < n
        invariant
            i <= n,
            reader.data@ == d,
            d == old(reader).data@,
            q == old(reader).pos as int,
            dec_properties(d, q, big, i as nat) == Ok::<(Seq<PropertyView>, int), TdmsParseError>((properties_view(properties@), reader.pos as int)),
        decreases n - i,
    {
        let ghost before = properties@;
        let r = read_property(reader, big);
        match r {
            Ok(p) => {
                properties.push(p);
                assert(properties_view(properties@) =~= properties_view(before).push(p@));
            },
            Err(e) => {
                proof {
                    assert(dec_properties(d, q, big, (i + 1) as nat) == Err::<(Seq<PropertyView>, int), TdmsParseError>(e));
                    lemma_properties_err_stays(d, q, big, (i + 1) as nat, n as nat);
                }
                return Err(e);
            },
        }
        i = i + 1;
    }
    Ok(properties)
}

fn read_object(reader: &mut ByteReader, big: bool) -> (r: Result<TdmsObject, TdmsParseError>)
    ensures
        final(reader).data@ == old(reader).data@,
        outcome_view(r, final(reader).pos) == dec_object(old(reader).data@, old(reader).pos as int, big),
{
    let path = read_lstring(reader, big)?;
    let raw_data_index = read_raw_data_index(reader, big)?;
    let number_of_properties = read_u32(reader, big)?;
    let properties = read_properties(reader, big, number_of_properties)?;
    Ok(TdmsObject { path, raw_data_index, property_size: number_of_properties, properties })
}

fn read_objects(reader: &mut ByteReader, big: bool, n: u32) -> (r: Result<Vec<TdmsObject>, TdmsParseError>)
    ensures
        final(reader).data@ == old(reader).data@,
        match r {
            Ok(v) => dec_objects(old(reader).data@, old(reader).pos as int, big, n as nat) == Ok::<(Seq<ObjectView>, int), TdmsParseError>((objects_view(v@), final(reader).pos as int)),
            Err(e) => dec_objects(old(reader).data@, old(reader).pos as int, big, n as nat) == Err::<(Seq<ObjectView>, int), TdmsParseError>(e),
        },
{
    let ghost d = reader.data@;
    let ghost q = reader.pos as int;
    let mut objects: Vec<TdmsObject> = Vec::new();
    assert(objects_view(objects@) =~= seq![]);
    let mut i: u32 = 0;
    while i < n
        invariant
            i <= n,
            reader.data@ == d,
            d == old(reader).data@,
            q == old(reader).pos as int,
            dec_objects(d, q, big, i as nat) == Ok::<(Seq<ObjectView>, int), TdmsParseError>((objects_view(objects@), reader.pos as int)),
        decreases n - i,
    {
        let ghost before = objects@;
        let r = read_object(reader, big);
        match r {
            Ok(o) => {
                objects.push(o);
                assert(objects_view(objects@) =~= objects_view(before).push(o@));
            },
            Err(e) => {
                proof {
                    assert(dec_objects(d, q, big, (i + 1) as nat) == Err::<(Seq<ObjectView>, int), TdmsParseError>(e));
                    lemma_objects_err_stays(d, q, big, (i + 1) as nat, n as nat);
                }
                return Err(e);
            },
        }
        i = i + 1;
    }
    Ok(objects)
}

impl Metadata {
    /// Reads a segment's metadata at the reader's position, in the byte order
    /// that the segment's lead-in gives.
    pub fn read(reader: &mut ByteReader, is_toc_big_endian: bool) -> (r: Result<Metadata, TdmsParseError>)
        ensures
            final(reader).data@ == old(reader).data@,
            outcome_view(r, final(reader).pos) == dec_metadata(old(reader).data@, old(reader).pos as int, is_toc_big_endian),
    {
        let object_number = read_u32(reader, is_toc_big_endian)?;
        let objects = read_objects(reader, is_toc_big_endian, object_number)?;
        Ok(Metadata { object_number, objects })
    }
}

} // verus!
