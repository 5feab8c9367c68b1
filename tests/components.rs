use hvds_indexer::aggregator::check_extract_metadata;
use hvds_indexer::channels::{get_raw_data_index, read_headers, read_indices, read_timestamps};
use hvds_indexer::correlator::correlate_frames;
use hvds_indexer::decimal::{parse_u32, parse_u64, to_decimal};
use hvds_indexer::object_path::{
    get_channel_name, get_group_name, is_root, is_timestamp_channel, is_valid_channel, is_valid_group,
};
use hvds_indexer::output::{FileMetadata, StreamMetadata};
use hvds_indexer::tdms_datatype::TdmsDataType;
use hvds_indexer::tdms_lead_in::LeadIn;
use hvds_indexer::tdms_metadata::Metadata;
use hvds_indexer::tdms_object::{
    DaqmxScaler, NewRawDataIndex, RawDataIndex, TdmsObject, TdmsProperty,
};
use hvds_indexer::tdms_parse_error::TdmsParseError;
use hvds_indexer::traversal::read_segment_header;
use hvds_indexer::util::{
    load_part, read_i64, read_string, read_u32, read_u64, read_unified_timestamp, ByteReader,
};

fn reader(bytes: &[u8]) -> ByteReader {
    ByteReader::new(bytes.to_vec())
}

fn le32(v: u32) -> Vec<u8> {
    v.to_le_bytes().to_vec()
}

fn le64(v: u64) -> Vec<u8> {
    v.to_le_bytes().to_vec()
}

fn lstr(s: &[u8]) -> Vec<u8> {
    let mut out = le32(s.len() as u32);
    out.extend_from_slice(s);
    out
}

fn object(path: &str, props: Vec<TdmsProperty>) -> TdmsObject {
    TdmsObject {
        path: path.to_string(),
        raw_data_index: RawDataIndex::NoRawData,
        property_size: props.len() as u32,
        properties: props,
    }
}

fn prop(name: &str, value: &str) -> TdmsProperty {
    TdmsProperty { name: name.to_string(), datatype: TdmsDataType::String, string_value: value.to_string() }
}

fn metadata(objects: Vec<TdmsObject>) -> Metadata {
    Metadata { object_number: objects.len() as u32, objects }
}

fn channel(path: &str, chunk: u64) -> TdmsObject {
    TdmsObject {
        path: path.to_string(),
        raw_data_index: RawDataIndex::NewDataIndex(NewRawDataIndex {
            raw_data_index_length: 20,
            datatype: TdmsDataType::U64,
            array_dimension: 1,
            chunk_size: chunk,
            total_size_bytes: 0,
        }),
        property_size: 0,
        properties: vec![],
    }
}

fn lead_in(big: bool) -> LeadIn {
    LeadIn {
        toc_mask: if big { 64 } else { 0 },
        version: 4713,
        next_segment_offset: 0,
        raw_data_offset: 0,
        contains_metadata: true,
        contains_raw_data: true,
        contains_daqmx_raw_data: false,
        is_raw_data_in_segment_interleaved: false,
        is_toc_big_endian: big,
        contains_new_object_list: false,
    }
}

#[test]
fn reads_integers_in_both_orders() {
    let mut r = reader(&[1, 2, 3, 4, 1, 2, 3, 4]);
    assert_eq!(read_u32(&mut r, false).unwrap(), 0x0403_0201);
    assert_eq!(read_u32(&mut r, true).unwrap(), 0x0102_0304);
    assert_eq!(r.pos, 8);
    assert!(matches!(read_u32(&mut r, false), Err(TdmsParseError::UnexpectedEndOfData)));
    let mut r = reader(&[1, 2, 3, 4, 5, 6, 7, 8]);
    assert_eq!(read_u64(&mut r, true).unwrap(), 0x0102_0304_0506_0708);
    let mut r = reader(&[1, 2, 3, 4, 5, 6, 7, 8]);
    assert_eq!(read_u64(&mut r, false).unwrap(), 0x0807_0605_0403_0201);
}

#[test]
fn reads_signed_values() {
    let mut r = reader(&(-300i64).to_le_bytes());
    assert_eq!(read_i64(&mut r, false).unwrap(), -300);
    let mut r = reader(&i64::MIN.to_be_bytes());
    assert_eq!(read_i64(&mut r, true).unwrap(), i64::MIN);
}

#[test]
fn unified_timestamp_clears_two_top_bits() {
    let mut r = reader(&le64(0xFFFF_FFFF_FFFF_FFFF));
    assert_eq!(read_unified_timestamp(&mut r, false).unwrap(), 0x3FFF_FFFF_FFFF_FFFF);
    let mut r = reader(&le64(0xC000_0000_0000_1234));
    assert_eq!(read_unified_timestamp(&mut r, false).unwrap(), 0x1234);
    let mut r = reader(&le64(0x4000_0000_0000_0001));
    assert_eq!(read_unified_timestamp(&mut r, false).unwrap(), 1);
}

#[test]
fn strings_map_each_byte_to_a_character() {
    let mut r = reader(&[b'a', 0xE9, b'/', b'z']);
    assert_eq!(read_string(&mut r, 3).unwrap(), "a\u{e9}/");
    assert_eq!(r.pos, 3);
    assert!(matches!(read_string(&mut r, 2), Err(TdmsParseError::UnexpectedEndOfData)));
}

#[test]
fn load_part_stops_at_the_end() {
    let mut r = reader(&[1, 2, 3]);
    assert_eq!(load_part(&mut r, 2), vec![1, 2]);
    assert_eq!(load_part(&mut r, 5), vec![3]);
    assert_eq!(load_part(&mut r, 5), Vec::<u8>::new());
}

#[test]
fn data_type_table() {
    assert_eq!(TdmsDataType::from_code(0x20), Some(TdmsDataType::String));
    assert_eq!(TdmsDataType::from_code(0x44), Some(TdmsDataType::TimeStamp));
    assert_eq!(TdmsDataType::from_code(0x10000d), Some(TdmsDataType::ComplexDoubleFloat));
    assert_eq!(TdmsDataType::from_code(0xFFFF_FFFF), Some(TdmsDataType::DAQmxRawData));
    assert_eq!(TdmsDataType::from_code(0x0c), None);
    assert_eq!(TdmsDataType::SingleFloatWithUnit.code(), 0x19);
    assert_eq!(TdmsDataType::from_code(TdmsDataType::FixedPoint.code()), Some(TdmsDataType::FixedPoint));
}

#[test]
fn decimal_forms() {
    assert_eq!(to_decimal(0), "0");
    assert_eq!(to_decimal(18446744073709551615), "18446744073709551615");
    assert_eq!(parse_u32(&"42".to_string()), Some(42));
    assert_eq!(parse_u32(&"+007".to_string()), Some(7));
    assert_eq!(parse_u32(&"4294967295".to_string()), Some(u32::MAX));
    assert_eq!(parse_u32(&"4294967296".to_string()), None);
    assert_eq!(parse_u32(&"".to_string()), None);
    assert_eq!(parse_u32(&"+".to_string()), None);
    assert_eq!(parse_u32(&"-1".to_string()), None);
    assert_eq!(parse_u32(&"1a".to_string()), None);
    assert_eq!(parse_u64(&"18446744073709551615".to_string()), Some(u64::MAX));
    assert_eq!(parse_u64(&"18446744073709551616".to_string()), None);
}

fn lead_in_bytes(toc: u32, big: bool) -> Vec<u8> {
    let mut b = b"TDSm".to_vec();
    b.extend(le32(toc));
    if big {
        b.extend(4713u32.to_be_bytes());
        b.extend(300u64.to_be_bytes());
        b.extend(200u64.to_be_bytes());
    } else {
        b.extend(le32(4713));
        b.extend(le64(300));
        b.extend(le64(200));
    }
    b
}

#[test]
fn lead_in_in_both_orders() {
    let mut r = reader(&lead_in_bytes(2 | 8 | 64, true));
    let l = LeadIn::read(&mut r).unwrap();
    assert!(l.is_toc_big_endian && l.contains_metadata && l.contains_raw_data);
    assert!(!l.contains_new_object_list && !l.contains_daqmx_raw_data);
    assert_eq!((l.version, l.next_segment_offset, l.raw_data_offset), (4713, 300, 200));
    assert_eq!(r.pos, 28);
    let mut r = reader(&lead_in_bytes(2 | 4 | 32 | 128, false));
    let l = LeadIn::read(&mut r).unwrap();
    assert!(!l.is_toc_big_endian && l.contains_new_object_list && l.is_raw_data_in_segment_interleaved);
    assert!(l.contains_daqmx_raw_data && !l.contains_raw_data);
    assert_eq!((l.version, l.next_segment_offset, l.raw_data_offset), (4713, 300, 200));
}

#[test]
fn bad_tag_fails_before_the_header() {
    let mut r = reader(b"mSDT");
    assert!(matches!(LeadIn::read(&mut r), Err(TdmsParseError::IncorrectTdmsTag)));
    let mut bytes = lead_in_bytes(2, false);
    bytes[3] = b'M';
    let mut r = reader(&bytes);
    assert!(matches!(LeadIn::read(&mut r), Err(TdmsParseError::IncorrectTdmsTag)));
    let mut r = reader(b"TDSm\x02\x00");
    assert!(matches!(LeadIn::read(&mut r), Err(TdmsParseError::UnexpectedEndOfData)));
    let mut r = reader(b"TD");
    assert!(matches!(LeadIn::read(&mut r), Err(TdmsParseError::UnexpectedEndOfData)));
}

fn metadata_bytes() -> Vec<u8> {
    let mut b = le32(4);
    // a root object with properties of several types
    b.extend(lstr(b"/"));
    b.extend([0xff, 0xff, 0xff, 0xff]);
    b.extend(le32(5));
    b.extend(lstr(b"name"));
    b.extend(le32(0x20));
    b.extend(lstr(b"drive"));
    b.extend(lstr(b"LoggerVersionMajor"));
    b.extend(le32(0x7));
    b.extend(le32(12));
    b.extend(lstr(b"SplitStartTime"));
    b.extend(le32(0x8));
    b.extend(le64(1234567890123));
    b.extend(lstr(b"when"));
    b.extend(le32(0x44));
    b.extend(le64(1));
    b.extend(le64(2));
    b.extend(lstr(b"flag"));
    b.extend(le32(0x3));
    b.extend(le32(9));
    // a group that reuses its index
    b.extend(lstr(b"/'Stream'"));
    b.extend([0, 0, 0, 0]);
    b.extend(le32(0));
    // a string channel with a full index
    b.extend(lstr(b"/'Stream'/'data'"));
    b.extend(le32(28));
    b.extend(le32(0x20));
    b.extend(le32(1));
    b.extend(le64(3));
    b.extend(le64(99));
    b.extend(le32(0));
    // a DAQmx channel with one scaler and two widths
    b.extend(lstr(b"/'Stream'/'index'"));
    b.extend([0x69, 0x12, 0, 0]);
    b.extend(le32(0xFFFF_FFFF));
    b.extend(le32(1));
    b.extend(le64(6));
    b.extend(le32(1));
    b.extend(le32(0x3));
    b.extend(le32(0));
    b.extend(le32(4));
    b.extend(le32(0));
    b.extend(le32(7));
    b.extend(le32(2));
    b.extend(le32(4));
    b.extend(le32(8));
    b.extend(le32(0));
    b
}

#[test]
fn metadata_objects_and_properties() {
    let bytes = metadata_bytes();
    let mut r = reader(&bytes);
    let m = Metadata::read(&mut r, false).unwrap();
    assert_eq!(r.pos, bytes.len());
    assert_eq!(m.object_number, 4);
    let root = &m.objects[0];
    assert_eq!(root.path, "/");
    assert!(matches!(root.raw_data_index, RawDataIndex::NoRawData));
    assert_eq!(root.property_size, 5);
    assert_eq!(root.properties[0].string_value, "drive");
    assert_eq!(root.properties[1].string_value, "12");
    assert_eq!(root.properties[2].string_value, "1234567890123");
    assert_eq!(root.properties[3].datatype, TdmsDataType::TimeStamp);
    assert_eq!(root.properties[3].string_value, "");
    assert_eq!(root.properties[4].datatype, TdmsDataType::I32);
    assert_eq!(root.properties[4].string_value, "");
    assert!(matches!(m.objects[1].raw_data_index, RawDataIndex::SameAsPrevious));
    match &m.objects[2].raw_data_index {
        RawDataIndex::NewDataIndex(x) => {
            assert_eq!(x.raw_data_index_length, 28);
            assert_eq!(x.datatype, TdmsDataType::String);
            assert_eq!((x.chunk_size, x.total_size_bytes), (3, 99));
        },
        _ => panic!("expected a full index"),
    }
    match &m.objects[3].raw_data_index {
        RawDataIndex::Daqmx(x) => {
            assert_eq!(x.datatype, TdmsDataType::DAQmxRawData);
            assert_eq!((x.chunk_size, x.scalers_size, x.raw_data_size), (6, 1, 2));
            assert_eq!(x.scalers[0].datatype, TdmsDataType::I32);
            assert_eq!(x.scalers[0].raw_byte_offset_within_stride, 4);
            assert_eq!(x.scalers[0].scale_id, 7);
            assert_eq!(x.raw_data_vector, vec![4, 8]);
        },
        _ => panic!("expected a DAQmx index"),
    }
}

#[test]
fn metadata_errors() {
    let mut b = le32(1);
    b.extend(lstr(b"/'Stream'/'data'"));
    b.extend([0x69, 0x13, 0, 0]);
    assert!(matches!(Metadata::read(&mut reader(&b), false), Err(TdmsParseError::UnsupportedDigitalLineScaler)));

    let mut b = le32(1);
    b.extend(lstr(b"/"));
    b.extend([0xff, 0xff, 0xff, 0xff]);
    b.extend(le32(1));
    b.extend(lstr(b"odd"));
    b.extend(le32(0x0c));
    assert!(matches!(
        Metadata::read(&mut reader(&b), false),
        Err(TdmsParseError::UnsupportedDataType { code: 0x0c })
    ));

    let mut b = le32(1);
    b.extend(lstr(b"/'Stream'/'data'"));
    b.extend([0x69, 0x12, 0, 0]);
    b.extend(le32(0x7));
    assert!(matches!(
        Metadata::read(&mut reader(&b), false),
        Err(TdmsParseError::IncorrectDataTypeInDaqmxRawDataIndex)
    ));

    let mut b = le32(1);
    b.extend(lstr(b"/'Stream'/'data'"));
    b.extend([0x69, 0x12, 0, 0]);
    b.extend(le32(0xFFFF_FFFF));
    b.extend(le32(1));
    b.extend(le64(6));
    b.extend(le32(2));
    assert!(matches!(
        Metadata::read(&mut reader(&b), false),
        Err(TdmsParseError::UnsupportedScalerCount { count: 2 })
    ));

    let b = le32(2);
    assert!(matches!(Metadata::read(&mut reader(&b), false), Err(TdmsParseError::UnexpectedEndOfData)));
}

#[test]
fn big_endian_metadata() {
    let mut b = 1u32.to_be_bytes().to_vec();
    b.extend(1u32.to_be_bytes());
    b.extend(b"/");
    b.extend([0, 0, 0, 20]);
    b.extend(7u32.to_be_bytes());
    b.extend(1u32.to_be_bytes());
    b.extend(10u64.to_be_bytes());
    b.extend(1u32.to_be_bytes());
    b.extend(4u32.to_be_bytes());
    b.extend(b"Size");
    b.extend(0x7u32.to_be_bytes());
    b.extend(65536u32.to_be_bytes());
    let m = Metadata::read(&mut reader(&b), true).unwrap();
    match &m.objects[0].raw_data_index {
        RawDataIndex::NewDataIndex(x) => {
            assert_eq!(x.raw_data_index_length, 20);
            assert_eq!(x.chunk_size, 10);
        },
        _ => panic!("expected a full index"),
    }
    assert_eq!(m.objects[0].properties[0].string_value, "65536");
}

#[test]
fn segment_header_needs_metadata() {
    let mut b = lead_in_bytes(8, false);
    b.extend(le32(0));
    assert!(matches!(read_segment_header(&mut reader(&b)), Err(TdmsParseError::NoMetadata)));
    let mut b = lead_in_bytes(2, false);
    b.extend(le32(0));
    let (l, m) = read_segment_header(&mut reader(&b)).unwrap();
    assert!(l.contains_metadata);
    assert_eq!(m.objects.len(), 0);
}

#[test]
fn object_paths() {
    let root = object("/", vec![]);
    let group = object("/'Stream'", vec![]);
    let chan = object("/'Stream'/'TimeStamp'", vec![]);
    assert!(is_root(&root) && !is_root(&group));
    assert_eq!(get_group_name(&group), Some("'Stream'".to_string()));
    assert_eq!(get_group_name(&chan), None);
    assert_eq!(get_channel_name(&chan), Some("'TimeStamp'".to_string()));
    assert_eq!(get_channel_name(&group), None);
    assert!(is_timestamp_channel(&chan));
    assert!(!is_timestamp_channel(&object("/'Stream'/'index'", vec![])));
}

#[test]
fn group_and_channel_checks() {
    assert!(!is_valid_group(&object("/", vec![])));
    assert!(!is_valid_group(&object("/'STREAM'", vec![])));
    assert!(is_valid_group(&object("/'Other'", vec![])));
    assert!(!is_valid_group(&object("/'Stream'/'data'", vec![])));
    assert!(is_valid_group(&object("", vec![])));
    assert!(is_valid_group(&object("stream", vec![])));
    assert!(is_valid_group(&object("/'Stream'/'data'/'x'", vec![])));
    assert!(!is_valid_channel(&object("/'Stream'/'Header'", vec![])));
    assert!(!is_valid_channel(&object("/'Stream'/'METADATA'", vec![])));
    assert!(is_valid_channel(&object("/'Stream'/'video'", vec![])));
    assert!(!is_valid_channel(&object("/'Other'", vec![])));
}

#[test]
fn unknown_path_shape_is_an_unexpected_group() {
    let m = metadata(vec![object("/'Stream'/'data'/'deeper'", vec![])]);
    let mut fm = FileMetadata::new();
    let mut sm = StreamMetadata::new();
    assert!(matches!(check_extract_metadata(&m, &mut fm, &mut sm), Err(TdmsParseError::UnexpectedGroup)));
    let m = metadata(vec![object("/'Stream'/'video'", vec![])]);
    assert!(matches!(check_extract_metadata(&m, &mut fm, &mut sm), Err(TdmsParseError::UnexpectedChannel)));
}

#[test]
fn metadata_is_gathered() {
    let m = metadata(vec![
        object("/", vec![
            prop("name", "drive 7"),
            prop("LoggerVersionMinor", "4"),
            prop("TDMSVersionMajor", "2"),
            prop("FutureTimeEvent", "18446744073709551615"),
            prop("CarModel", "A6"),
            prop("SplitBefore", "x.tdms"),
            prop("ZFramePath", "/z"),
        ]),
        object("/'Stream'", vec![prop("name", "cam"), prop("Codec", "h264"), prop("ChannelSubType", "front")]),
        object("/'Stream'/'data'", vec![]),
    ]);
    let mut fm = FileMetadata::new();
    fm.logger_version_major = 9;
    let mut sm = StreamMetadata::new();
    check_extract_metadata(&m, &mut fm, &mut sm).unwrap();
    assert_eq!(fm.name, "drive 7");
    assert_eq!(fm.logger_version_major, 9);
    assert_eq!(fm.logger_version_minor, 4);
    assert_eq!(fm.tdms_version_major, 2);
    assert_eq!(fm.future_time_event, u64::MAX);
    assert_eq!(fm.car_model, "A6");
    assert_eq!(fm.reference_split_before, "x.tdms");
    assert_eq!(fm.zframe_path, "/z");
    assert_eq!(sm.name, "Stream");
    assert_eq!(sm.codec, "h264");
    assert_eq!(sm.channel_sub_type, "front");
    assert_eq!(sm.sensor, "");
}

#[test]
fn unknown_root_property_names_itself() {
    let m = metadata(vec![object("/", vec![prop("name", "a"), prop("Weather", "rain")])]);
    let mut fm = FileMetadata::new();
    let mut sm = StreamMetadata::new();
    let r = check_extract_metadata(&m, &mut fm, &mut sm);
    assert_eq!(r, Err(TdmsParseError::UnexpectedProperty { property: "Weather".to_string() }));
    assert_eq!(fm.name, "");
}

#[test]
fn unknown_stream_property_names_itself() {
    let m = metadata(vec![object("/'Stream'", vec![prop("Codec", "x"), prop("Lens", "wide")])]);
    let mut fm = FileMetadata::new();
    let mut sm = StreamMetadata::new();
    let r = check_extract_metadata(&m, &mut fm, &mut sm);
    assert_eq!(r, Err(TdmsParseError::UnexpectedProperty { property: "Lens".to_string() }));
}

#[test]
fn bad_number_in_root_property() {
    let m = metadata(vec![object("/", vec![prop("LoggerVersionBuild", "12b")])]);
    let mut fm = FileMetadata::new();
    let mut sm = StreamMetadata::new();
    let r = check_extract_metadata(&m, &mut fm, &mut sm);
    assert_eq!(r, Err(TdmsParseError::InvalidPropertyValue { property: "LoggerVersionBuild".to_string() }));
}

#[test]
fn later_segment_overwrites_and_keeps() {
    let mut fm = FileMetadata::new();
    let mut sm = StreamMetadata::new();
    let first = metadata(vec![object("/", vec![prop("CarModel", "A6"), prop("CarLicensePlate", "IN-1")])]);
    let second = metadata(vec![object("/", vec![prop("CarModel", "Q7")])]);
    check_extract_metadata(&first, &mut fm, &mut sm).unwrap();
    check_extract_metadata(&second, &mut fm, &mut sm).unwrap();
    assert_eq!(fm.car_model, "Q7");
    assert_eq!(fm.car_license_plate, "IN-1");
}

#[test]
fn timestamp_channel_by_name() {
    let mut raw = Vec::new();
    for v in [0xC000_0000_0000_0001u64, 2, 3, 4] {
        raw.extend(le64(v));
    }
    let m = metadata(vec![channel("/'Stream'/'data'", 0), channel("/'Stream'/'TIMESTAMP'", 4)]);
    assert_eq!(get_raw_data_index(&m).unwrap().path, "/'Stream'/'TIMESTAMP'");
    let mut r = reader(&raw);
    assert_eq!(read_timestamps(&mut r, &lead_in(false), &m).unwrap(), vec![1, 2, 3, 4]);
    let m = metadata(vec![channel("/'Stream'/'timestamp'", 6)]);
    assert!(matches!(
        read_timestamps(&mut reader(&raw), &lead_in(false), &m),
        Err(TdmsParseError::ChunkSizeNotMultiple { chunk_size: 6, stride: 4 })
    ));
    let m = metadata(vec![channel("/'Stream'/'data'", 4)]);
    assert!(matches!(
        read_timestamps(&mut reader(&raw), &lead_in(false), &m),
        Err(TdmsParseError::CannotReadTimestampChannel)
    ));
    let m = metadata(vec![channel("/'Stream'/'timestamp'", 8)]);
    assert!(matches!(
        read_timestamps(&mut reader(&raw), &lead_in(false), &m),
        Err(TdmsParseError::UnexpectedEndOfData)
    ));
}

#[test]
fn index_and_header_channels() {
    let mut raw = Vec::new();
    for v in [100i64, -300] {
        raw.extend(v.to_be_bytes());
    }
    let m = metadata(vec![channel("/'Stream'/'index'", 2)]);
    assert_eq!(read_indices(&mut reader(&raw), &lead_in(true), &m).unwrap(), vec![100, -300]);
    let m = metadata(vec![channel("/'Stream'/'index'", 3)]);
    assert!(matches!(
        read_indices(&mut reader(&raw), &lead_in(true), &m),
        Err(TdmsParseError::ChunkSizeNotMultiple { chunk_size: 3, stride: 2 })
    ));
    assert!(matches!(
        read_indices(&mut reader(&raw), &lead_in(true), &metadata(vec![])),
        Err(TdmsParseError::CannotReadIndexChannel)
    ));
    let mut raw = Vec::new();
    for v in [1u32, 10, 2, 11] {
        raw.extend(le32(v));
    }
    let m = metadata(vec![channel("/'Stream'/'header'", 4)]);
    assert_eq!(read_headers(&mut reader(&raw), &lead_in(false), &m).unwrap(), (vec![1, 2], vec![10, 11]));
    let m = metadata(vec![object("/'Stream'/'header'", vec![])]);
    assert!(matches!(
        read_headers(&mut reader(&raw), &lead_in(false), &m),
        Err(TdmsParseError::CannotReadHeaderChannel)
    ));
}

#[test]
fn frames_from_channels() {
    let ts = vec![5, 6, 7, 8, 9, 10, 11, 12];
    let idx = vec![100, -300, 300, 500];
    let data = correlate_frames(128, &ts, &idx, &vec![1, 2], &vec![10, 11]).unwrap();
    assert_eq!(data.byte_offset, vec![228, 428]);
    assert_eq!(data.frame_size, vec![200, 200]);
    assert_eq!(data.timestamp, vec![5, 9]);
    assert_eq!(data.state, vec![1, 2]);
    assert_eq!(data.frame_number, vec![10, 11]);
}

#[test]
fn length_mismatch_gives_the_three_counts() {
    let r = correlate_frames(0, &vec![1, 2, 3, 4], &vec![1, 2, 3, 4], &vec![1, 2], &vec![3, 4]);
    assert!(matches!(r, Err(TdmsParseError::ChannelLengthMismatch { index: 4, timestamp: 4, header: 2 })));
    let r = correlate_frames(0, &vec![1; 8], &vec![1, 2, 3, 4], &vec![1], &vec![3]);
    assert!(matches!(r, Err(TdmsParseError::ChannelLengthMismatch { index: 4, timestamp: 8, header: 1 })));
}

#[test]
fn start_sign_does_not_change_offset() {
    let a = correlate_frames(28, &vec![0; 4], &vec![64, 90], &vec![0], &vec![0]).unwrap();
    let b = correlate_frames(28, &vec![0; 4], &vec![-64, 90], &vec![0], &vec![0]).unwrap();
    assert_eq!(a.byte_offset, vec![92]);
    assert_eq!(a.byte_offset, b.byte_offset);
}

#[test]
fn frame_size_is_never_negative() {
    let idx = vec![-500, 300, 100, -300, i64::MIN, i64::MAX];
    let data = correlate_frames(0, &vec![0; 12], &idx, &vec![0, 0, 0], &vec![0, 0, 0]).unwrap();
    assert_eq!(data.frame_size, vec![200, 200, 1]);
    assert_eq!(data.byte_offset, vec![500, 100, 9223372036854775808]);
}

#[test]
fn offset_overflow_is_refused() {
    let r = correlate_frames(u64::MAX - 10, &vec![0; 4], &vec![11, 12], &vec![0], &vec![0]);
    assert!(matches!(r, Err(TdmsParseError::OffsetOutOfRange)));
    let ok = correlate_frames(u64::MAX - 10, &vec![0; 4], &vec![-10, 12], &vec![0], &vec![0]).unwrap();
    assert_eq!(ok.byte_offset, vec![u64::MAX]);
}

#[test]
fn constructors_start_empty() {
    let d = DaqmxScaler::new();
    assert_eq!(d.datatype, TdmsDataType::Boolean);
    assert!(d.scalers.is_empty() && d.raw_data_vector.is_empty());
    let p = TdmsProperty::new();
    assert_eq!(p.name, "");
    assert_eq!(p.datatype, TdmsDataType::Boolean);
    let f = FileMetadata::new();
    assert_eq!(f.reference_split_stop_time, 0);
    let s = StreamMetadata::new();
    assert_eq!(s.sample_type_version, "");
}

#[test]
fn channel_of_a_foreign_group_is_an_unexpected_group() {
    assert!(is_valid_group(&object("/'Other'/'data'", vec![])));
    assert!(!is_valid_group(&object("/'STREAM'/'data'", vec![])));
    let m = metadata(vec![object("/'Other'/'data'", vec![])]);
    let mut fm = FileMetadata::new();
    let mut sm = StreamMetadata::new();
    assert!(matches!(check_extract_metadata(&m, &mut fm, &mut sm), Err(TdmsParseError::UnexpectedGroup)));
}

#[test]
fn bad_tag_consumes_only_the_tag() {
    let mut bytes = b"TDSx".to_vec();
    bytes.extend([0u8; 24]);
    let mut r = reader(&bytes);
    assert!(matches!(LeadIn::read(&mut r), Err(TdmsParseError::IncorrectTdmsTag)));
    assert_eq!(r.pos, 4);
}

#[test]
fn missing_channel_object_consumes_nothing() {
    let raw = le64(7);
    let mut r = reader(&raw);
    assert!(matches!(
        read_timestamps(&mut r, &lead_in(false), &metadata(vec![])),
        Err(TdmsParseError::CannotReadTimestampChannel)
    ));
    assert_eq!(r.pos, 0);
    assert!(matches!(
        read_indices(&mut r, &lead_in(false), &metadata(vec![object("/'Stream'/'index'", vec![])])),
        Err(TdmsParseError::CannotReadIndexChannel)
    ));
    assert_eq!(r.pos, 0);
    assert!(matches!(
        read_headers(&mut r, &lead_in(false), &metadata(vec![])),
        Err(TdmsParseError::CannotReadHeaderChannel)
    ));
    assert_eq!(r.pos, 0);
}

#[test]
fn segment_without_metadata_stops_after_the_lead_in() {
    let mut b = lead_in_bytes(8, false);
    b.extend(le32(0));
    let mut r = reader(&b);
    assert!(matches!(read_segment_header(&mut r), Err(TdmsParseError::NoMetadata)));
    assert_eq!(r.pos, 28);
}

#[test]
fn frame_numbers_must_match_states() {
    let r = correlate_frames(0, &vec![0; 4], &vec![1, 2], &vec![1], &vec![]);
    assert!(matches!(r, Err(TdmsParseError::ChannelLengthMismatch { index: 2, timestamp: 4, header: 1 })));
}

#[test]
fn path_without_leading_slash_is_an_unexpected_group() {
    assert!(is_valid_group(&object("x/'stream'", vec![])));
    assert!(is_valid_group(&object("a/'Stream'/'data'", vec![])));
    assert!(!is_valid_group(&object("/'stream'", vec![])));
    let m = metadata(vec![object("x/'stream'", vec![])]);
    let mut fm = FileMetadata::new();
    let mut sm = StreamMetadata::new();
    assert!(matches!(check_extract_metadata(&m, &mut fm, &mut sm), Err(TdmsParseError::UnexpectedGroup)));
}
