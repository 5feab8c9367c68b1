use hvds_indexer::correlator::correlate_frames;
use hvds_indexer::tdms_parse_error::TdmsParseError;
use hvds_indexer::traversal::parse;

fn put_u32(out: &mut Vec<u8>, v: u32) {
    out.extend_from_slice(&v.to_le_bytes());
}

fn put_u64(out: &mut Vec<u8>, v: u64) {
    out.extend_from_slice(&v.to_le_bytes());
}

fn put_str(out: &mut Vec<u8>, s: &str) {
    put_u32(out, s.len() as u32);
    out.extend_from_slice(s.as_bytes());
}

fn string_property(out: &mut Vec<u8>, name: &str, value: &str) {
    put_str(out, name);
    put_u32(out, 0x20);
    put_str(out, value);
}

fn u32_property(out: &mut Vec<u8>, name: &str, value: u32) {
    put_str(out, name);
    put_u32(out, 0x7);
    put_u32(out, value);
}

/// An object with no raw data and the given encoded properties.
fn plain_object(out: &mut Vec<u8>, path: &str, props: &[Vec<u8>]) {
    put_str(out, path);
    out.extend_from_slice(&[0xff, 0xff, 0xff, 0xff]);
    put_u32(out, props.len() as u32);
    for p in props {
        out.extend_from_slice(p);
    }
}

/// A channel object with a raw data index given in full.
fn channel_object(out: &mut Vec<u8>, path: &str, datatype: u32, chunk: u64) {
    put_str(out, path);
    put_u32(out, 20);
    put_u32(out, datatype);
    put_u32(out, 1);
    put_u64(out, chunk);
    put_u32(out, 0);
}

/// A segment: lead-in, metadata with the given objects, then raw data.
fn segment(objects: &[Vec<u8>], raw: &[u8], raw_data_offset: Option<u64>) -> Vec<u8> {
    let mut meta = Vec::new();
    put_u32(&mut meta, objects.len() as u32);
    for o in objects {
        meta.extend_from_slice(o);
    }
    let mut out = b"TDSm".to_vec();
    put_u32(&mut out, 2 | 8);
    put_u32(&mut out, 4713);
    put_u64(&mut out, (meta.len() + raw.len()) as u64);
    put_u64(&mut out, raw_data_offset.unwrap_or(meta.len() as u64));
    out.extend_from_slice(&meta);
    out.extend_from_slice(raw);
    out
}

fn five_segment_file(stream_extra: Option<Vec<u8>>) -> Vec<u8> {
    let mut root = Vec::new();
    let mut p = Vec::new();
    string_property(&mut p, "name", "drive");
    let mut q = Vec::new();
    u32_property(&mut q, "LoggerVersionMajor", 3);
    plain_object(&mut root, "/", &[p, q]);
    let mut stream = Vec::new();
    let mut s = Vec::new();
    string_property(&mut s, "name", "ignored");
    let mut props = vec![s];
    if let Some(extra) = stream_extra {
        props.push(extra);
    }
    plain_object(&mut stream, "/'Stream'", &props);
    let mut data = Vec::new();
    channel_object(&mut data, "/'Stream'/'data'", 0x5, 0);
    let mut file = segment(&[root, stream, data.clone()], &[], Some(100));

    let mut meta_obj = Vec::new();
    plain_object(&mut meta_obj, "/'Stream'/'metadata'", &[]);
    file.extend(segment(&[meta_obj], &[], None));

    let mut ts_obj = Vec::new();
    channel_object(&mut ts_obj, "/'Stream'/'Timestamp'", 0x8, 8);
    let mut ts_raw = Vec::new();
    for v in [0xC000_0000_0000_0005u64, 6, 7, 8, 9, 10, 11, 12] {
        put_u64(&mut ts_raw, v);
    }
    file.extend(segment(&[ts_obj], &ts_raw, None));

    let mut idx_obj = Vec::new();
    channel_object(&mut idx_obj, "/'Stream'/'index'", 0x4, 4);
    let mut idx_raw = Vec::new();
    for v in [100i64, -300, 300, 500] {
        idx_raw.extend_from_slice(&v.to_le_bytes());
    }
    file.extend(segment(&[idx_obj], &idx_raw, None));

    let mut hdr_obj = Vec::new();
    channel_object(&mut hdr_obj, "/'Stream'/'header'", 0x7, 4);
    let mut hdr_raw = Vec::new();
    for v in [1u32, 10, 2, 11] {
        put_u32(&mut hdr_raw, v);
    }
    file.extend(segment(&[hdr_obj], &hdr_raw, None));
    file.extend_from_slice(b"trailing bytes are ignored");
    file
}

#[test]
fn end_to_end_five_segments() {
    let file = five_segment_file(None);
    let (fm, sm, base, ts, idx, st, fr) = parse(file).unwrap();
    assert_eq!(base, 128);
    assert_eq!(ts, vec![5, 6, 7, 8, 9, 10, 11, 12]);
    assert_eq!(idx, vec![100, -300, 300, 500]);
    assert_eq!(st, vec![1, 2]);
    assert_eq!(fr, vec![10, 11]);
    assert_eq!(fm.name, "drive");
    assert_eq!(fm.logger_version_major, 3);
    assert_eq!(sm.name, "Stream");
    let data = correlate_frames(base, &ts, &idx, &st, &fr).unwrap();
    assert_eq!(data.byte_offset, vec![228, 428]);
    assert_eq!(data.frame_size, vec![200, 200]);
    assert_eq!(data.timestamp, vec![5, 9]);
    assert_eq!(data.state, vec![1, 2]);
    assert_eq!(data.frame_number, vec![10, 11]);
}

#[test]
fn end_to_end_unknown_stream_property() {
    let mut extra = Vec::new();
    string_property(&mut extra, "Colour", "red");
    let file = five_segment_file(Some(extra));
    let r = parse(file);
    assert!(matches!(r, Err(TdmsParseError::UnexpectedProperty { ref property }) if property == "Colour"));
}

#[test]
fn end_to_end_truncated_file() {
    let mut file = five_segment_file(None);
    file.truncate(file.len() - 40);
    assert!(matches!(parse(file), Err(TdmsParseError::UnexpectedEndOfData)));
}

#[test]
fn end_to_end_bad_tag() {
    let mut file = five_segment_file(None);
    file[0] = b'X';
    assert!(matches!(parse(file), Err(TdmsParseError::IncorrectTdmsTag)));
}

#[test]
fn segment_without_metadata_is_refused() {
    let mut file = five_segment_file(None);
    file[4] = 8;
    assert!(matches!(parse(file), Err(TdmsParseError::NoMetadata)));
}

#[test]
fn end_to_end_first_error_is_returned() {
    let mut extra = Vec::new();
    u32_property(&mut extra, "Weather", 1);
    let file = five_segment_file(Some(extra));
    let mut bad = file.clone();
    // a missing metadata flag in the first segment comes before the bad stream property
    bad[4] = 8;
    assert!(matches!(parse(bad), Err(TdmsParseError::NoMetadata)));
    assert!(matches!(parse(file), Err(TdmsParseError::UnexpectedProperty { ref property }) if property == "Weather"));
}
