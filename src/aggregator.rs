use vstd::prelude::*;
use vstd::string::*;

use crate::decimal::{parse_u32, parse_u64, parse_unsigned};
use crate::object_path::{
    channel_group_of, channel_rejected, group_name_of, group_rejected, is_root_path, is_valid_channel,
    is_valid_group, same_ignoring_case, slash_count, starts_with_slash,
};
use crate::output::{FileMetadata, FileMetadataView, StreamMetadata, StreamMetadataView};
use crate::tdms_metadata::{objects_view, Metadata};
use crate::tdms_object::{properties_view, ObjectView, PropertyView, TdmsObject, TdmsProperty};
use crate::tdms_parse_error::{ParseErrorView, TdmsParseError};

verus! {

/// The name of a file metadata field that holds a `u32`.
pub open spec fn file_u32_name(n: Seq<char>) -> bool {
    n == "LoggerVersionMajor"@ || n == "LoggerVersionMinor"@ || n == "LoggerVersionBuild"@
        || n == "TDMSVersionMajor"@ || n == "TDMSVersionMinor"@
}

/// The name of a file metadata field that holds a `u64`.
pub open spec fn file_u64_name(n: Seq<char>) -> bool {
    n == "SplitStartTime"@ || n == "SplitStopTime"@ || n == "FutureTimeEvent"@
}

/// The name of a file metadata field that holds text.
pub open spec fn file_text_name(n: Seq<char>) -> bool {
    n == "name"@ || n == "LoggerVersionJSON"@ || n == "CarModel"@ || n == "CarLicensePlate"@
        || n == "ReferenceFileName"@ || n == "SplitBefore"@ || n == "SplitAfter"@ || n == "ZFramePath"@
}

pub open spec fn u32_value(s: Seq<char>) -> u32 {
    parse_unsigned(s, u32::MAX as nat).unwrap() as u32
}

pub open spec fn u64_value(s: Seq<char>) -> u64 {
    parse_unsigned(s, u64::MAX as nat).unwrap() as u64
}

/// The name of a stream metadata field.
pub open spec fn stream_name(n: Seq<char>) -> bool {
    n == "name"@ || n == "ChannelType"@ || n == "ChannelSubType"@ || n == "ChannelInfo"@ || n == "Sensor"@
        || n == "PropertiesJSON"@ || n == "Codec"@ || n == "System"@ || n == "PXIeCard"@
        || n == "SampleTimestamp"@ || n == "SampleType"@ || n == "SampleTypeVersion"@
}

/// The error that a root object property raises, if any: a name outside the
/// schema, or a number field whose value is not a decimal number of its width.
pub open spec fn file_property_error(p: PropertyView) -> Option<ParseErrorView> {
    if file_u32_name(p.name) {
        if parse_unsigned(p.string_value, u32::MAX as nat) is Some {
            None
        } else {
            Some(ParseErrorView::InvalidPropertyValue { property: p.name })
        }
    } else if file_u64_name(p.name) {
        if parse_unsigned(p.string_value, u64::MAX as nat) is Some {
            None
        } else {
            Some(ParseErrorView::InvalidPropertyValue { property: p.name })
        }
    } else if file_text_name(p.name) {
        None
    } else {
        Some(ParseErrorView::UnexpectedProperty { property: p.name })
    }
}

/// The error that a stream object property raises, if any: a name outside the schema.
pub open spec fn stream_property_error(p: PropertyView) -> Option<ParseErrorView> {
    if stream_name(p.name) {
        None
    } else {
        Some(ParseErrorView::UnexpectedProperty { property: p.name })
    }
}

/// The first error that a sequence of properties raises, given the error of each.
pub open spec fn first_error(ps: Seq<PropertyView>, err: spec_fn(PropertyView) -> Option<ParseErrorView>) -> Option<ParseErrorView>
    decreases ps.len(),
{
    if ps.len() == 0 {
        None
    } else {
        match first_error(ps.drop_last(), err) {
            Some(e) => Some(e),
            None => err(ps.last()),
        }
    }
}

/// The index of the first object with the given path.
pub open spec fn find_path(objs: Seq<ObjectView>, path: Seq<char>) -> Option<int>
    decreases objs.len(),
{
    if objs.len() == 0 {
        None
    } else {
        match find_path(objs.drop_last(), path) {
            Some(i) => Some(i),
            None => if objs.last().path == path { Some(objs.len() - 1) } else { None },
        }
    }
}

/// The properties of the first object with the given path; none if there is no such object.
pub open spec fn properties_at(objs: Seq<ObjectView>, path: Seq<char>) -> Seq<PropertyView> {
    match find_path(objs, path) {
        Some(i) => objs[i].properties,
        None => seq![],
    }
}

/// What checking a segment's objects and taking in their metadata gives: an
/// object refused for its group (a group, or a channel's group, other than
/// the stream group, or a path of no known shape), else one refused for its
/// channel, else the first error among the root object's properties, then
/// among the stream object's.
pub open spec fn metadata_error(objs: Seq<ObjectView>) -> Option<ParseErrorView> {
    if exists|i: int| 0 <= i < objs.len() && group_rejected((#[trigger] objs[i]).path) {
        Some(ParseErrorView::UnexpectedGroup)
    } else if exists|i: int| 0 <= i < objs.len() && channel_rejected((#[trigger] objs[i]).path) {
        Some(ParseErrorView::UnexpectedChannel)
    } else {
        match first_error(properties_at(objs, "/"@), |p: PropertyView| file_property_error(p)) {
            Some(e) => Some(e),
            None => first_error(properties_at(objs, "/'Stream'"@), |p: PropertyView| stream_property_error(p)),
        }
    }
}

proof fn lemma_first_error_none(ps: Seq<PropertyView>, err: spec_fn(PropertyView) -> Option<ParseErrorView>, i: int)
    requires
        first_error(ps, err) is None,
        0 <= i < ps.len(),
    ensures
        err(ps[i]) is None,
    decreases ps.len(),
{
    if i < ps.len() - 1 {
        lemma_first_error_none(ps.drop_last(), err, i);
    }
}

proof fn lemma_first_error_prefix(ps: Seq<PropertyView>, err: spec_fn(PropertyView) -> Option<ParseErrorView>, n: int)
    requires
        0 <= n <= ps.len(),
        first_error(ps.subrange(0, n), err) is Some,
    ensures
        first_error(ps, err) == first_error(ps.subrange(0, n), err),
    decreases ps.len() - n,
{
    if n < ps.len() {
        assert(ps.subrange(0, n + 1).drop_last() =~= ps.subrange(0, n));
        lemma_first_error_prefix(ps, err, n + 1);
    } else {
        assert(ps.subrange(0, n) =~= ps);
    }
}

proof fn lemma_find_prefix(objs: Seq<ObjectView>, path: Seq<char>, n: int)
    requires
        0 <= n <= objs.len(),
        find_path(objs.subrange(0, n), path) is Some,
    ensures
        find_path(objs, path) == find_path(objs.subrange(0, n), path),
    decreases objs.len() - n,
{
    if n < objs.len() {
        assert(objs.subrange(0, n + 1).drop_last() =~= objs.subrange(0, n));
        lemma_find_prefix(objs, path, n + 1);
    } else {
        assert(objs.subrange(0, n) =~= objs);
    }
}

proof fn lemma_find_bound(objs: Seq<ObjectView>, path: Seq<char>)
    ensures
        find_path(objs, path) matches Some(i) ==> 0 <= i < objs.len(),
    decreases objs.len(),
{
    if objs.len() > 0 {
        lemma_find_bound(objs.drop_last(), path);
    }
}

/// The view of file metadata with one root object property stored in its field.
pub open spec fn apply_file_view(f: FileMetadataView, p: PropertyView) -> FileMetadataView {
    let n = p.name;
    let v = p.string_value;
    if n == "name"@ {
        FileMetadataView { name: v, ..f }
    } else if n == "LoggerVersionMajor"@ {
        FileMetadataView { logger_version_major: u32_value(v), ..f }
    } else if n == "LoggerVersionMinor"@ {
        FileMetadataView { logger_version_minor: u32_value(v), ..f }
    } else if n == "LoggerVersionBuild"@ {
        FileMetadataView { logger_version_build: u32_value(v), ..f }
    } else if n == "LoggerVersionJSON"@ {
        FileMetadataView { logger_version_json: v, ..f }
    } else if n == "TDMSVersionMajor"@ {
        FileMetadataView { tdms_version_major: u32_value(v), ..f }
    } else if n == "TDMSVersionMinor"@ {
        FileMetadataView { tdms_version_minor: u32_value(v), ..f }
    } else if n == "CarModel"@ {
        FileMetadataView { car_model: v, ..f }
    } else if n == "CarLicensePlate"@ {
        FileMetadataView { car_license_plate: v, ..f }
    } else if n == "ReferenceFileName"@ {
        FileMetadataView { reference_file_name: v, ..f }
    } else if n == "SplitBefore"@ {
        FileMetadataView { reference_split_before: v, ..f }
    } else if n == "SplitAfter"@ {
        FileMetadataView { reference_split_after: v, ..f }
    } else if n == "SplitStartTime"@ {
        FileMetadataView { reference_split_start_time: u64_value(v), ..f }
    } else if n == "SplitStopTime"@ {
        FileMetadataView { reference_split_stop_time: u64_value(v), ..f }
    } else if n == "FutureTimeEvent"@ {
        FileMetadataView { future_time_event: u64_value(v), ..f }
    } else if n == "ZFramePath"@ {
        FileMetadataView { zframe_path: v, ..f }
    } else {
        f
    }
}

/// The view of file metadata after the properties, in order, each stored in its field.
pub open spec fn fold_file_view(f: FileMetadataView, ps: Seq<PropertyView>) -> FileMetadataView
    decreases ps.len(),
{
    if ps.len() == 0 {
        f
    } else {
        apply_file_view(fold_file_view(f, ps.drop_last()), ps.last())
    }
}

/// The view of stream metadata with one stream object property stored in its
/// field; the property `name` stores `Stream`.
pub open spec fn apply_stream_view(s: StreamMetadataView, p: PropertyView) -> StreamMetadataView {
    let n = p.name;
    let v = p.string_value;
    if n == "name"@ {
        StreamMetadataView { name: "Stream"@, ..s }
    } else if n == "ChannelType"@ {
        StreamMetadataView { channel_type: v, ..s }
    } else if n == "ChannelSubType"@ {
        StreamMetadataView { channel_sub_type: v, ..s }
    } else if n == "ChannelInfo"@ {
        StreamMetadataView { channel_info: v, ..s }
    } else if n == "Sensor"@ {
        StreamMetadataView { sensor: v, ..s }
    } else if n == "PropertiesJSON"@ {
        StreamMetadataView { properties_json: v, ..s }
    } else if n == "Codec"@ {
        StreamMetadataView { codec: v, ..s }
    } else if n == "System"@ {
        StreamMetadataView { system: v, ..s }
    } else if n == "PXIeCard"@ {
        StreamMetadataView { pxie_card: v, ..s }
    } else if n == "SampleTimestamp"@ {
        StreamMetadataView { sample_timestamp: v, ..s }
    } else if n == "SampleType"@ {
        StreamMetadataView { sample_type: v, ..s }
    } else if n == "SampleTypeVersion"@ {
        StreamMetadataView { sample_type_version: v, ..s }
    } else {
        s
    }
}

/// The view of stream metadata after the properties, in order, each stored in its field.
pub open spec fn fold_stream_view(s: StreamMetadataView, ps: Seq<PropertyView>) -> StreamMetadataView
    decreases ps.len(),
{
    if ps.len() == 0 {
        s
    } else {
        apply_stream_view(fold_stream_view(s, ps.drop_last()), ps.last())
    }
}

fn eq_string(s: &String, lit: &str) -> (r: bool)
    ensures
        r == (s@ == lit@),
{
    *s == String::from_str(lit)
}

/// The index of the first object with the given path.
fn find_object(objs: &Vec<TdmsObject>, path: &str) -> (r: Option<usize>)
    ensures
        match r {
            Some(i) => find_path(objects_view(objs@), path@) == Some(i as int) && i < objs@.len(),
            None => find_path(objects_view(objs@), path@) is None,
        },
{
    let ghost v = objects_view(objs@);
    let mut i: usize = 0;
    while i < objs.len()
        invariant
            i <= objs@.len(),
            v == objects_view(objs@),
            find_path(v.subrange(0, i as int), path@) is None,
        decreases objs.len() - i,
    {
        assert(v.subrange(0, i + 1).drop_last() =~= v.subrange(0, i as int));
        if eq_string(&objs[i].path, path) {
            proof {
                assert(v.subrange(0, i + 1).last() == v[i as int]);
                lemma_find_prefix(v, path@, i + 1);
            }
            return Some(i);
        }
        i = i + 1;
    }
    assert(v.subrange(0, i as int) =~= v);
    None
}

/// The error of one root object property.
fn check_file_property(p: &TdmsProperty) -> (r: Option<TdmsParseError>)
    ensures
        match r {
            Some(e) => file_property_error(p@) == Some(e@),
            None => file_property_error(p@) is None,
        },
{
    let n = &p.name;
    if eq_string(n, "LoggerVersionMajor") || eq_string(n, "LoggerVersionMinor") || eq_string(n, "LoggerVersionBuild")
        || eq_string(n, "TDMSVersionMajor") || eq_string(n, "TDMSVersionMinor") {
        if parse_u32(&p.string_value).is_some() {
            None
        } else {
            Some(TdmsParseError::InvalidPropertyValue { property: p.name.clone() })
        }
    } else if eq_string(n, "SplitStartTime") || eq_string(n, "SplitStopTime") || eq_string(n, "FutureTimeEvent") {
        if parse_u64(&p.string_value).is_some() {
            None
        } else {
            Some(TdmsParseError::InvalidPropertyValue { property: p.name.clone() })
        }
    } else if eq_string(n, "name") || eq_string(n, "LoggerVersionJSON") || eq_string(n, "CarModel")
        || eq_string(n, "CarLicensePlate") || eq_string(n, "ReferenceFileName") || eq_string(n, "SplitBefore")
        || eq_string(n, "SplitAfter") || eq_string(n, "ZFramePath") {
        None
    } else {
        Some(TdmsParseError::UnexpectedProperty { property: p.name.clone() })
    }
}

/// The error of one stream object property.
fn check_stream_property(p: &TdmsProperty) -> (r: Option<TdmsParseError>)
    ensures
        match r {
            Some(e) => stream_property_error(p@) == Some(e@),
            None => stream_property_error(p@) is None,
        },
{
    let n = &p.name;
    if eq_string(n, "name") || eq_string(n, "ChannelType") || eq_string(n, "ChannelSubType")
        || eq_string(n, "ChannelInfo") || eq_string(n, "Sensor") || eq_string(n, "PropertiesJSON")
        || eq_string(n, "Codec") || eq_string(n, "System") || eq_string(n, "PXIeCard")
        || eq_string(n, "SampleTimestamp") || eq_string(n, "SampleType") || eq_string(n, "SampleTypeVersion") {
        None
    } else {
        Some(TdmsParseError::UnexpectedProperty { property: p.name.clone() })
    }
}

/// The first error among the root object's properties.
fn check_file_properties(ps: &Vec<TdmsProperty>) -> (r: Option<TdmsParseError>)
    ensures
        match r {
            Some(e) => first_error(properties_view(ps@), |p: PropertyView| file_property_error(p)) == Some(e@),
            None => first_error(properties_view(ps@), |p: PropertyView| file_property_error(p)) is None,
        },
{
    let ghost v = properties_view(ps@);
    let mut i: usize = 0;
    while i < ps.len()
        invariant
            i <= ps@.len(),
            v == properties_view(ps@),
            first_error(v.subrange(0, i as int), |p: PropertyView| file_property_error(p)) is None,
        decreases ps.len() - i,
    {
        assert(v.subrange(0, i + 1).drop_last() =~= v.subrange(0, i as int));
        assert(v.subrange(0, i + 1).last() == ps@[i as int]@);
        let e = check_file_property(&ps[i]);
        if e.is_some() {
            proof { lemma_first_error_prefix(v, |p: PropertyView| file_property_error(p), i + 1); }
            return e;
        }
        i = i + 1;
    }
    assert(v.subrange(0, i as int) =~= v);
    None
}

/// The first error among the stream object's properties.
fn check_stream_properties(ps: &Vec<TdmsProperty>) -> (r: Option<TdmsParseError>)
    ensures
        match r {
            Some(e) => first_error(properties_view(ps@), |p: PropertyView| stream_property_error(p)) == Some(e@),
            None => first_error(properties_view(ps@), |p: PropertyView| stream_property_error(p)) is None,
        },
{
    let ghost v = properties_view(ps@);
    let mut i: usize = 0;
    while i < ps.len()
        invariant
            i <= ps@.len(),
            v == properties_view(ps@),
            first_error(v.subrange(0, i as int), |p: PropertyView| stream_property_error(p)) is None,
        decreases ps.len() - i,
    {
        assert(v.subrange(0, i + 1).drop_last() =~= v.subrange(0, i as int));
        assert(v.subrange(0, i + 1).last() == ps@[i as int]@);
        let e = check_stream_property(&ps[i]);
        if e.is_some() {
            proof { lemma_first_error_prefix(v, |p: PropertyView| stream_property_error(p), i + 1); }
            return e;
        }
        i = i + 1;
    }
    assert(v.subrange(0, i as int) =~= v);
    None
}

fn valid_u32(s: &String) -> (r: u32)
    requires
        parse_unsigned(s@, u32::MAX as nat) is Some,
    ensures
        r == u32_value(s@),
{
    match parse_u32(s) {
        Some(v) => v,
        None => 0,
    }
}

fn valid_u64(s: &String) -> (r: u64)
    requires
        parse_unsigned(s@, u64::MAX as nat) is Some,
    ensures
        r == u64_value(s@),
{
    match parse_u64(s) {
        Some(v) => v,
        None => 0,
    }
}

/// Stores one root object property in its field.
fn apply_file(f: &mut FileMetadata, p: &TdmsProperty)
    requires
        file_property_error(p@) is None,
    ensures
        final(f)@ == apply_file_view(old(f)@, p@),
{
    let n = &p.name;
    let v = &p.string_value;
    if eq_string(n, "name") {
        f.name = v.clone();
    } else if eq_string(n, "LoggerVersionMajor") {
        f.logger_version_major = valid_u32(v);
    } else if eq_string(n, "LoggerVersionMinor") {
        f.logger_version_minor = valid_u32(v);
    } else if eq_string(n, "LoggerVersionBuild") {
        f.logger_version_build = valid_u32(v);
    } else if eq_string(n, "LoggerVersionJSON") {
        f.logger_version_json = v.clone();
    } else if eq_string(n, "TDMSVersionMajor") {
        f.tdms_version_major = valid_u32(v);
    } else if eq_string(n, "TDMSVersionMinor") {
        f.tdms_version_minor = valid_u32(v);
    } else if eq_string(n, "CarModel") {
        f.car_model = v.clone();
    } else if eq_string(n, "CarLicensePlate") {
        f.car_license_plate = v.clone();
    } else if eq_string(n, "ReferenceFileName") {
        f.reference_file_name = v.clone();
    } else if eq_string(n, "SplitBefore") {
        f.reference_split_before = v.clone();
    } else if eq_string(n, "SplitAfter") {
        f.reference_split_after = v.clone();
    } else if eq_string(n, "SplitStartTime") {
        f.reference_split_start_time = valid_u64(v);
    } else if eq_string(n, "SplitStopTime") {
        f.reference_split_stop_time = valid_u64(v);
    } else if eq_string(n, "FutureTimeEvent") {
        f.future_time_event = valid_u64(v);
    } else if eq_string(n, "ZFramePath") {
        f.zframe_path = v.clone();
    }
}

/// Stores one stream object property in its field.
fn apply_stream(s: &mut StreamMetadata, p: &TdmsProperty)
    ensures
        final(s)@ == apply_stream_view(old(s)@, p@),
{
    let n = &p.name;
    let v = &p.string_value;
    if eq_string(n, "name") {
        s.name = String::from_str("Stream");
    } else if eq_string(n, "ChannelType") {
        s.channel_type = v.clone();
    } else if eq_string(n, "ChannelSubType") {
        s.channel_sub_type = v.clone();
    } else if eq_string(n, "ChannelInfo") {
        s.channel_info = v.clone();
    } else if eq_string(n, "Sensor") {
        s.sensor = v.clone();
    } else if eq_string(n, "PropertiesJSON") {
        s.properties_json = v.clone();
    } else if eq_string(n, "Codec") {
        s.codec = v.clone();
    } else if eq_string(n, "System") {
        s.system = v.clone();
    } else if eq_string(n, "PXIeCard") {
        s.pxie_card = v.clone();
    } else if eq_string(n, "SampleTimestamp") {
        s.sample_timestamp = v.clone();
    } else if eq_string(n, "SampleType") {
        s.sample_type = v.clone();
    } else if eq_string(n, "SampleTypeVersion") {
        s.sample_type_version = v.clone();
    }
}

fn apply_file_properties(f: &mut FileMetadata, ps: &Vec<TdmsProperty>)
    requires
        first_error(properties_view(ps@), |p: PropertyView| file_property_error(p)) is None,
    ensures
        final(f)@ == fold_file_view(old(f)@, properties_view(ps@)),
{
    let ghost start = f@;
    let ghost v = properties_view(ps@);
    let mut i: usize = 0;
    assert(v.subrange(0, 0) =~= Seq::<PropertyView>::empty());
    while i < ps.len()
        invariant
            i <= ps@.len(),
            v == properties_view(ps@),
            first_error(v, |p: PropertyView| file_property_error(p)) is None,
            start == old(f)@,
            f@ == fold_file_view(start, v.subrange(0, i as int)),
        decreases ps.len() - i,
    {
        proof {
            lemma_first_error_none(v, |p: PropertyView| file_property_error(p), i as int);
        }
        assert(v.subrange(0, i + 1).drop_last() =~= v.subrange(0, i as int));
        assert(v[i as int] == ps@[i as int]@);
        apply_file(f, &ps[i]);
        i = i + 1;
    }
    assert(v.subrange(0, i as int) =~= v);
}

fn apply_stream_properties(s: &mut StreamMetadata, ps: &Vec<TdmsProperty>)
    ensures
        final(s)@ == fold_stream_view(old(s)@, properties_view(ps@)),
{
    let ghost start = s@;
    let ghost v = properties_view(ps@);
    let mut i: usize = 0;
    assert(v.subrange(0, 0) =~= Seq::<PropertyView>::empty());
    while i < ps.len()
        invariant
            i <= ps@.len(),
            v == properties_view(ps@),
            start == old(s)@,
            s@ == fold_stream_view(start, v.subrange(0, i as int)),
        decreases ps.len() - i,
    {
        assert(v.subrange(0, i + 1).drop_last() =~= v.subrange(0, i as int));
        assert(v[i as int] == ps@[i as int]@);
        apply_stream(s, &ps[i]);
        i = i + 1;
    }
    assert(v.subrange(0, i as int) =~= v);
}

/// Checks a segment's objects and takes in the metadata of its root and stream
/// objects. An object refused for its group comes first, then one refused for
/// its channel, then the first bad property of the root object (`/`), then of
/// the stream object (`/'Stream'`). Only where none is found are the
/// properties stored, in order, into the two records: a later property of the
/// same name overwrites, and fields that no property names keep their values.
pub fn check_extract_metadata(
    metadata: &Metadata,
    file_metadata: &mut FileMetadata,
    stream_metadata: &mut StreamMetadata,
) -> (r: Result<(), TdmsParseError>)
    ensures
        match r {
            Ok(()) => {
                &&& metadata_error(metadata@.objects) is None
                &&& final(file_metadata)@ == fold_file_view(old(file_metadata)@, properties_at(metadata@.objects, "/"@))
                &&& final(stream_metadata)@ == fold_stream_view(old(stream_metadata)@, properties_at(metadata@.objects, "/'Stream'"@))
            },
            Err(e) => {
                &&& metadata_error(metadata@.objects) == Some(e@)
                &&& *final(file_metadata) == *old(file_metadata)
                &&& *final(stream_metadata) == *old(stream_metadata)
            },
        },
{
    let objs = &metadata.objects;
    let ghost v = metadata@.objects;
    let mut i: usize = 0;
    while i < objs.len()
        invariant
            i <= objs@.len(),
            objs == &metadata.objects,
            v == objects_view(objs@),
            *file_metadata == *old(file_metadata),
            *stream_metadata == *old(stream_metadata),
            forall|k: int| 0 <= k < i ==> !group_rejected((#[trigger] v[k]).path),
        decreases objs.len() - i,
    {
        if is_valid_group(&objs[i]) {
            assert(group_rejected(v[i as int].path));
            return Err(TdmsParseError::UnexpectedGroup);
        }
        i = i + 1;
    }
    let mut i: usize = 0;
    while i < objs.len()
        invariant
            i <= objs@.len(),
            objs == &metadata.objects,
            v == objects_view(objs@),
            *file_metadata == *old(file_metadata),
            *stream_metadata == *old(stream_metadata),
            forall|k: int| 0 <= k < objs@.len() ==> !group_rejected((#[trigger] v[k]).path),
            forall|k: int| 0 <= k < i ==> !channel_rejected((#[trigger] v[k]).path),
        decreases objs.len() - i,
    {
        if is_valid_channel(&objs[i]) {
            assert(channel_rejected(v[i as int].path));
            return Err(TdmsParseError::UnexpectedChannel);
        }
        i = i + 1;
    }
    let root = find_object(objs, "/");
    let stream = find_object(objs, "/'Stream'");
    proof {
        lemma_find_bound(v, "/"@);
        lemma_find_bound(v, "/'Stream'"@);
        assert(first_error(Seq::<PropertyView>::empty(), |p: PropertyView| file_property_error(p)) is None);
    }
    if let Some(k) = root {
        assert(properties_at(v, "/"@) == properties_view(objs@[k as int].properties@));
        if let Some(e) = check_file_properties(&objs[k].properties) {
            return Err(e);
        }
    }
    if let Some(k) = stream {
        assert(properties_at(v, "/'Stream'"@) == properties_view(objs@[k as int].properties@));
        if let Some(e) = check_stream_properties(&objs[k].properties) {
            return Err(e);
        }
    }
    if let Some(k) = root {
        apply_file_properties(file_metadata, &objs[k].properties);
    }
    if let Some(k) = stream {
        apply_stream_properties(stream_metadata, &objs[k].properties);
    }
    Ok(())
}

proof fn lemma_first_error_at(ps: Seq<PropertyView>, err: spec_fn(PropertyView) -> Option<ParseErrorView>, j: int)
    requires
        0 <= j < ps.len(),
        forall|l: int| 0 <= l < j ==> err(#[trigger] ps[l]) is None,
        err(ps[j]) is Some,
    ensures
        first_error(ps, err) == err(ps[j]),
{
    lemma_first_error_prefix_none(ps, err, j);
    assert(ps.subrange(0, j + 1).drop_last() =~= ps.subrange(0, j));
    lemma_first_error_prefix(ps, err, j + 1);
}

proof fn lemma_first_error_prefix_none(ps: Seq<PropertyView>, err: spec_fn(PropertyView) -> Option<ParseErrorView>, j: int)
    requires
        0 <= j <= ps.len(),
        forall|l: int| 0 <= l < j ==> err(#[trigger] ps[l]) is None,
    ensures
        first_error(ps.subrange(0, j), err) is None,
    decreases j,
{
    if j > 0 {
        assert(ps.subrange(0, j).drop_last() =~= ps.subrange(0, j - 1));
        lemma_first_error_prefix_none(ps, err, j - 1);
    }
}

proof fn lemma_root_path_has_one_slash()
    ensures
        slash_count(seq!['/']) == 1,
{
    let s = seq!['/'];
    assert(s.drop_last() =~= Seq::<char>::empty());
    assert(s.last() == '/');
    assert(slash_count(Seq::<char>::empty()) == 0);
    assert(slash_count(s) == slash_count(s.drop_last()) + 1);
}

/// An object whose path has the shape of neither the root or a group (one
/// `/`) nor a channel (two `/`), or does not start with `/`, makes the
/// segment fail as an unexpected group.
pub proof fn lemma_unknown_path_shape_rejected(objs: Seq<ObjectView>, i: int)
    requires
        0 <= i < objs.len(),
        (slash_count(objs[i].path) != 1 && slash_count(objs[i].path) != 2) || !starts_with_slash(objs[i].path),
    ensures
        metadata_error(objs) == Some(ParseErrorView::UnexpectedGroup),
{
    lemma_root_path_has_one_slash();
    assert(!is_root_path(objs[i].path));
    if starts_with_slash(objs[i].path) {
        assert(group_name_of(objs[i].path) is None);
        assert(channel_group_of(objs[i].path) is None);
    }
    assert(group_rejected(objs[i].path));
}

/// A channel of a group other than the stream group (in any case) makes the
/// segment fail as an unexpected group.
pub proof fn lemma_foreign_channel_group_rejected(objs: Seq<ObjectView>, i: int)
    requires
        0 <= i < objs.len(),
        channel_group_of(objs[i].path) matches Some(g) && !same_ignoring_case(g, "'stream'"@),
    ensures
        metadata_error(objs) == Some(ParseErrorView::UnexpectedGroup),
{
    lemma_root_path_has_one_slash();
    assert(!is_root_path(objs[i].path));
    assert(group_rejected(objs[i].path));
}

/// Where no object is refused for its group or channel, and the root object's
/// properties before it are all accepted, a root property with a name outside
/// the file schema fails the segment with that very name.
pub proof fn lemma_unknown_root_property(objs: Seq<ObjectView>, j: int)
    requires
        forall|i: int| 0 <= i < objs.len() ==> !group_rejected((#[trigger] objs[i]).path),
        forall|i: int| 0 <= i < objs.len() ==> !channel_rejected((#[trigger] objs[i]).path),
        0 <= j < properties_at(objs, "/"@).len(),
        forall|l: int| 0 <= l < j ==> file_property_error(#[trigger] properties_at(objs, "/"@)[l]) is None,
        !file_u32_name(properties_at(objs, "/"@)[j].name),
        !file_u64_name(properties_at(objs, "/"@)[j].name),
        !file_text_name(properties_at(objs, "/"@)[j].name),
    ensures
        metadata_error(objs) == Some(ParseErrorView::UnexpectedProperty { property: properties_at(objs, "/"@)[j].name }),
{
    let ps = properties_at(objs, "/"@);
    let err = |p: PropertyView| file_property_error(p);
    assert forall|l: int| 0 <= l < j implies err(#[trigger] ps[l]) is None by {
        assert(file_property_error(ps[l]) is None);
    }
    lemma_first_error_at(ps, err, j);
}

/// Where no object is refused for its group or channel, no root property
/// raises an error, and the stream object's properties before it are all
/// accepted, a stream property with a name outside the stream schema fails
/// the segment with that very name.
pub proof fn lemma_unknown_stream_property(objs: Seq<ObjectView>, j: int)
    requires
        forall|i: int| 0 <= i < objs.len() ==> !group_rejected((#[trigger] objs[i]).path),
        forall|i: int| 0 <= i < objs.len() ==> !channel_rejected((#[trigger] objs[i]).path),
        first_error(properties_at(objs, "/"@), |p: PropertyView| file_property_error(p)) is None,
        0 <= j < properties_at(objs, "/'Stream'"@).len(),
        forall|l: int| 0 <= l < j ==> stream_property_error(#[trigger] properties_at(objs, "/'Stream'"@)[l]) is None,
        !stream_name(properties_at(objs, "/'Stream'"@)[j].name),
    ensures
        metadata_error(objs) == Some(ParseErrorView::UnexpectedProperty { property: properties_at(objs, "/'Stream'"@)[j].name }),
{
    let ps = properties_at(objs, "/'Stream'"@);
    let err = |p: PropertyView| stream_property_error(p);
    assert forall|l: int| 0 <= l < j implies err(#[trigger] ps[l]) is None by {
        assert(stream_property_error(ps[l]) is None);
    }
    lemma_first_error_at(ps, err, j);
}

} // verus!
