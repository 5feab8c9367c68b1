use vstd::prelude::*;

verus! {

/// The indexed file, ready to be written out.
pub struct Output {
    pub schema: String,
    pub file: File,
}

pub struct File {
    pub raw_file: String,
    pub metadata: FileMetadata,
    pub stream: Stream,
}

/// The properties of the file's root object.
pub struct FileMetadata {
    pub name: String,
    pub logger_version_major: u32,
    pub logger_version_minor: u32,
    pub logger_version_build: u32,
    pub logger_version_json: String,
    pub tdms_version_major: u32,
    pub tdms_version_minor: u32,
    pub car_model: String,
    pub car_license_plate: String,
    pub reference_file_name: String,
    pub reference_split_before: String,
    pub reference_split_after: String,
    pub reference_split_start_time: u64,
    pub reference_split_stop_time: u64,
    pub future_time_event: u64,
    pub zframe_path: String,
}

impl FileMetadata {
    /// Every text field empty and every number zero.
    pub fn new() -> (r: FileMetadata)
        ensures
            r@ == empty_file_metadata(),
    {
        let r = FileMetadata {
            name: String::new(),
            logger_version_major: 0,
            logger_version_minor: 0,
            logger_version_build: 0,
            logger_version_json: String::new(),
            tdms_version_major: 0,
            tdms_version_minor: 0,
            car_model: String::new(),
            car_license_plate: String::new(),
            reference_file_name: String::new(),
            reference_split_before: String::new(),
            reference_split_after: String::new(),
            reference_split_start_time: 0,
            reference_split_stop_time: 0,
            future_time_event: 0,
            zframe_path: String::new(),
        };
        assert(r@ =~= empty_file_metadata());
        r
    }
}

/// The properties of the stream group's object.
pub struct StreamMetadata {
    pub name: String,
    pub channel_type: String,
    pub channel_sub_type: String,
    pub channel_info: String,
    pub sensor: String,
    pub properties_json: String,
    pub codec: String,
    pub system: String,
    pub pxie_card: String,
    pub sample_timestamp: String,
    pub sample_type: String,
    pub sample_type_version: String,
}

impl StreamMetadata {
    /// Every field empty.
    pub fn new() -> (r: StreamMetadata)
        ensures
            r@ == empty_stream_metadata(),
    {
        let r = StreamMetadata {
            name: String::new(),
            channel_type: String::new(),
            channel_sub_type: String::new(),
            channel_info: String::new(),
            sensor: String::new(),
            properties_json: String::new(),
            codec: String::new(),
            system: String::new(),
            pxie_card: String::new(),
            sample_timestamp: String::new(),
            sample_type: String::new(),
            sample_type_version: String::new(),
        };
        assert(r@ =~= empty_stream_metadata());
        r
    }
}

pub struct FileMetadataView {
    pub name: Seq<char>,
    pub logger_version_major: u32,
    pub logger_version_minor: u32,
    pub logger_version_build: u32,
    pub logger_version_json: Seq<char>,
    pub tdms_version_major: u32,
    pub tdms_version_minor: u32,
    pub car_model: Seq<char>,
    pub car_license_plate: Seq<char>,
    pub reference_file_name: Seq<char>,
    pub reference_split_before: Seq<char>,
    pub reference_split_after: Seq<char>,
    pub reference_split_start_time: u64,
    pub reference_split_stop_time: u64,
    pub future_time_event: u64,
    pub zframe_path: Seq<char>,
}

impl View for FileMetadata {
    type V = FileMetadataView;

    open spec fn view(&self) -> FileMetadataView {
        FileMetadataView {
            name: self.name@,
            logger_version_major: self.logger_version_major,
            logger_version_minor: self.logger_version_minor,
            logger_version_build: self.logger_version_build,
            logger_version_json: self.logger_version_json@,
            tdms_version_major: self.tdms_version_major,
            tdms_version_minor: self.tdms_version_minor,
            car_model: self.car_model@,
            car_license_plate: self.car_license_plate@,
            reference_file_name: self.reference_file_name@,
            reference_split_before: self.reference_split_before@,
            reference_split_after: self.reference_split_after@,
            reference_split_start_time: self.reference_split_start_time,
            reference_split_stop_time: self.reference_split_stop_time,
            future_time_event: self.future_time_event,
            zframe_path: self.zframe_path@,
        }
    }
}

/// File metadata with every text field empty and every number zero.
pub open spec fn empty_file_metadata() -> FileMetadataView {
    FileMetadataView {
        name: seq![],
        logger_version_major: 0,
        logger_version_minor: 0,
        logger_version_build: 0,
        logger_version_json: seq![],
        tdms_version_major: 0,
        tdms_version_minor: 0,
        car_model: seq![],
        car_license_plate: seq![],
        reference_file_name: seq![],
        reference_split_before: seq![],
        reference_split_after: seq![],
        reference_split_start_time: 0,
        reference_split_stop_time: 0,
        future_time_event: 0,
        zframe_path: seq![],
    }
}

pub struct StreamMetadataView {
    pub name: Seq<char>,
    pub channel_type: Seq<char>,
    pub channel_sub_type: Seq<char>,
    pub channel_info: Seq<char>,
    pub sensor: Seq<char>,
    pub properties_json: Seq<char>,
    pub codec: Seq<char>,
    pub system: Seq<char>,
    pub pxie_card: Seq<char>,
    pub sample_timestamp: Seq<char>,
    pub sample_type: Seq<char>,
    pub sample_type_version: Seq<char>,
}

impl View for StreamMetadata {
    type V = StreamMetadataView;

    open spec fn view(&self) -> StreamMetadataView {
        StreamMetadataView {
            name: self.name@,
            channel_type: self.channel_type@,
            channel_sub_type: self.channel_sub_type@,
            channel_info: self.channel_info@,
            sensor: self.sensor@,
            properties_json: self.properties_json@,
            codec: self.codec@,
            system: self.system@,
            pxie_card: self.pxie_card@,
            sample_timestamp: self.sample_timestamp@,
            sample_type: self.sample_type@,
            sample_type_version: self.sample_type_version@,
        }
    }
}

/// Stream metadata with every field empty.
pub open spec fn empty_stream_metadata() -> StreamMetadataView {
    StreamMetadataView {
        name: seq![],
        channel_type: seq![],
        channel_sub_type: seq![],
        channel_info: seq![],
        sensor: seq![],
        properties_json: seq![],
        codec: seq![],
        system: seq![],
        pxie_card: seq![],
        sample_timestamp: seq![],
        sample_type: seq![],
        sample_type_version: seq![],
    }
}

pub struct Stream {
    pub metadata: StreamMetadata,
    pub data: Data,
}

/// The frame records as five parallel columns.
pub struct Data {
    pub byte_offset: Vec<u64>,
    pub frame_size: Vec<u64>,
    pub timestamp: Vec<u64>,
    pub state: Vec<u32>,
    pub frame_number: Vec<u32>,
}

} // verus!
