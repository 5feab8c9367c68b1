use vstd::prelude::*;

use crate::tdms_datatype::TdmsDataType;

verus! {

/// One object of a segment's metadata: the file itself, a group or a channel.
#[derive(Debug, Clone)]
pub struct TdmsObject {
    pub path: String,
    pub raw_data_index: RawDataIndex,
    pub property_size: u32,
    pub properties: Vec<TdmsProperty>,
}

/// How an object's raw data in a segment is described.
#[derive(Debug, Clone)]
pub enum RawDataIndex {
    NoRawData,
    Daqmx(DaqmxScaler),
    SameAsPrevious,
    NewDataIndex(NewRawDataIndex),
}

/// A DAQmx raw data index with format changing scalers.
#[derive(Debug, Clone)]
pub struct DaqmxScaler {
    pub datatype: TdmsDataType,
    pub array_dimension: u32,
    pub chunk_size: u64,
    pub scalers_size: u32,
    pub scalers: Vec<DaqFormatChangingScaler>,
    pub raw_data_size: u32,
    pub raw_data_vector: Vec<u32>,
}

impl DaqmxScaler {
    pub fn new() -> (r: DaqmxScaler)
        ensures
            r@ == (DaqmxScalerView {
                datatype: TdmsDataType::Boolean,
                array_dimension: 0,
                chunk_size: 0,
                scalers_size: 0,
                scalers: seq![],
                raw_data_size: 0,
                raw_data_vector: seq![],
            }),
    {
        let r = DaqmxScaler {
            datatype: TdmsDataType::Boolean,
            array_dimension: 0,
            chunk_size: 0,
            scalers_size: 0,
            scalers: Vec::new(),
            raw_data_size: 0,
            raw_data_vector: Vec::new(),
        };
        assert(r.scalers@ =~= seq![]);
        assert(r.raw_data_vector@ =~= seq![]);
        r
    }
}

/// One format changing scaler of a DAQmx raw data index.
#[derive(Debug, Clone, Copy, PartialEq, Eq, Structural)]
pub struct DaqFormatChangingScaler {
    pub size: u32,
    pub datatype: TdmsDataType,
    pub raw_buffer_index: u32,
    pub raw_byte_offset_within_stride: u32,
    pub sample_format_bitmap: u32,
    pub scale_id: u32,
}

/// A raw data index given in full in this segment.
#[derive(Debug, Clone, Copy, PartialEq, Eq, Structural)]
pub struct NewRawDataIndex {
    pub raw_data_index_length: u32,
    pub datatype: TdmsDataType,
    pub array_dimension: u32,
    /// The number of values.
    pub chunk_size: u64,
    /// Present on the wire only for strings; zero otherwise.
    pub total_size_bytes: u64,
}

/// A named property of an object. Only string, `u32` and `u64` values are
/// kept, the numbers in decimal; other values are left empty.
#[derive(Debug, Clone)]
pub struct TdmsProperty {
    pub name: String,
    pub datatype: TdmsDataType,
    pub string_value: String,
}

impl TdmsProperty {
    pub fn new() -> (r: TdmsProperty)
        ensures
            r@ == (PropertyView {
                name: seq![],
                datatype: TdmsDataType::Boolean,
                string_value: seq![],
            }),
    {
        let r = TdmsProperty { name: String::new(), datatype: TdmsDataType::Boolean, string_value: String::new() };
        assert(r.name@ =~= seq![]);
        r
    }
}

pub struct PropertyView {
    pub name: Seq<char>,
    pub datatype: TdmsDataType,
    pub string_value: Seq<char>,
}

pub struct DaqmxScalerView {
    pub datatype: TdmsDataType,
    pub array_dimension: u32,
    pub chunk_size: u64,
    pub scalers_size: u32,
    pub scalers: Seq<DaqFormatChangingScaler>,
    pub raw_data_size: u32,
    pub raw_data_vector: Seq<u32>,
}

pub enum RawDataIndexView {
    NoRawData,
    Daqmx(DaqmxScalerView),
    SameAsPrevious,
    NewDataIndex(NewRawDataIndex),
}

pub struct ObjectView {
    pub path: Seq<char>,
    pub raw_data_index: RawDataIndexView,
    pub property_size: u32,
    pub properties: Seq<PropertyView>,
}

impl View for TdmsProperty {
    type V = PropertyView;

    open spec fn view(&self) -> PropertyView {
        PropertyView { name: self.name@, datatype: self.datatype, string_value: self.string_value@ }
    }
}

impl View for DaqmxScaler {
    type V = DaqmxScalerView;

    open spec fn view(&self) -> DaqmxScalerView {
        DaqmxScalerView {
            datatype: self.datatype,
            array_dimension: self.array_dimension,
            chunk_size: self.chunk_size,
            scalers_size: self.scalers_size,
            scalers: self.scalers@,
            raw_data_size: self.raw_data_size,
            raw_data_vector: self.raw_data_vector@,
        }
    }
}

impl View for RawDataIndex {
    type V = RawDataIndexView;

    open spec fn view(&self) -> RawDataIndexView {
        match self {
            RawDataIndex::NoRawData => RawDataIndexView::NoRawData,
            RawDataIndex::Daqmx(x) => RawDataIndexView::Daqmx(x@),
            RawDataIndex::SameAsPrevious => RawDataIndexView::SameAsPrevious,
            RawDataIndex::NewDataIndex(x) => RawDataIndexView::NewDataIndex(*x),
        }
    }
}

/// The views of a sequence of properties.
pub open spec fn properties_view(s: Seq<TdmsProperty>) -> Seq<PropertyView> {
    s.map_values(|p: TdmsProperty| p@)
}

impl View for TdmsObject {
    type V = ObjectView;

    open spec fn view(&self) -> ObjectView {
        ObjectView {
            path: self.path@,
            raw_data_index: self.raw_data_index@,
            property_size: self.property_size,
            properties: properties_view(self.properties@),
        }
    }
}

} // verus!
