use vstd::prelude::*;

verus! {

/// Everything that can go wrong while indexing a file.
#[derive(Debug, Clone, PartialEq, Eq)]
pub enum TdmsParseError {
    /// The input could not be read.
    IoError { message: String },
    /// The segment does not start with the format's tag.
    IncorrectTdmsTag,
    IncorrectArrayDimensionInTdmsObject,
    /// A DAQmx raw data index whose data type is not the raw-data sentinel.
    IncorrectDataTypeInDaqmxRawDataIndex,
    CannotReadTimestampChannel,
    CannotReadIndexChannel,
    CannotReadHeaderChannel,
    CannotReadMetadataChannel,
    UnexpectedSegment,
    /// An object lies in a group other than the stream group, or its path has no known shape.
    UnexpectedGroup,
    /// A channel other than the known ones.
    UnexpectedChannel,
    /// A property name outside the closed schema of the file or stream object.
    UnexpectedProperty { property: String },
    /// A segment that should carry metadata does not.
    NoMetadata,
    /// The three channels hold different numbers of records.
    ChannelLengthMismatch { index: usize, timestamp: usize, header: usize },
    GeneralError { message: String },
    /// The data ends inside a field.
    UnexpectedEndOfData,
    /// A data type code outside the supported table.
    UnsupportedDataType { code: u32 },
    /// A DAQmx digital line scaler, whose layout this decoder does not know.
    UnsupportedDigitalLineScaler,
    /// A DAQmx raw data index with more than one format changing scaler.
    UnsupportedScalerCount { count: u32 },
    /// A channel's chunk size is not a whole number of records.
    ChunkSizeNotMultiple { chunk_size: u64, stride: u64 },
    /// A numeric property whose value is not a decimal number of the field's width.
    InvalidPropertyValue { property: String },
    /// A byte offset that does not fit in 64 bits.
    OffsetOutOfRange,
}

/// An error with its text fields seen as character sequences.
pub enum ParseErrorView {
    IoError { message: Seq<char> },
    IncorrectTdmsTag,
    IncorrectArrayDimensionInTdmsObject,
    IncorrectDataTypeInDaqmxRawDataIndex,
    CannotReadTimestampChannel,
    CannotReadIndexChannel,
    CannotReadHeaderChannel,
    CannotReadMetadataChannel,
    UnexpectedSegment,
    UnexpectedGroup,
    UnexpectedChannel,
    UnexpectedProperty { property: Seq<char> },
    NoMetadata,
    ChannelLengthMismatch { index: usize, timestamp: usize, header: usize },
    GeneralError { message: Seq<char> },
    UnexpectedEndOfData,
    UnsupportedDataType { code: u32 },
    UnsupportedDigitalLineScaler,
    UnsupportedScalerCount { count: u32 },
    ChunkSizeNotMultiple { chunk_size: u64, stride: u64 },
    InvalidPropertyValue { property: Seq<char> },
    OffsetOutOfRange,
}

impl View for TdmsParseError {
    type V = ParseErrorView;

    open spec fn view(&self) -> ParseErrorView {
        match self {
            TdmsParseError::IoError { message } => ParseErrorView::IoError { message: message@ },
            TdmsParseError::IncorrectTdmsTag => ParseErrorView::IncorrectTdmsTag,
            TdmsParseError::IncorrectArrayDimensionInTdmsObject => ParseErrorView::IncorrectArrayDimensionInTdmsObject,
            TdmsParseError::IncorrectDataTypeInDaqmxRawDataIndex => ParseErrorView::IncorrectDataTypeInDaqmxRawDataIndex,
            TdmsParseError::CannotReadTimestampChannel => ParseErrorView::CannotReadTimestampChannel,
            TdmsParseError::CannotReadIndexChannel => ParseErrorView::CannotReadIndexChannel,
            TdmsParseError::CannotReadHeaderChannel => ParseErrorView::CannotReadHeaderChannel,
            TdmsParseError::CannotReadMetadataChannel => ParseErrorView::CannotReadMetadataChannel,
            TdmsParseError::UnexpectedSegment => ParseErrorView::UnexpectedSegment,
            TdmsParseError::UnexpectedGroup => ParseErrorView::UnexpectedGroup,
            TdmsParseError::UnexpectedChannel => ParseErrorView::UnexpectedChannel,
            TdmsParseError::UnexpectedProperty { property } => ParseErrorView::UnexpectedProperty { property: property@ },
            TdmsParseError::NoMetadata => ParseErrorView::NoMetadata,
            TdmsParseError::ChannelLengthMismatch { index, timestamp, header } => ParseErrorView::ChannelLengthMismatch { index: *index, timestamp: *timestamp, header: *header },
            TdmsParseError::GeneralError { message } => ParseErrorView::GeneralError { message: message@ },
            TdmsParseError::UnexpectedEndOfData => ParseErrorView::UnexpectedEndOfData,
            TdmsParseError::UnsupportedDataType { code } => ParseErrorView::UnsupportedDataType { code: *code },
            TdmsParseError::UnsupportedDigitalLineScaler => ParseErrorView::UnsupportedDigitalLineScaler,
            TdmsParseError::UnsupportedScalerCount { count } => ParseErrorView::UnsupportedScalerCount { count: *count },
            TdmsParseError::ChunkSizeNotMultiple { chunk_size, stride } => ParseErrorView::ChunkSizeNotMultiple { chunk_size: *chunk_size, stride: *stride },
            TdmsParseError::InvalidPropertyValue { property } => ParseErrorView::InvalidPropertyValue { property: property@ },
            TdmsParseError::OffsetOutOfRange => ParseErrorView::OffsetOutOfRange,
        }
    }
}

} // verus!
