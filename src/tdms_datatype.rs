use vstd::prelude::*;

verus! {

/// The kinds of value that the format's data type codes name.
#[derive(Debug, Clone, Copy, PartialEq, Eq, Structural)]
pub enum TdmsDataType {
    Void,
    I8,
    I16,
    I32,
    I64,
    U8,
    U16,
    U32,
    U64,
    SingleFloat,
    DoubleFloat,
    ExtendedFloat,
    SingleFloatWithUnit,
    DoubleFloatWithUnit,
    ExtendedFloatWithUnit,
    String,
    Boolean,
    TimeStamp,
    FixedPoint,
    ComplexSingleFloat,
    ComplexDoubleFloat,
    DAQmxRawData,
}

/// The wire code of each kind.
pub open spec fn code_of(t: TdmsDataType) -> u32 {
    match t {
        TdmsDataType::Void => 0x0,
        TdmsDataType::I8 => 0x1,
        TdmsDataType::I16 => 0x2,
        TdmsDataType::I32 => 0x3,
        TdmsDataType::I64 => 0x4,
        TdmsDataType::U8 => 0x5,
        TdmsDataType::U16 => 0x6,
        TdmsDataType::U32 => 0x7,
        TdmsDataType::U64 => 0x8,
        TdmsDataType::SingleFloat => 0x9,
        TdmsDataType::DoubleFloat => 0xa,
        TdmsDataType::ExtendedFloat => 0xb,
        TdmsDataType::SingleFloatWithUnit => 0x19,
        TdmsDataType::DoubleFloatWithUnit => 0x1a,
        TdmsDataType::ExtendedFloatWithUnit => 0x1b,
        TdmsDataType::String => 0x20,
        TdmsDataType::Boolean => 0x21,
        TdmsDataType::TimeStamp => 0x44,
        TdmsDataType::FixedPoint => 0x4f,
        TdmsDataType::ComplexSingleFloat => 0x08000c,
        TdmsDataType::ComplexDoubleFloat => 0x10000d,
        TdmsDataType::DAQmxRawData => 0xFFFF_FFFF,
    }
}

/// The kind that a wire code names, if it is in the table.
pub open spec fn datatype_of_code(code: u32) -> Option<TdmsDataType> {
    if code == 0x0 {
        Some(TdmsDataType::Void)
    } else if code == 0x1 {
        Some(TdmsDataType::I8)
    } else if code == 0x2 {
        Some(TdmsDataType::I16)
    } else if code == 0x3 {
        Some(TdmsDataType::I32)
    } else if code == 0x4 {
        Some(TdmsDataType::I64)
    } else if code == 0x5 {
        Some(TdmsDataType::U8)
    } else if code == 0x6 {
        Some(TdmsDataType::U16)
    } else if code == 0x7 {
        Some(TdmsDataType::U32)
    } else if code == 0x8 {
        Some(TdmsDataType::U64)
    } else if code == 0x9 {
        Some(TdmsDataType::SingleFloat)
    } else if code == 0xa {
        Some(TdmsDataType::DoubleFloat)
    } else if code == 0xb {
        Some(TdmsDataType::ExtendedFloat)
    } else if code == 0x19 {
        Some(TdmsDataType::SingleFloatWithUnit)
    } else if code == 0x1a {
        Some(TdmsDataType::DoubleFloatWithUnit)
    } else if code == 0x1b {
        Some(TdmsDataType::ExtendedFloatWithUnit)
    } else if code == 0x20 {
        Some(TdmsDataType::String)
    } else if code == 0x21 {
        Some(TdmsDataType::Boolean)
    } else if code == 0x44 {
        Some(TdmsDataType::TimeStamp)
    } else if code == 0x4f {
        Some(TdmsDataType::FixedPoint)
    } else if code == 0x08000c {
        Some(TdmsDataType::ComplexSingleFloat)
    } else if code == 0x10000d {
        Some(TdmsDataType::ComplexDoubleFloat)
    } else if code == 0xFFFF_FFFF {
        Some(TdmsDataType::DAQmxRawData)
    } else {
        None
    }
}

impl TdmsDataType {
    /// Looks a wire code up in the table; `None` for a code outside it.
    pub fn from_code(code: u32) -> (r: Option<TdmsDataType>)
        ensures
            r == datatype_of_code(code),
    {
        match code {
            0x0 => Some(TdmsDataType::Void),
            0x1 => Some(TdmsDataType::I8),
            0x2 => Some(TdmsDataType::I16),
            0x3 => Some(TdmsDataType::I32),
            0x4 => Some(TdmsDataType::I64),
            0x5 => Some(TdmsDataType::U8),
            0x6 => Some(TdmsDataType::U16),
            0x7 => Some(TdmsDataType::U32),
            0x8 => Some(TdmsDataType::U64),
            0x9 => Some(TdmsDataType::SingleFloat),
            0xa => Some(TdmsDataType::DoubleFloat),
            0xb => Some(TdmsDataType::ExtendedFloat),
            0x19 => Some(TdmsDataType::SingleFloatWithUnit),
            0x1a => Some(TdmsDataType::DoubleFloatWithUnit),
            0x1b => Some(TdmsDataType::ExtendedFloatWithUnit),
            0x20 => Some(TdmsDataType::String),
            0x21 => Some(TdmsDataType::Boolean),
            0x44 => Some(TdmsDataType::TimeStamp),
            0x4f => Some(TdmsDataType::FixedPoint),
            0x08000c => Some(TdmsDataType::ComplexSingleFloat),
            0x10000d => Some(TdmsDataType::ComplexDoubleFloat),
            0xFFFF_FFFF => Some(TdmsDataType::DAQmxRawData),
            _ => None,
        }
    }

    /// The wire code of this kind.
    pub fn code(&self) -> (r: u32)
        ensures
            r == code_of(*self),
    {
        match self {
            TdmsDataType::Void => 0x0,
            TdmsDataType::I8 => 0x1,
            TdmsDataType::I16 => 0x2,
            TdmsDataType::I32 => 0x3,
            TdmsDataType::I64 => 0x4,
            TdmsDataType::U8 => 0x5,
            TdmsDataType::U16 => 0x6,
            TdmsDataType::U32 => 0x7,
            TdmsDataType::U64 => 0x8,
            TdmsDataType::SingleFloat => 0x9,
            TdmsDataType::DoubleFloat => 0xa,
            TdmsDataType::ExtendedFloat => 0xb,
            TdmsDataType::SingleFloatWithUnit => 0x19,
            TdmsDataType::DoubleFloatWithUnit => 0x1a,
            TdmsDataType::ExtendedFloatWithUnit => 0x1b,
            TdmsDataType::String => 0x20,
            TdmsDataType::Boolean => 0x21,
            TdmsDataType::TimeStamp => 0x44,
            TdmsDataType::FixedPoint => 0x4f,
            TdmsDataType::ComplexSingleFloat => 0x08000c,
            TdmsDataType::ComplexDoubleFloat => 0x10000d,
            TdmsDataType::DAQmxRawData => 0xFFFF_FFFF,
        }
    }
}

/// The table works both ways: a kind's code names that kind, and a code that
/// names a kind is that kind's code.
pub proof fn lemma_code_table_bidirectional(t: TdmsDataType, code: u32)
    ensures
        datatype_of_code(code_of(t)) == Some(t),
        datatype_of_code(code) == Some(t) ==> code_of(t) == code,
{
}

} // verus!
