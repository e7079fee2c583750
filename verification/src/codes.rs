//! The numeric codes of the ODBC C interface that the driver reads and returns,
//! each as an enum with its decoder and encoder.

use vstd::prelude::*;

verus! {

/// The overall outcome that every driver entry point reports to the driver manager.
#[derive(Clone, Copy, Debug, PartialEq, Eq, Structural)]
pub enum ReturnCode {
    /// `SQL_INVALID_HANDLE`: a handle was null or of the wrong kind.
    InvalidHandle,
    /// `SQL_ERROR`: the function failed.
    Error,
    /// `SQL_SUCCESS`.
    Success,
    /// `SQL_SUCCESS_WITH_INFO`: success with a warning, such as a truncated string.
    SuccessWithInfo,
    /// `SQL_NO_DATA`: there is nothing (more) to return.
    NoData,
}

impl ReturnCode {
    /// The `SQLRETURN` value of this outcome.
    pub open spec fn spec_code(self) -> i16 {
        match self {
            ReturnCode::InvalidHandle => -2i16,
            ReturnCode::Error => -1i16,
            ReturnCode::Success => 0,
            ReturnCode::SuccessWithInfo => 1,
            ReturnCode::NoData => 100,
        }
    }

    /// Returns the `SQLRETURN` value of this outcome.
    pub fn code(&self) -> (c: i16)
        ensures
            c == self.spec_code(),
    {
        match self {
            ReturnCode::InvalidHandle => -2,
            ReturnCode::Error => -1,
            ReturnCode::Success => 0,
            ReturnCode::SuccessWithInfo => 1,
            ReturnCode::NoData => 100,
        }
    }
}

/// The kinds of handle that `SQLAllocHandle` and `SQLFreeHandle` work on.
#[derive(Clone, Copy, Debug, PartialEq, Eq, Structural)]
pub enum HandleType {
    /// An environment handle.
    Env,
    /// A connection handle.
    Dbc,
    /// A statement handle.
    Stmt,
    /// A descriptor handle.
    Desc,
    /// A connection-pooling token handle.
    DbcInfoToken,
}

impl HandleType {
    /// The numeric value that stands for this `HandleType` in the ODBC C headers.
    pub open spec fn spec_code(self) -> i16 {
        match self {
            HandleType::Env => 1i16,
            HandleType::Dbc => 2i16,
            HandleType::Stmt => 3i16,
            HandleType::Desc => 4i16,
            HandleType::DbcInfoToken => 6i16,
        }
    }

    /// Returns the numeric value of this `HandleType`.
    pub fn code(&self) -> (c: i16)
        ensures
            c == self.spec_code(),
    {
        match self {
            HandleType::Env => 1,
            HandleType::Dbc => 2,
            HandleType::Stmt => 3,
            HandleType::Desc => 4,
            HandleType::DbcInfoToken => 6,
        }
    }
}

/// The `HandleType` whose numeric value is `code`, if there is one.
pub open spec fn handle_type_of(code: i16) -> Option<HandleType> {
    match code {
        1i16 => Some(HandleType::Env),
        2i16 => Some(HandleType::Dbc),
        3i16 => Some(HandleType::Stmt),
        4i16 => Some(HandleType::Desc),
        6i16 => Some(HandleType::DbcInfoToken),
        _ => None,
    }
}

/// Decodes a raw `i16` received over the C interface into a `HandleType`.
pub fn decode_handle_type(code: i16) -> (r: Option<HandleType>)
    ensures
        r == handle_type_of(code),
        r matches Some(t) ==> t.spec_code() == code,
{
    match code {
        1i16 => Some(HandleType::Env),
        2i16 => Some(HandleType::Dbc),
        3i16 => Some(HandleType::Stmt),
        4i16 => Some(HandleType::Desc),
        6i16 => Some(HandleType::DbcInfoToken),
        _ => None,
    }
}

/// The environment attributes of `SQLSetEnvAttr` and `SQLGetEnvAttr`.
#[derive(Clone, Copy, Debug, PartialEq, Eq, Structural)]
pub enum EnvironmentAttribute {
    /// `SQL_ATTR_ODBC_VERSION`.
    OdbcVersion,
    /// `SQL_ATTR_CONNECTION_POOLING`.
    ConnectionPooling,
    /// `SQL_ATTR_CP_MATCH`.
    CpMatch,
    /// `SQL_ATTR_OUTPUT_NTS`.
    OutputNts,
}

impl EnvironmentAttribute {
    /// The numeric value that stands for this `EnvironmentAttribute` in the ODBC C headers.
    pub open spec fn spec_code(self) -> i32 {
        match self {
            EnvironmentAttribute::OdbcVersion => 200i32,
            EnvironmentAttribute::ConnectionPooling => 201i32,
            EnvironmentAttribute::CpMatch => 202i32,
            EnvironmentAttribute::OutputNts => 10001i32,
        }
    }

    /// Returns the numeric value of this `EnvironmentAttribute`.
    pub fn code(&self) -> (c: i32)
        ensures
            c == self.spec_code(),
    {
        match self {
            EnvironmentAttribute::OdbcVersion => 200,
            EnvironmentAttribute::ConnectionPooling => 201,
            EnvironmentAttribute::CpMatch => 202,
            EnvironmentAttribute::OutputNts => 10001,
        }
    }
}

/// The `EnvironmentAttribute` whose numeric value is `code`, if there is one.
pub open spec fn environment_attribute_of(code: i32) -> Option<EnvironmentAttribute> {
    match code {
        200i32 => Some(EnvironmentAttribute::OdbcVersion),
        201i32 => Some(EnvironmentAttribute::ConnectionPooling),
        202i32 => Some(EnvironmentAttribute::CpMatch),
        10001i32 => Some(EnvironmentAttribute::OutputNts),
        _ => None,
    }
}

/// Decodes a raw `i32` received over the C interface into a `EnvironmentAttribute`.
pub fn decode_environment_attribute(code: i32) -> (r: Option<EnvironmentAttribute>)
    ensures
        r == environment_attribute_of(code),
        r matches Some(t) ==> t.spec_code() == code,
{
    match code {
        200i32 => Some(EnvironmentAttribute::OdbcVersion),
        201i32 => Some(EnvironmentAttribute::ConnectionPooling),
        202i32 => Some(EnvironmentAttribute::CpMatch),
        10001i32 => Some(EnvironmentAttribute::OutputNts),
        _ => None,
    }
}

/// The ODBC versions an application can ask an environment to behave as.
#[derive(Clone, Copy, Debug, PartialEq, Eq, Structural)]
pub enum OdbcVersion {
    /// `SQL_OV_ODBC3`.
    Odbc3,
    /// `SQL_OV_ODBC3_80`.
    Odbc3_80,
}

impl OdbcVersion {
    /// The numeric value that stands for this `OdbcVersion` in the ODBC C headers.
    pub open spec fn spec_code(self) -> i32 {
        match self {
            OdbcVersion::Odbc3 => 3i32,
            OdbcVersion::Odbc3_80 => 380i32,
        }
    }

    /// Returns the numeric value of this `OdbcVersion`.
    pub fn code(&self) -> (c: i32)
        ensures
            c == self.spec_code(),
    {
        match self {
            OdbcVersion::Odbc3 => 3,
            OdbcVersion::Odbc3_80 => 380,
        }
    }
}

/// The `OdbcVersion` whose numeric value is `code`, if there is one.
pub open spec fn odbc_version_of(code: i32) -> Option<OdbcVersion> {
    match code {
        3i32 => Some(OdbcVersion::Odbc3),
        380i32 => Some(OdbcVersion::Odbc3_80),
        _ => None,
    }
}

/// Decodes a raw `i32` received over the C interface into a `OdbcVersion`.
pub fn decode_odbc_version(code: i32) -> (r: Option<OdbcVersion>)
    ensures
        r == odbc_version_of(code),
        r matches Some(t) ==> t.spec_code() == code,
{
    match code {
        3i32 => Some(OdbcVersion::Odbc3),
        380i32 => Some(OdbcVersion::Odbc3_80),
        _ => None,
    }
}

/// The C data types an application can ask `SQLGetData` to convert a column to.
#[derive(Clone, Copy, Debug, PartialEq, Eq, Structural)]
pub enum CDataType {
    Ard,
    Apd,
    UTinyInt,
    UBigInt,
    STinyInt,
    SBigInt,
    ULong,
    UShort,
    SLong,
    SShort,
    Guid,
    WChar,
    Bit,
    Binary,
    Char,
    Numeric,
    Float,
    Double,
    Date,
    Time,
    TimeStamp,
    TypeDate,
    TypeTime,
    TypeTimestamp,
    Default,
    IntervalYear,
    IntervalMonth,
    IntervalDay,
    IntervalHour,
    IntervalMinute,
    IntervalSecond,
    IntervalYearToMonth,
    IntervalDayToHour,
    IntervalDayToMinute,
    IntervalDayToSecond,
    IntervalHourToMinute,
    IntervalHourToSecond,
    IntervalMinuteToSecond,
    SsTime2,
    SsTimestampOffset,
}

impl CDataType {
    /// The numeric value that stands for this `CDataType` in the ODBC C headers.
    pub open spec fn spec_code(self) -> i16 {
        match self {
            CDataType::Ard => -99i16,
            CDataType::Apd => -100i16,
            CDataType::UTinyInt => -28i16,
            CDataType::UBigInt => -27i16,
            CDataType::STinyInt => -26i16,
            CDataType::SBigInt => -25i16,
            CDataType::ULong => -18i16,
            CDataType::UShort => -17i16,
            CDataType::SLong => -16i16,
            CDataType::SShort => -15i16,
            CDataType::Guid => -11i16,
            CDataType::WChar => -8i16,
            CDataType::Bit => -7i16,
            CDataType::Binary => -2i16,
            CDataType::Char => 1i16,
            CDataType::Numeric => 2i16,
            CDataType::Float => 7i16,
            CDataType::Double => 8i16,
            CDataType::Date => 9i16,
            CDataType::Time => 10i16,
            CDataType::TimeStamp => 11i16,
            CDataType::TypeDate => 91i16,
            CDataType::TypeTime => 92i16,
            CDataType::TypeTimestamp => 93i16,
            CDataType::Default => 99i16,
            CDataType::IntervalYear => 101i16,
            CDataType::IntervalMonth => 102i16,
            CDataType::IntervalDay => 103i16,
            CDataType::IntervalHour => 104i16,
            CDataType::IntervalMinute => 105i16,
            CDataType::IntervalSecond => 106i16,
            CDataType::IntervalYearToMonth => 107i16,
            CDataType::IntervalDayToHour => 108i16,
            CDataType::IntervalDayToMinute => 109i16,
            CDataType::IntervalDayToSecond => 110i16,
            CDataType::IntervalHourToMinute => 111i16,
            CDataType::IntervalHourToSecond => 112i16,
            CDataType::IntervalMinuteToSecond => 113i16,
            CDataType::SsTime2 => 16384i16,
            CDataType::SsTimestampOffset => 16385i16,
        }
    }

    /// Returns the numeric value of this `CDataType`.
    pub fn code(&self) -> (c: i16)
        ensures
            c == self.spec_code(),
    {
        match self {
            CDataType::Ard => -99,
            CDataType::Apd => -100,
            CDataType::UTinyInt => -28,
            CDataType::UBigInt => -27,
            CDataType::STinyInt => -26,
            CDataType::SBigInt => -25,
            CDataType::ULong => -18,
            CDataType::UShort => -17,
            CDataType::SLong => -16,
            CDataType::SShort => -15,
            CDataType::Guid => -11,
            CDataType::WChar => -8,
            CDataType::Bit => -7,
            CDataType::Binary => -2,
            CDataType::Char => 1,
            CDataType::Numeric => 2,
            CDataType::Float => 7,
            CDataType::Double => 8,
            CDataType::Date => 9,
            CDataType::Time => 10,
            CDataType::TimeStamp => 11,
            CDataType::TypeDate => 91,
            CDataType::TypeTime => 92,
            CDataType::TypeTimestamp => 93,
            CDataType::Default => 99,
            CDataType::IntervalYear => 101,
            CDataType::IntervalMonth => 102,
            CDataType::IntervalDay => 103,
            CDataType::IntervalHour => 104,
            CDataType::IntervalMinute => 105,
            CDataType::IntervalSecond => 106,
            CDataType::IntervalYearToMonth => 107,
            CDataType::IntervalDayToHour => 108,
            CDataType::IntervalDayToMinute => 109,
            CDataType::IntervalDayToSecond => 110,
            CDataType::IntervalHourToMinute => 111,
            CDataType::IntervalHourToSecond => 112,
            CDataType::IntervalMinuteToSecond => 113,
            CDataType::SsTime2 => 16384,
            CDataType::SsTimestampOffset => 16385,
        }
    }
}

/// The `CDataType` whose numeric value is `code`, if there is one.
pub open spec fn c_data_type_of(code: i16) -> Option<CDataType> {
    match code {
        -99i16 => Some(CDataType::Ard),
        -100i16 => Some(CDataType::Apd),
        -28i16 => Some(CDataType::UTinyInt),
        -27i16 => Some(CDataType::UBigInt),
        -26i16 => Some(CDataType::STinyInt),
        -25i16 => Some(CDataType::SBigInt),
        -18i16 => Some(CDataType::ULong),
        -17i16 => Some(CDataType::UShort),
        -16i16 => Some(CDataType::SLong),
        -15i16 => Some(CDataType::SShort),
        -11i16 => Some(CDataType::Guid),
        -8i16 => Some(CDataType::WChar),
        -7i16 => Some(CDataType::Bit),
        -2i16 => Some(CDataType::Binary),
        1i16 => Some(CDataType::Char),
        2i16 => Some(CDataType::Numeric),
        7i16 => Some(CDataType::Float),
        8i16 => Some(CDataType::Double),
        9i16 => Some(CDataType::Date),
        10i16 => Some(CDataType::Time),
        11i16 => Some(CDataType::TimeStamp),
        91i16 => Some(CDataType::TypeDate),
        92i16 => Some(CDataType::TypeTime),
        93i16 => Some(CDataType::TypeTimestamp),
        99i16 => Some(CDataType::Default),
        101i16 => Some(CDataType::IntervalYear),
        102i16 => Some(CDataType::IntervalMonth),
        103i16 => Some(CDataType::IntervalDay),
        104i16 => Some(CDataType::IntervalHour),
        105i16 => Some(CDataType::IntervalMinute),
        106i16 => Some(CDataType::IntervalSecond),
        107i16 => Some(CDataType::IntervalYearToMonth),
        108i16 => Some(CDataType::IntervalDayToHour),
        109i16 => Some(CDataType::IntervalDayToMinute),
        110i16 => Some(CDataType::IntervalDayToSecond),
        111i16 => Some(CDataType::IntervalHourToMinute),
        112i16 => Some(CDataType::IntervalHourToSecond),
        113i16 => Some(CDataType::IntervalMinuteToSecond),
        16384i16 => Some(CDataType::SsTime2),
        16385i16 => Some(CDataType::SsTimestampOffset),
        _ => None,
    }
}

/// Decodes a raw `i16` received over the C interface into a `CDataType`.
pub fn decode_c_data_type(code: i16) -> (r: Option<CDataType>)
    ensures
        r == c_data_type_of(code),
        r matches Some(t) ==> t.spec_code() == code,
{
    match code {
        -99i16 => Some(CDataType::Ard),
        -100i16 => Some(CDataType::Apd),
        -28i16 => Some(CDataType::UTinyInt),
        -27i16 => Some(CDataType::UBigInt),
        -26i16 => Some(CDataType::STinyInt),
        -25i16 => Some(CDataType::SBigInt),
        -18i16 => Some(CDataType::ULong),
        -17i16 => Some(CDataType::UShort),
        -16i16 => Some(CDataType::SLong),
        -15i16 => Some(CDataType::SShort),
        -11i16 => Some(CDataType::Guid),
        -8i16 => Some(CDataType::WChar),
        -7i16 => Some(CDataType::Bit),
        -2i16 => Some(CDataType::Binary),
        1i16 => Some(CDataType::Char),
        2i16 => Some(CDataType::Numeric),
        7i16 => Some(CDataType::Float),
        8i16 => Some(CDataType::Double),
        9i16 => Some(CDataType::Date),
        10i16 => Some(CDataType::Time),
        11i16 => Some(CDataType::TimeStamp),
        91i16 => Some(CDataType::TypeDate),
        92i16 => Some(CDataType::TypeTime),
        93i16 => Some(CDataType::TypeTimestamp),
        99i16 => Some(CDataType::Default),
        101i16 => Some(CDataType::IntervalYear),
        102i16 => Some(CDataType::IntervalMonth),
        103i16 => Some(CDataType::IntervalDay),
        104i16 => Some(CDataType::IntervalHour),
        105i16 => Some(CDataType::IntervalMinute),
        106i16 => Some(CDataType::IntervalSecond),
        107i16 => Some(CDataType::IntervalYearToMonth),
        108i16 => Some(CDataType::IntervalDayToHour),
        109i16 => Some(CDataType::IntervalDayToMinute),
        110i16 => Some(CDataType::IntervalDayToSecond),
        111i16 => Some(CDataType::IntervalHourToMinute),
        112i16 => Some(CDataType::IntervalHourToSecond),
        113i16 => Some(CDataType::IntervalMinuteToSecond),
        16384i16 => Some(CDataType::SsTime2),
        16385i16 => Some(CDataType::SsTimestampOffset),
        _ => None,
    }
}

/// The column attributes (descriptor fields) that `SQLColAttributeW` answers.
#[derive(Clone, Copy, Debug, PartialEq, Eq, Structural)]
pub enum ColumnAttribute {
    /// `SQL_DESC_COUNT`: the number of columns.
    Count,
    /// `SQL_DESC_NAME`.
    Name,
    /// `SQL_DESC_TYPE`.
    Type,
    /// `SQL_DESC_CONCISE_TYPE`.
    ConciseType,
    /// `SQL_DESC_LENGTH`.
    Length,
    /// `SQL_DESC_OCTET_LENGTH`.
    OctetLength,
    /// `SQL_DESC_DISPLAY_SIZE`.
    DisplaySize,
    /// `SQL_DESC_NULLABLE`.
    Nullable,
    /// `SQL_DESC_UNNAMED`.
    Unnamed,
    /// `SQL_DESC_LABEL`.
    Label,
}

impl ColumnAttribute {
    /// The numeric value that stands for this `ColumnAttribute` in the ODBC C headers.
    pub open spec fn spec_code(self) -> u16 {
        match self {
            ColumnAttribute::Count => 1001u16,
            ColumnAttribute::Name => 1011u16,
            ColumnAttribute::Type => 1002u16,
            ColumnAttribute::ConciseType => 2u16,
            ColumnAttribute::Length => 1003u16,
            ColumnAttribute::OctetLength => 1013u16,
            ColumnAttribute::DisplaySize => 6u16,
            ColumnAttribute::Nullable => 1008u16,
            ColumnAttribute::Unnamed => 1012u16,
            ColumnAttribute::Label => 18u16,
        }
    }

    /// Returns the numeric value of this `ColumnAttribute`.
    pub fn code(&self) -> (c: u16)
        ensures
            c == self.spec_code(),
    {
        match self {
            ColumnAttribute::Count => 1001,
            ColumnAttribute::Name => 1011,
            ColumnAttribute::Type => 1002,
            ColumnAttribute::ConciseType => 2,
            ColumnAttribute::Length => 1003,
            ColumnAttribute::OctetLength => 1013,
            ColumnAttribute::DisplaySize => 6,
            ColumnAttribute::Nullable => 1008,
            ColumnAttribute::Unnamed => 1012,
            ColumnAttribute::Label => 18,
        }
    }
}

/// The `ColumnAttribute` whose numeric value is `code`, if there is one.
pub open spec fn column_attribute_of(code: u16) -> Option<ColumnAttribute> {
    match code {
        1001u16 => Some(ColumnAttribute::Count),
        1011u16 => Some(ColumnAttribute::Name),
        1002u16 => Some(ColumnAttribute::Type),
        2u16 => Some(ColumnAttribute::ConciseType),
        1003u16 => Some(ColumnAttribute::Length),
        1013u16 => Some(ColumnAttribute::OctetLength),
        6u16 => Some(ColumnAttribute::DisplaySize),
        1008u16 => Some(ColumnAttribute::Nullable),
        1012u16 => Some(ColumnAttribute::Unnamed),
        18u16 => Some(ColumnAttribute::Label),
        _ => None,
    }
}

/// Decodes a raw `u16` received over the C interface into a `ColumnAttribute`.
pub fn decode_column_attribute(code: u16) -> (r: Option<ColumnAttribute>)
    ensures
        r == column_attribute_of(code),
        r matches Some(t) ==> t.spec_code() == code,
{
    match code {
        1001u16 => Some(ColumnAttribute::Count),
        1011u16 => Some(ColumnAttribute::Name),
        1002u16 => Some(ColumnAttribute::Type),
        2u16 => Some(ColumnAttribute::ConciseType),
        1003u16 => Some(ColumnAttribute::Length),
        1013u16 => Some(ColumnAttribute::OctetLength),
        6u16 => Some(ColumnAttribute::DisplaySize),
        1008u16 => Some(ColumnAttribute::Nullable),
        1012u16 => Some(ColumnAttribute::Unnamed),
        18u16 => Some(ColumnAttribute::Label),
        _ => None,
    }
}

/// Decoding inverts the ODBC numbering: every handle type, environment attribute,
/// ODBC version, C data type and column attribute is decoded back from its own
/// number, so no defined code is refused.
pub proof fn lemma_codes_decode_their_numbers(
    h: HandleType,
    e: EnvironmentAttribute,
    v: OdbcVersion,
    c: CDataType,
    a: ColumnAttribute,
)
    ensures
        handle_type_of(h.spec_code()) == Some(h),
        environment_attribute_of(e.spec_code()) == Some(e),
        odbc_version_of(v.spec_code()) == Some(v),
        c_data_type_of(c.spec_code()) == Some(c),
        column_attribute_of(a.spec_code()) == Some(a),
{
}

/// Different values of a code type have different numbers, so a number names at
/// most one of them.
pub proof fn lemma_code_numbers_distinct(c1: CDataType, c2: CDataType, a1: ColumnAttribute, a2: ColumnAttribute)
    ensures
        c1.spec_code() == c2.spec_code() ==> c1 == c2,
        a1.spec_code() == a2.spec_code() ==> a1 == a2,
{
    lemma_codes_decode_their_numbers(HandleType::Env, EnvironmentAttribute::OdbcVersion, OdbcVersion::Odbc3, c1, a1);
    lemma_codes_decode_their_numbers(HandleType::Env, EnvironmentAttribute::OdbcVersion, OdbcVersion::Odbc3, c2, a2);
}

} // verus!
