//! `SQLGetInfo`: what the driver answers about itself and its data source.

use crate::codes::ReturnCode;
use crate::handles::ConnectionHandle;
use crate::text::{c_copy, c_copy_len, c_string_bytes, c_string_of, copy_c_string};
use vstd::prelude::*;

verus! {

/// The kind of value an information type answers with.
#[derive(Clone, Copy, Debug, PartialEq, Eq, Structural)]
pub enum InfoReturnType {
    /// A character string that is "Y" or "N".
    YesNo,
    /// A character string.
    Text,
    /// An `SQLUSMALLINT`.
    USmallInt,
    /// An `SQLUINTEGER` (often a bitmask).
    UInteger,
}

/// A value that `SQLGetInfo` answers with.
#[derive(Debug)]
pub enum InfoValue {
    /// A character string.
    Text(String),
    /// An `SQLUSMALLINT`.
    USmallInt(u16),
    /// An `SQLUINTEGER`.
    UInteger(u32),
}

/// The mathematical content of an [`InfoValue`].
pub enum InfoAnswer {
    /// A character string.
    Text(Seq<char>),
    /// An `SQLUSMALLINT`.
    USmallInt(u16),
    /// An `SQLUINTEGER`.
    UInteger(u32),
}

impl View for InfoValue {
    type V = InfoAnswer;

    open spec fn view(&self) -> InfoAnswer {
        match self {
            InfoValue::Text(s) => InfoAnswer::Text(s@),
            InfoValue::USmallInt(v) => InfoAnswer::USmallInt(*v),
            InfoValue::UInteger(v) => InfoAnswer::UInteger(*v),
        }
    }
}

/// The information types that an application can ask `SQLGetInfo` about.
#[derive(Clone, Copy, Debug, PartialEq, Eq, Structural)]
pub enum InfoType {
    MaxDriverConnections,
    MaxConcurrentActivities,
    DataSourceName,
    DriverName,
    DriverVer,
    ServerName,
    SearchPatternEscape,
    DbmsName,
    DbmsVer,
    AccessibleTables,
    AccessibleProcedures,
    ConcatNullBehavior,
    CursorCommitBehaviour,
    DataSourceReadOnly,
    DefaultTxnIsolation,
    ExpressionsInOrderBy,
    IdentifierCase,
    IdentifierQuoteChar,
    MaxColumnNameLen,
    MaxCursorNameLen,
    MaxSchemaNameLen,
    MaxCatalogNameLen,
    MaxTableNameLen,
    MultResultSets,
    OuterJoins,
    SchemaTerm,
    CatalogNameSeparator,
    CatalogTerm,
    ScrollOptions,
    TransactionCapable,
    UserName,
    ConvertFunctions,
    NumericFunctions,
    StringFunctions,
    SystemFunctions,
    TimedateFunctions,
    TransactionIsolationProtocol,
    Integrity,
    CorrelationName,
    NonNullableColumns,
    DriverOdbcVer,
    GetDataExtensions,
    SqlFileUsage,
    NullCollation,
    AlterTable,
    ColumnAlias,
    GroupBy,
    OrderByColumnsInSelect,
    SchemaUsage,
    CatalogUsage,
    SqlQuotedIdentifierCase,
    SpecialCharacters,
    Subqueries,
    UnionStatement,
    MaxColumnsInGroupBy,
    MaxColumnsInIndex,
    MaxColumnsInOrderBy,
    MaxColumnsInSelect,
    MaxColumnsInTable,
    MaxIndexSize,
    MaxRowSizeIncludesLong,
    MaxRowSize,
    MaxStatementLen,
    MaxTablesInSelect,
    MaxUserNameLen,
    TimedateAddIntervals,
    TimedateDiffIntervals,
    NeedLongDataLen,
    LikeEscapeClause,
    CatalogLocation,
    OuterJoinCapabilities,
    ActiveEnvironments,
    SqlConformance,
    BatchRowCount,
    BatchSupport,
    DynamicCursorAttributes1,
    DynamicCursorAttributes2,
    ForwardOnlyCursorAttributes1,
    ForwardOnlyCursorAttributes2,
    KeysetCursorAttributes1,
    KeysetCursorAttributes2,
    OdbcInterfaceConformance,
    ParamArrayRowCounts,
    ParamArraySelects,
    Sql92DatetimeFunctions,
    Sql92ForeignKeyDeleteRule,
    Sql92ForeignKeyUpdateRule,
    Sql92Grant,
    Sql92NumericValueFunctions,
    Sql92Predicates,
    Sql92RelationalJoinOperators,
    Sql92Revoke,
    Sql92RowValueConstructor,
    Sql92StringFunctions,
    Sql92ValueExpressions,
    StaticCursorAttributes1,
    StaticCursorAttributes2,
    AggregateFunctions,
    XopenCliYear,
    CursorSensitivity,
    DescribeParameter,
    CatalogName,
    CollationSeq,
    MaxIdentifierLen,
    AsyncMode,
    MaxAsyncConcurrentStatements,
    AsyncDbcFunctions,
    DriverAwarePoolingSupported,
    AsyncNotification,
}

impl InfoType {
    /// The numeric value that stands for this `InfoType` in the ODBC C headers.
    pub open spec fn spec_code(self) -> u16 {
        match self {
            InfoType::MaxDriverConnections => 0u16,
            InfoType::MaxConcurrentActivities => 1u16,
            InfoType::DataSourceName => 2u16,
            InfoType::DriverName => 6u16,
            InfoType::DriverVer => 7u16,
            InfoType::ServerName => 13u16,
            InfoType::SearchPatternEscape => 14u16,
            InfoType::DbmsName => 17u16,
            InfoType::DbmsVer => 18u16,
            InfoType::AccessibleTables => 19u16,
            InfoType::AccessibleProcedures => 20u16,
            InfoType::ConcatNullBehavior => 22u16,
            InfoType::CursorCommitBehaviour => 23u16,
            InfoType::DataSourceReadOnly => 25u16,
            InfoType::DefaultTxnIsolation => 26u16,
            InfoType::ExpressionsInOrderBy => 27u16,
            InfoType::IdentifierCase => 28u16,
            InfoType::IdentifierQuoteChar => 29u16,
            InfoType::MaxColumnNameLen => 30u16,
            InfoType::MaxCursorNameLen => 31u16,
            InfoType::MaxSchemaNameLen => 32u16,
            InfoType::MaxCatalogNameLen => 34u16,
            InfoType::MaxTableNameLen => 35u16,
            InfoType::MultResultSets => 36u16,
            InfoType::OuterJoins => 38u16,
            InfoType::SchemaTerm => 39u16,
            InfoType::CatalogNameSeparator => 41u16,
            InfoType::CatalogTerm => 42u16,
            InfoType::ScrollOptions => 44u16,
            InfoType::TransactionCapable => 46u16,
            InfoType::UserName => 47u16,
            InfoType::ConvertFunctions => 48u16,
            InfoType::NumericFunctions => 49u16,
            InfoType::StringFunctions => 50u16,
            InfoType::SystemFunctions => 51u16,
            InfoType::TimedateFunctions => 52u16,
            InfoType::TransactionIsolationProtocol => 72u16,
            InfoType::Integrity => 73u16,
            InfoType::CorrelationName => 74u16,
            InfoType::NonNullableColumns => 75u16,
            InfoType::DriverOdbcVer => 77u16,
            InfoType::GetDataExtensions => 81u16,
            InfoType::SqlFileUsage => 84u16,
            InfoType::NullCollation => 85u16,
            InfoType::AlterTable => 86u16,
            InfoType::ColumnAlias => 87u16,
            InfoType::GroupBy => 88u16,
            InfoType::OrderByColumnsInSelect => 90u16,
            InfoType::SchemaUsage => 91u16,
            InfoType::CatalogUsage => 92u16,
            InfoType::SqlQuotedIdentifierCase => 93u16,
            InfoType::SpecialCharacters => 94u16,
            InfoType::Subqueries => 95u16,
            InfoType::UnionStatement => 96u16,
            InfoType::MaxColumnsInGroupBy => 97u16,
            InfoType::MaxColumnsInIndex => 98u16,
            InfoType::MaxColumnsInOrderBy => 99u16,
            InfoType::MaxColumnsInSelect => 100u16,
            InfoType::MaxColumnsInTable => 101u16,
            InfoType::MaxIndexSize => 102u16,
            InfoType::MaxRowSizeIncludesLong => 103u16,
            InfoType::MaxRowSize => 104u16,
            InfoType::MaxStatementLen => 105u16,
            InfoType::MaxTablesInSelect => 106u16,
            InfoType::MaxUserNameLen => 107u16,
            InfoType::TimedateAddIntervals => 109u16,
            InfoType::TimedateDiffIntervals => 110u16,
            InfoType::NeedLongDataLen => 111u16,
            InfoType::LikeEscapeClause => 113u16,
            InfoType::CatalogLocation => 114u16,
            InfoType::OuterJoinCapabilities => 115u16,
            InfoType::ActiveEnvironments => 116u16,
            InfoType::SqlConformance => 118u16,
            InfoType::BatchRowCount => 120u16,
            InfoType::BatchSupport => 121u16,
            InfoType::DynamicCursorAttributes1 => 144u16,
            InfoType::DynamicCursorAttributes2 => 145u16,
            InfoType::ForwardOnlyCursorAttributes1 => 146u16,
            InfoType::ForwardOnlyCursorAttributes2 => 147u16,
            InfoType::KeysetCursorAttributes1 => 150u16,
            InfoType::KeysetCursorAttributes2 => 151u16,
            InfoType::OdbcInterfaceConformance => 152u16,
            InfoType::ParamArrayRowCounts => 153u16,
            InfoType::ParamArraySelects => 154u16,
            InfoType::Sql92DatetimeFunctions => 155u16,
            InfoType::Sql92ForeignKeyDeleteRule => 156u16,
            InfoType::Sql92ForeignKeyUpdateRule => 157u16,
            InfoType::Sql92Grant => 158u16,
            InfoType::Sql92NumericValueFunctions => 159u16,
            InfoType::Sql92Predicates => 160u16,
            InfoType::Sql92RelationalJoinOperators => 161u16,
            InfoType::Sql92Revoke => 162u16,
            InfoType::Sql92RowValueConstructor => 163u16,
            InfoType::Sql92StringFunctions => 164u16,
            InfoType::Sql92ValueExpressions => 165u16,
            InfoType::StaticCursorAttributes1 => 167u16,
            InfoType::StaticCursorAttributes2 => 168u16,
            InfoType::AggregateFunctions => 169u16,
            InfoType::XopenCliYear => 10000u16,
            InfoType::CursorSensitivity => 10001u16,
            InfoType::DescribeParameter => 10002u16,
            InfoType::CatalogName => 10003u16,
            InfoType::CollationSeq => 10004u16,
            InfoType::MaxIdentifierLen => 10005u16,
            InfoType::AsyncMode => 10021u16,
            InfoType::MaxAsyncConcurrentStatements => 10022u16,
            InfoType::AsyncDbcFunctions => 10023u16,
            InfoType::DriverAwarePoolingSupported => 10024u16,
            InfoType::AsyncNotification => 10025u16,
        }
    }

    /// Returns the numeric value of this `InfoType`.
    pub fn code(&self) -> (c: u16)
        ensures
            c == self.spec_code(),
    {
        match self {
            InfoType::MaxDriverConnections => 0,
            InfoType::MaxConcurrentActivities => 1,
            InfoType::DataSourceName => 2,
            InfoType::DriverName => 6,
            InfoType::DriverVer => 7,
            InfoType::ServerName => 13,
            InfoType::SearchPatternEscape => 14,
            InfoType::DbmsName => 17,
            InfoType::DbmsVer => 18,
            InfoType::AccessibleTables => 19,
            InfoType::AccessibleProcedures => 20,
            InfoType::ConcatNullBehavior => 22,
            InfoType::CursorCommitBehaviour => 23,
            InfoType::DataSourceReadOnly => 25,
            InfoType::DefaultTxnIsolation => 26,
            InfoType::ExpressionsInOrderBy => 27,
            InfoType::IdentifierCase => 28,
            InfoType::IdentifierQuoteChar => 29,
            InfoType::MaxColumnNameLen => 30,
            InfoType::MaxCursorNameLen => 31,
            InfoType::MaxSchemaNameLen => 32,
            InfoType::MaxCatalogNameLen => 34,
            InfoType::MaxTableNameLen => 35,
            InfoType::MultResultSets => 36,
            InfoType::OuterJoins => 38,
            InfoType::SchemaTerm => 39,
            InfoType::CatalogNameSeparator => 41,
            InfoType::CatalogTerm => 42,
            InfoType::ScrollOptions => 44,
            InfoType::TransactionCapable => 46,
            InfoType::UserName => 47,
            InfoType::ConvertFunctions => 48,
            InfoType::NumericFunctions => 49,
            InfoType::StringFunctions => 50,
            InfoType::SystemFunctions => 51,
            InfoType::TimedateFunctions => 52,
            InfoType::TransactionIsolationProtocol => 72,
            InfoType::Integrity => 73,
            InfoType::CorrelationName => 74,
            InfoType::NonNullableColumns => 75,
            InfoType::DriverOdbcVer => 77,
            InfoType::GetDataExtensions => 81,
            InfoType::SqlFileUsage => 84,
            InfoType::NullCollation => 85,
            InfoType::AlterTable => 86,
            InfoType::ColumnAlias => 87,
            InfoType::GroupBy => 88,
            InfoType::OrderByColumnsInSelect => 90,
            InfoType::SchemaUsage => 91,
            InfoType::CatalogUsage => 92,
            InfoType::SqlQuotedIdentifierCase => 93,
            InfoType::SpecialCharacters => 94,
            InfoType::Subqueries => 95,
            InfoType::UnionStatement => 96,
            InfoType::MaxColumnsInGroupBy => 97,
            InfoType::MaxColumnsInIndex => 98,
            InfoType::MaxColumnsInOrderBy => 99,
            InfoType::MaxColumnsInSelect => 100,
            InfoType::MaxColumnsInTable => 101,
            InfoType::MaxIndexSize => 102,
            InfoType::MaxRowSizeIncludesLong => 103,
            InfoType::MaxRowSize => 104,
            InfoType::MaxStatementLen => 105,
            InfoType::MaxTablesInSelect => 106,
            InfoType::MaxUserNameLen => 107,
            InfoType::TimedateAddIntervals => 109,
            InfoType::TimedateDiffIntervals => 110,
            InfoType::NeedLongDataLen => 111,
            InfoType::LikeEscapeClause => 113,
            InfoType::CatalogLocation => 114,
            InfoType::OuterJoinCapabilities => 115,
            InfoType::ActiveEnvironments => 116,
            InfoType::SqlConformance => 118,
            InfoType::BatchRowCount => 120,
            InfoType::BatchSupport => 121,
            InfoType::DynamicCursorAttributes1 => 144,
            InfoType::DynamicCursorAttributes2 => 145,
            InfoType::ForwardOnlyCursorAttributes1 => 146,
            InfoType::ForwardOnlyCursorAttributes2 => 147,
            InfoType::KeysetCursorAttributes1 => 150,
            InfoType::KeysetCursorAttributes2 => 151,
            InfoType::OdbcInterfaceConformance => 152,
            InfoType::ParamArrayRowCounts => 153,
            InfoType::ParamArraySelects => 154,
            InfoType::Sql92DatetimeFunctions => 155,
            InfoType::Sql92ForeignKeyDeleteRule => 156,
            InfoType::Sql92ForeignKeyUpdateRule => 157,
            InfoType::Sql92Grant => 158,
            InfoType::Sql92NumericValueFunctions => 159,
            InfoType::Sql92Predicates => 160,
            InfoType::Sql92RelationalJoinOperators => 161,
            InfoType::Sql92Revoke => 162,
            InfoType::Sql92RowValueConstructor => 163,
            InfoType::Sql92StringFunctions => 164,
            InfoType::Sql92ValueExpressions => 165,
            InfoType::StaticCursorAttributes1 => 167,
            InfoType::StaticCursorAttributes2 => 168,
            InfoType::AggregateFunctions => 169,
            InfoType::XopenCliYear => 10000,
            InfoType::CursorSensitivity => 10001,
            InfoType::DescribeParameter => 10002,
            InfoType::CatalogName => 10003,
            InfoType::CollationSeq => 10004,
            InfoType::MaxIdentifierLen => 10005,
            InfoType::AsyncMode => 10021,
            InfoType::MaxAsyncConcurrentStatements => 10022,
            InfoType::AsyncDbcFunctions => 10023,
            InfoType::DriverAwarePoolingSupported => 10024,
            InfoType::AsyncNotification => 10025,
        }
    }
}

/// The `InfoType` whose numeric value is `code`, if there is one.
pub open spec fn info_type_of(code: u16) -> Option<InfoType> {
    match code {
        0u16 => Some(InfoType::MaxDriverConnections),
        1u16 => Some(InfoType::MaxConcurrentActivities),
        2u16 => Some(InfoType::DataSourceName),
        6u16 => Some(InfoType::DriverName),
        7u16 => Some(InfoType::DriverVer),
        13u16 => Some(InfoType::ServerName),
        14u16 => Some(InfoType::SearchPatternEscape),
        17u16 => Some(InfoType::DbmsName),
        18u16 => Some(InfoType::DbmsVer),
        19u16 => Some(InfoType::AccessibleTables),
        20u16 => Some(InfoType::AccessibleProcedures),
        22u16 => Some(InfoType::ConcatNullBehavior),
        23u16 => Some(InfoType::CursorCommitBehaviour),
        25u16 => Some(InfoType::DataSourceReadOnly),
        26u16 => Some(InfoType::DefaultTxnIsolation),
        27u16 => Some(InfoType::ExpressionsInOrderBy),
        28u16 => Some(InfoType::IdentifierCase),
        29u16 => Some(InfoType::IdentifierQuoteChar),
        30u16 => Some(InfoType::MaxColumnNameLen),
        31u16 => Some(InfoType::MaxCursorNameLen),
        32u16 => Some(InfoType::MaxSchemaNameLen),
        34u16 => Some(InfoType::MaxCatalogNameLen),
        35u16 => Some(InfoType::MaxTableNameLen),
        36u16 => Some(InfoType::MultResultSets),
        38u16 => Some(InfoType::OuterJoins),
        39u16 => Some(InfoType::SchemaTerm),
        41u16 => Some(InfoType::CatalogNameSeparator),
        42u16 => Some(InfoType::CatalogTerm),
        44u16 => Some(InfoType::ScrollOptions),
        46u16 => Some(InfoType::TransactionCapable),
        47u16 => Some(InfoType::UserName),
        48u16 => Some(InfoType::ConvertFunctions),
        49u16 => Some(InfoType::NumericFunctions),
        50u16 => Some(InfoType::StringFunctions),
        51u16 => Some(InfoType::SystemFunctions),
        52u16 => Some(InfoType::TimedateFunctions),
        72u16 => Some(InfoType::TransactionIsolationProtocol),
        73u16 => Some(InfoType::Integrity),
        74u16 => Some(InfoType::CorrelationName),
        75u16 => Some(InfoType::NonNullableColumns),
        77u16 => Some(InfoType::DriverOdbcVer),
        81u16 => Some(InfoType::GetDataExtensions),
        84u16 => Some(InfoType::SqlFileUsage),
        85u16 => Some(InfoType::NullCollation),
        86u16 => Some(InfoType::AlterTable),
        87u16 => Some(InfoType::ColumnAlias),
        88u16 => Some(InfoType::GroupBy),
        90u16 => Some(InfoType::OrderByColumnsInSelect),
        91u16 => Some(InfoType::SchemaUsage),
        92u16 => Some(InfoType::CatalogUsage),
        93u16 => Some(InfoType::SqlQuotedIdentifierCase),
        94u16 => Some(InfoType::SpecialCharacters),
        95u16 => Some(InfoType::Subqueries),
        96u16 => Some(InfoType::UnionStatement),
        97u16 => Some(InfoType::MaxColumnsInGroupBy),
        98u16 => Some(InfoType::MaxColumnsInIndex),
        99u16 => Some(InfoType::MaxColumnsInOrderBy),
        100u16 => Some(InfoType::MaxColumnsInSelect),
        101u16 => Some(InfoType::MaxColumnsInTable),
        102u16 => Some(InfoType::MaxIndexSize),
        103u16 => Some(InfoType::MaxRowSizeIncludesLong),
        104u16 => Some(InfoType::MaxRowSize),
        105u16 => Some(InfoType::MaxStatementLen),
        106u16 => Some(InfoType::MaxTablesInSelect),
        107u16 => Some(InfoType::MaxUserNameLen),
        109u16 => Some(InfoType::TimedateAddIntervals),
        110u16 => Some(InfoType::TimedateDiffIntervals),
        111u16 => Some(InfoType::NeedLongDataLen),
        113u16 => Some(InfoType::LikeEscapeClause),
        114u16 => Some(InfoType::CatalogLocation),
        115u16 => Some(InfoType::OuterJoinCapabilities),
        116u16 => Some(InfoType::ActiveEnvironments),
        118u16 => Some(InfoType::SqlConformance),
        120u16 => Some(InfoType::BatchRowCount),
        121u16 => Some(InfoType::BatchSupport),
        144u16 => Some(InfoType::DynamicCursorAttributes1),
        145u16 => Some(InfoType::DynamicCursorAttributes2),
        146u16 => Some(InfoType::ForwardOnlyCursorAttributes1),
        147u16 => Some(InfoType::ForwardOnlyCursorAttributes2),
        150u16 => Some(InfoType::KeysetCursorAttributes1),
        151u16 => Some(InfoType::KeysetCursorAttributes2),
        152u16 => Some(InfoType::OdbcInterfaceConformance),
        153u16 => Some(InfoType::ParamArrayRowCounts),
        154u16 => Some(InfoType::ParamArraySelects),
        155u16 => Some(InfoType::Sql92DatetimeFunctions),
        156u16 => Some(InfoType::Sql92ForeignKeyDeleteRule),
        157u16 => Some(InfoType::Sql92ForeignKeyUpdateRule),
        158u16 => Some(InfoType::Sql92Grant),
        159u16 => Some(InfoType::Sql92NumericValueFunctions),
        160u16 => Some(InfoType::Sql92Predicates),
        161u16 => Some(InfoType::Sql92RelationalJoinOperators),
        162u16 => Some(InfoType::Sql92Revoke),
        163u16 => Some(InfoType::Sql92RowValueConstructor),
        164u16 => Some(InfoType::Sql92StringFunctions),
        165u16 => Some(InfoType::Sql92ValueExpressions),
        167u16 => Some(InfoType::StaticCursorAttributes1),
        168u16 => Some(InfoType::StaticCursorAttributes2),
        169u16 => Some(InfoType::AggregateFunctions),
        10000u16 => Some(InfoType::XopenCliYear),
        10001u16 => Some(InfoType::CursorSensitivity),
        10002u16 => Some(InfoType::DescribeParameter),
        10003u16 => Some(InfoType::CatalogName),
        10004u16 => Some(InfoType::CollationSeq),
        10005u16 => Some(InfoType::MaxIdentifierLen),
        10021u16 => Some(InfoType::AsyncMode),
        10022u16 => Some(InfoType::MaxAsyncConcurrentStatements),
        10023u16 => Some(InfoType::AsyncDbcFunctions),
        10024u16 => Some(InfoType::DriverAwarePoolingSupported),
        10025u16 => Some(InfoType::AsyncNotification),
        _ => None,
    }
}

/// Decoding inverts the ODBC numbering of information types: every information
/// type is decoded back from its own number, so `SQLGetInfo` refuses no defined
/// type, and a number names at most one information type.
pub proof fn lemma_info_types_decode_their_numbers(t: InfoType, u: InfoType, value_address: usize)
    ensures
        info_type_of(t.spec_code()) == Some(t),
        t.spec_code() == u.spec_code() ==> t == u,
        value_buffer_aligned(t.spec_return_type(), value_address) ==> info_request(
            true,
            t.spec_code(),
            value_address,
            true,
        ) == Ok::<InfoType, ReturnCode>(t),
{
}

/// Decodes a raw `u16` received over the C interface into a `InfoType`.
pub fn decode_info_type(code: u16) -> (r: Option<InfoType>)
    ensures
        r == info_type_of(code),
        r matches Some(t) ==> t.spec_code() == code,
{
    match code {
        0u16 => Some(InfoType::MaxDriverConnections),
        1u16 => Some(InfoType::MaxConcurrentActivities),
        2u16 => Some(InfoType::DataSourceName),
        6u16 => Some(InfoType::DriverName),
        7u16 => Some(InfoType::DriverVer),
        13u16 => Some(InfoType::ServerName),
        14u16 => Some(InfoType::SearchPatternEscape),
        17u16 => Some(InfoType::DbmsName),
        18u16 => Some(InfoType::DbmsVer),
        19u16 => Some(InfoType::AccessibleTables),
        20u16 => Some(InfoType::AccessibleProcedures),
        22u16 => Some(InfoType::ConcatNullBehavior),
        23u16 => Some(InfoType::CursorCommitBehaviour),
        25u16 => Some(InfoType::DataSourceReadOnly),
        26u16 => Some(InfoType::DefaultTxnIsolation),
        27u16 => Some(InfoType::ExpressionsInOrderBy),
        28u16 => Some(InfoType::IdentifierCase),
        29u16 => Some(InfoType::IdentifierQuoteChar),
        30u16 => Some(InfoType::MaxColumnNameLen),
        31u16 => Some(InfoType::MaxCursorNameLen),
        32u16 => Some(InfoType::MaxSchemaNameLen),
        34u16 => Some(InfoType::MaxCatalogNameLen),
        35u16 => Some(InfoType::MaxTableNameLen),
        36u16 => Some(InfoType::MultResultSets),
        38u16 => Some(InfoType::OuterJoins),
        39u16 => Some(InfoType::SchemaTerm),
        41u16 => Some(InfoType::CatalogNameSeparator),
        42u16 => Some(InfoType::CatalogTerm),
        44u16 => Some(InfoType::ScrollOptions),
        46u16 => Some(InfoType::TransactionCapable),
        47u16 => Some(InfoType::UserName),
        48u16 => Some(InfoType::ConvertFunctions),
        49u16 => Some(InfoType::NumericFunctions),
        50u16 => Some(InfoType::StringFunctions),
        51u16 => Some(InfoType::SystemFunctions),
        52u16 => Some(InfoType::TimedateFunctions),
        72u16 => Some(InfoType::TransactionIsolationProtocol),
        73u16 => Some(InfoType::Integrity),
        74u16 => Some(InfoType::CorrelationName),
        75u16 => Some(InfoType::NonNullableColumns),
        77u16 => Some(InfoType::DriverOdbcVer),
        81u16 => Some(InfoType::GetDataExtensions),
        84u16 => Some(InfoType::SqlFileUsage),
        85u16 => Some(InfoType::NullCollation),
        86u16 => Some(InfoType::AlterTable),
        87u16 => Some(InfoType::ColumnAlias),
        88u16 => Some(InfoType::GroupBy),
        90u16 => Some(InfoType::OrderByColumnsInSelect),
        91u16 => Some(InfoType::SchemaUsage),
        92u16 => Some(InfoType::CatalogUsage),
        93u16 => Some(InfoType::SqlQuotedIdentifierCase),
        94u16 => Some(InfoType::SpecialCharacters),
        95u16 => Some(InfoType::Subqueries),
        96u16 => Some(InfoType::UnionStatement),
        97u16 => Some(InfoType::MaxColumnsInGroupBy),
        98u16 => Some(InfoType::MaxColumnsInIndex),
        99u16 => Some(InfoType::MaxColumnsInOrderBy),
        100u16 => Some(InfoType::MaxColumnsInSelect),
        101u16 => Some(InfoType::MaxColumnsInTable),
        102u16 => Some(InfoType::MaxIndexSize),
        103u16 => Some(InfoType::MaxRowSizeIncludesLong),
        104u16 => Some(InfoType::MaxRowSize),
        105u16 => Some(InfoType::MaxStatementLen),
        106u16 => Some(InfoType::MaxTablesInSelect),
        107u16 => Some(InfoType::MaxUserNameLen),
        109u16 => Some(InfoType::TimedateAddIntervals),
        110u16 => Some(InfoType::TimedateDiffIntervals),
        111u16 => Some(InfoType::NeedLongDataLen),
        113u16 => Some(InfoType::LikeEscapeClause),
        114u16 => Some(InfoType::CatalogLocation),
        115u16 => Some(InfoType::OuterJoinCapabilities),
        116u16 => Some(InfoType::ActiveEnvironments),
        118u16 => Some(InfoType::SqlConformance),
        120u16 => Some(InfoType::BatchRowCount),
        121u16 => Some(InfoType::BatchSupport),
        144u16 => Some(InfoType::DynamicCursorAttributes1),
        145u16 => Some(InfoType::DynamicCursorAttributes2),
        146u16 => Some(InfoType::ForwardOnlyCursorAttributes1),
        147u16 => Some(InfoType::ForwardOnlyCursorAttributes2),
        150u16 => Some(InfoType::KeysetCursorAttributes1),
        151u16 => Some(InfoType::KeysetCursorAttributes2),
        152u16 => Some(InfoType::OdbcInterfaceConformance),
        153u16 => Some(InfoType::ParamArrayRowCounts),
        154u16 => Some(InfoType::ParamArraySelects),
        155u16 => Some(InfoType::Sql92DatetimeFunctions),
        156u16 => Some(InfoType::Sql92ForeignKeyDeleteRule),
        157u16 => Some(InfoType::Sql92ForeignKeyUpdateRule),
        158u16 => Some(InfoType::Sql92Grant),
        159u16 => Some(InfoType::Sql92NumericValueFunctions),
        160u16 => Some(InfoType::Sql92Predicates),
        161u16 => Some(InfoType::Sql92RelationalJoinOperators),
        162u16 => Some(InfoType::Sql92Revoke),
        163u16 => Some(InfoType::Sql92RowValueConstructor),
        164u16 => Some(InfoType::Sql92StringFunctions),
        165u16 => Some(InfoType::Sql92ValueExpressions),
        167u16 => Some(InfoType::StaticCursorAttributes1),
        168u16 => Some(InfoType::StaticCursorAttributes2),
        169u16 => Some(InfoType::AggregateFunctions),
        10000u16 => Some(InfoType::XopenCliYear),
        10001u16 => Some(InfoType::CursorSensitivity),
        10002u16 => Some(InfoType::DescribeParameter),
        10003u16 => Some(InfoType::CatalogName),
        10004u16 => Some(InfoType::CollationSeq),
        10005u16 => Some(InfoType::MaxIdentifierLen),
        10021u16 => Some(InfoType::AsyncMode),
        10022u16 => Some(InfoType::MaxAsyncConcurrentStatements),
        10023u16 => Some(InfoType::AsyncDbcFunctions),
        10024u16 => Some(InfoType::DriverAwarePoolingSupported),
        10025u16 => Some(InfoType::AsyncNotification),
        _ => None,
    }
}

impl InfoType {
    /// The kind of value that the ODBC reference gives for this information type.
    pub open spec fn spec_return_type(self) -> InfoReturnType {
        match self {
            InfoType::MaxDriverConnections => InfoReturnType::USmallInt,
            InfoType::MaxConcurrentActivities => InfoReturnType::USmallInt,
            InfoType::DataSourceName => InfoReturnType::Text,
            InfoType::DriverName => InfoReturnType::Text,
            InfoType::DriverVer => InfoReturnType::Text,
            InfoType::ServerName => InfoReturnType::Text,
            InfoType::SearchPatternEscape => InfoReturnType::Text,
            InfoType::DbmsName => InfoReturnType::Text,
            InfoType::DbmsVer => InfoReturnType::Text,
            InfoType::AccessibleTables => InfoReturnType::YesNo,
            InfoType::AccessibleProcedures => InfoReturnType::YesNo,
            InfoType::ConcatNullBehavior => InfoReturnType::USmallInt,
            InfoType::CursorCommitBehaviour => InfoReturnType::USmallInt,
            InfoType::DataSourceReadOnly => InfoReturnType::YesNo,
            InfoType::DefaultTxnIsolation => InfoReturnType::UInteger,
            InfoType::ExpressionsInOrderBy => InfoReturnType::YesNo,
            InfoType::IdentifierCase => InfoReturnType::USmallInt,
            InfoType::IdentifierQuoteChar => InfoReturnType::Text,
            InfoType::MaxColumnNameLen => InfoReturnType::USmallInt,
            InfoType::MaxCursorNameLen => InfoReturnType::USmallInt,
            InfoType::MaxSchemaNameLen => InfoReturnType::USmallInt,
            InfoType::MaxCatalogNameLen => InfoReturnType::USmallInt,
            InfoType::MaxTableNameLen => InfoReturnType::USmallInt,
            InfoType::MultResultSets => InfoReturnType::YesNo,
            InfoType::OuterJoins => InfoReturnType::YesNo,
            InfoType::SchemaTerm => InfoReturnType::Text,
            InfoType::CatalogNameSeparator => InfoReturnType::Text,
            InfoType::CatalogTerm => InfoReturnType::Text,
            InfoType::ScrollOptions => InfoReturnType::UInteger,
            InfoType::TransactionCapable => InfoReturnType::USmallInt,
            InfoType::UserName => InfoReturnType::Text,
            InfoType::ConvertFunctions => InfoReturnType::UInteger,
            InfoType::NumericFunctions => InfoReturnType::UInteger,
            InfoType::StringFunctions => InfoReturnType::UInteger,
            InfoType::SystemFunctions => InfoReturnType::UInteger,
            InfoType::TimedateFunctions => InfoReturnType::UInteger,
            InfoType::TransactionIsolationProtocol => InfoReturnType::UInteger,
            InfoType::Integrity => InfoReturnType::YesNo,
            InfoType::CorrelationName => InfoReturnType::USmallInt,
            InfoType::NonNullableColumns => InfoReturnType::USmallInt,
            InfoType::DriverOdbcVer => InfoReturnType::Text,
            InfoType::GetDataExtensions => InfoReturnType::UInteger,
            InfoType::SqlFileUsage => InfoReturnType::USmallInt,
            InfoType::NullCollation => InfoReturnType::USmallInt,
            InfoType::AlterTable => InfoReturnType::UInteger,
            InfoType::ColumnAlias => InfoReturnType::YesNo,
            InfoType::GroupBy => InfoReturnType::USmallInt,
            InfoType::OrderByColumnsInSelect => InfoReturnType::YesNo,
            InfoType::SchemaUsage => InfoReturnType::UInteger,
            InfoType::CatalogUsage => InfoReturnType::UInteger,
            InfoType::SqlQuotedIdentifierCase => InfoReturnType::USmallInt,
            InfoType::SpecialCharacters => InfoReturnType::Text,
            InfoType::Subqueries => InfoReturnType::UInteger,
            InfoType::UnionStatement => InfoReturnType::UInteger,
            InfoType::MaxColumnsInGroupBy => InfoReturnType::USmallInt,
            InfoType::MaxColumnsInIndex => InfoReturnType::USmallInt,
            InfoType::MaxColumnsInOrderBy => InfoReturnType::USmallInt,
            InfoType::MaxColumnsInSelect => InfoReturnType::USmallInt,
            InfoType::MaxColumnsInTable => InfoReturnType::USmallInt,
            InfoType::MaxIndexSize => InfoReturnType::UInteger,
            InfoType::MaxRowSizeIncludesLong => InfoReturnType::YesNo,
            InfoType::MaxRowSize => InfoReturnType::UInteger,
            InfoType::MaxStatementLen => InfoReturnType::UInteger,
            InfoType::MaxTablesInSelect => InfoReturnType::USmallInt,
            InfoType::MaxUserNameLen => InfoReturnType::USmallInt,
            InfoType::TimedateAddIntervals => InfoReturnType::UInteger,
            InfoType::TimedateDiffIntervals => InfoReturnType::UInteger,
            InfoType::NeedLongDataLen => InfoReturnType::YesNo,
            InfoType::LikeEscapeClause => InfoReturnType::YesNo,
            InfoType::CatalogLocation => InfoReturnType::USmallInt,
            InfoType::OuterJoinCapabilities => InfoReturnType::UInteger,
            InfoType::ActiveEnvironments => InfoReturnType::USmallInt,
            InfoType::SqlConformance => InfoReturnType::UInteger,
            InfoType::BatchRowCount => InfoReturnType::UInteger,
            InfoType::BatchSupport => InfoReturnType::UInteger,
            InfoType::DynamicCursorAttributes1 => InfoReturnType::UInteger,
            InfoType::DynamicCursorAttributes2 => InfoReturnType::UInteger,
            InfoType::ForwardOnlyCursorAttributes1 => InfoReturnType::UInteger,
            InfoType::ForwardOnlyCursorAttributes2 => InfoReturnType::UInteger,
            InfoType::KeysetCursorAttributes1 => InfoReturnType::UInteger,
            InfoType::KeysetCursorAttributes2 => InfoReturnType::UInteger,
            InfoType::OdbcInterfaceConformance => InfoReturnType::UInteger,
            InfoType::ParamArrayRowCounts => InfoReturnType::UInteger,
            InfoType::ParamArraySelects => InfoReturnType::UInteger,
            InfoType::Sql92DatetimeFunctions => InfoReturnType::UInteger,
            InfoType::Sql92ForeignKeyDeleteRule => InfoReturnType::UInteger,
            InfoType::Sql92ForeignKeyUpdateRule => InfoReturnType::UInteger,
            InfoType::Sql92Grant => InfoReturnType::UInteger,
            InfoType::Sql92NumericValueFunctions => InfoReturnType::UInteger,
            InfoType::Sql92Predicates => InfoReturnType::UInteger,
            InfoType::Sql92RelationalJoinOperators => InfoReturnType::UInteger,
            InfoType::Sql92Revoke => InfoReturnType::UInteger,
            InfoType::Sql92RowValueConstructor => InfoReturnType::UInteger,
            InfoType::Sql92StringFunctions => InfoReturnType::UInteger,
            InfoType::Sql92ValueExpressions => InfoReturnType::UInteger,
            InfoType::StaticCursorAttributes1 => InfoReturnType::UInteger,
            InfoType::StaticCursorAttributes2 => InfoReturnType::UInteger,
            InfoType::AggregateFunctions => InfoReturnType::UInteger,
            InfoType::XopenCliYear => InfoReturnType::Text,
            InfoType::CursorSensitivity => InfoReturnType::UInteger,
            InfoType::DescribeParameter => InfoReturnType::YesNo,
            InfoType::CatalogName => InfoReturnType::YesNo,
            InfoType::CollationSeq => InfoReturnType::Text,
            InfoType::MaxIdentifierLen => InfoReturnType::USmallInt,
            InfoType::AsyncMode => InfoReturnType::UInteger,
            InfoType::MaxAsyncConcurrentStatements => InfoReturnType::UInteger,
            InfoType::AsyncDbcFunctions => InfoReturnType::UInteger,
            InfoType::DriverAwarePoolingSupported => InfoReturnType::UInteger,
            InfoType::AsyncNotification => InfoReturnType::UInteger,
        }
    }

    /// Returns the kind of value that this information type answers with.
    pub fn return_type(&self) -> (r: InfoReturnType)
        ensures
            r == self.spec_return_type(),
    {
        match self {
            InfoType::MaxDriverConnections => InfoReturnType::USmallInt,
            InfoType::MaxConcurrentActivities => InfoReturnType::USmallInt,
            InfoType::DataSourceName => InfoReturnType::Text,
            InfoType::DriverName => InfoReturnType::Text,
            InfoType::DriverVer => InfoReturnType::Text,
            InfoType::ServerName => InfoReturnType::Text,
            InfoType::SearchPatternEscape => InfoReturnType::Text,
            InfoType::DbmsName => InfoReturnType::Text,
            InfoType::DbmsVer => InfoReturnType::Text,
            InfoType::AccessibleTables => InfoReturnType::YesNo,
            InfoType::AccessibleProcedures => InfoReturnType::YesNo,
            InfoType::ConcatNullBehavior => InfoReturnType::USmallInt,
            InfoType::CursorCommitBehaviour => InfoReturnType::USmallInt,
            InfoType::DataSourceReadOnly => InfoReturnType::YesNo,
            InfoType::DefaultTxnIsolation => InfoReturnType::UInteger,
            InfoType::ExpressionsInOrderBy => InfoReturnType::YesNo,
            InfoType::IdentifierCase => InfoReturnType::USmallInt,
            InfoType::IdentifierQuoteChar => InfoReturnType::Text,
            InfoType::MaxColumnNameLen => InfoReturnType::USmallInt,
            InfoType::MaxCursorNameLen => InfoReturnType::USmallInt,
            InfoType::MaxSchemaNameLen => InfoReturnType::USmallInt,
            InfoType::MaxCatalogNameLen => InfoReturnType::USmallInt,
            InfoType::MaxTableNameLen => InfoReturnType::USmallInt,
            InfoType::MultResultSets => InfoReturnType::YesNo,
            InfoType::OuterJoins => InfoReturnType::YesNo,
            InfoType::SchemaTerm => InfoReturnType::Text,
            InfoType::CatalogNameSeparator => InfoReturnType::Text,
            InfoType::CatalogTerm => InfoReturnType::Text,
            InfoType::ScrollOptions => InfoReturnType::UInteger,
            InfoType::TransactionCapable => InfoReturnType::USmallInt,
            InfoType::UserName => InfoReturnType::Text,
            InfoType::ConvertFunctions => InfoReturnType::UInteger,
            InfoType::NumericFunctions => InfoReturnType::UInteger,
            InfoType::StringFunctions => InfoReturnType::UInteger,
            InfoType::SystemFunctions => InfoReturnType::UInteger,
            InfoType::TimedateFunctions => InfoReturnType::UInteger,
            InfoType::TransactionIsolationProtocol => InfoReturnType::UInteger,
            InfoType::Integrity => InfoReturnType::YesNo,
            InfoType::CorrelationName => InfoReturnType::USmallInt,
            InfoType::NonNullableColumns => InfoReturnType::USmallInt,
            InfoType::DriverOdbcVer => InfoReturnType::Text,
            InfoType::GetDataExtensions => InfoReturnType::UInteger,
            InfoType::SqlFileUsage => InfoReturnType::USmallInt,
            InfoType::NullCollation => InfoReturnType::USmallInt,
            InfoType::AlterTable => InfoReturnType::UInteger,
            InfoType::ColumnAlias => InfoReturnType::YesNo,
            InfoType::GroupBy => InfoReturnType::USmallInt,
            InfoType::OrderByColumnsInSelect => InfoReturnType::YesNo,
            InfoType::SchemaUsage => InfoReturnType::UInteger,
            InfoType::CatalogUsage => InfoReturnType::UInteger,
            InfoType::SqlQuotedIdentifierCase => InfoReturnType::USmallInt,
            InfoType::SpecialCharacters => InfoReturnType::Text,
            InfoType::Subqueries => InfoReturnType::UInteger,
            InfoType::UnionStatement => InfoReturnType::UInteger,
            InfoType::MaxColumnsInGroupBy => InfoReturnType::USmallInt,
            InfoType::MaxColumnsInIndex => InfoReturnType::USmallInt,
            InfoType::MaxColumnsInOrderBy => InfoReturnType::USmallInt,
            InfoType::MaxColumnsInSelect => InfoReturnType::USmallInt,
            InfoType::MaxColumnsInTable => InfoReturnType::USmallInt,
            InfoType::MaxIndexSize => InfoReturnType::UInteger,
            InfoType::MaxRowSizeIncludesLong => InfoReturnType::YesNo,
            InfoType::MaxRowSize => InfoReturnType::UInteger,
            InfoType::MaxStatementLen => InfoReturnType::UInteger,
            InfoType::MaxTablesInSelect => InfoReturnType::USmallInt,
            InfoType::MaxUserNameLen => InfoReturnType::USmallInt,
            InfoType::TimedateAddIntervals => InfoReturnType::UInteger,
            InfoType::TimedateDiffIntervals => InfoReturnType::UInteger,
            InfoType::NeedLongDataLen => InfoReturnType::YesNo,
            InfoType::LikeEscapeClause => InfoReturnType::YesNo,
            InfoType::CatalogLocation => InfoReturnType::USmallInt,
            InfoType::OuterJoinCapabilities => InfoReturnType::UInteger,
            InfoType::ActiveEnvironments => InfoReturnType::USmallInt,
            InfoType::SqlConformance => InfoReturnType::UInteger,
            InfoType::BatchRowCount => InfoReturnType::UInteger,
            InfoType::BatchSupport => InfoReturnType::UInteger,
            InfoType::DynamicCursorAttributes1 => InfoReturnType::UInteger,
            InfoType::DynamicCursorAttributes2 => InfoReturnType::UInteger,
            InfoType::ForwardOnlyCursorAttributes1 => InfoReturnType::UInteger,
            InfoType::ForwardOnlyCursorAttributes2 => InfoReturnType::UInteger,
            InfoType::KeysetCursorAttributes1 => InfoReturnType::UInteger,
            InfoType::KeysetCursorAttributes2 => InfoReturnType::UInteger,
            InfoType::OdbcInterfaceConformance => InfoReturnType::UInteger,
            InfoType::ParamArrayRowCounts => InfoReturnType::UInteger,
            InfoType::ParamArraySelects => InfoReturnType::UInteger,
            InfoType::Sql92DatetimeFunctions => InfoReturnType::UInteger,
            InfoType::Sql92ForeignKeyDeleteRule => InfoReturnType::UInteger,
            InfoType::Sql92ForeignKeyUpdateRule => InfoReturnType::UInteger,
            InfoType::Sql92Grant => InfoReturnType::UInteger,
            InfoType::Sql92NumericValueFunctions => InfoReturnType::UInteger,
            InfoType::Sql92Predicates => InfoReturnType::UInteger,
            InfoType::Sql92RelationalJoinOperators => InfoReturnType::UInteger,
            InfoType::Sql92Revoke => InfoReturnType::UInteger,
            InfoType::Sql92RowValueConstructor => InfoReturnType::UInteger,
            InfoType::Sql92StringFunctions => InfoReturnType::UInteger,
            InfoType::Sql92ValueExpressions => InfoReturnType::UInteger,
            InfoType::StaticCursorAttributes1 => InfoReturnType::UInteger,
            InfoType::StaticCursorAttributes2 => InfoReturnType::UInteger,
            InfoType::AggregateFunctions => InfoReturnType::UInteger,
            InfoType::XopenCliYear => InfoReturnType::Text,
            InfoType::CursorSensitivity => InfoReturnType::UInteger,
            InfoType::DescribeParameter => InfoReturnType::YesNo,
            InfoType::CatalogName => InfoReturnType::YesNo,
            InfoType::CollationSeq => InfoReturnType::Text,
            InfoType::MaxIdentifierLen => InfoReturnType::USmallInt,
            InfoType::AsyncMode => InfoReturnType::UInteger,
            InfoType::MaxAsyncConcurrentStatements => InfoReturnType::UInteger,
            InfoType::AsyncDbcFunctions => InfoReturnType::UInteger,
            InfoType::DriverAwarePoolingSupported => InfoReturnType::UInteger,
            InfoType::AsyncNotification => InfoReturnType::UInteger,
        }
    }
}
/// The value `SQLGetInfo` answers with where the back end has none: "N" for a
/// yes/no question, an empty string for other strings, and zero for numbers.
pub open spec fn not_supported_answer(t: InfoReturnType) -> InfoAnswer {
    match t {
        InfoReturnType::YesNo => InfoAnswer::Text(seq!['N']),
        InfoReturnType::Text => InfoAnswer::Text(seq![]),
        InfoReturnType::USmallInt => InfoAnswer::USmallInt(0),
        InfoReturnType::UInteger => InfoAnswer::UInteger(0),
    }
}

impl InfoReturnType {
    /// Returns the value to answer with where the back end has none.
    pub fn not_supported_value(&self) -> (r: InfoValue)
        ensures
            r@ == not_supported_answer(*self),
    {
        match self {
            InfoReturnType::YesNo => {
                proof {
                    reveal_strlit("N");
                }
                let s = "N".to_owned();
                assert(s@ =~= seq!['N']);
                InfoValue::Text(s)
            },
            InfoReturnType::Text => InfoValue::Text(String::new()),
            InfoReturnType::USmallInt => InfoValue::USmallInt(0),
            InfoReturnType::UInteger => InfoValue::UInteger(0),
        }
    }
}

/// The number that `SQLGetInfo` reports as the length of an `SQLUSMALLINT`.
pub const STRING_LENGTH_FOR_USMALLINT: i16 = 2;

/// The number that `SQLGetInfo` reports as the length of an `SQLUINTEGER`.
pub const STRING_LENGTH_FOR_UINTEGER: i16 = 4;

/// Whether the value buffer at `value_address` is aligned for an answer of type `t`:
/// two bytes for an `SQLUSMALLINT`, four for an `SQLUINTEGER`, any address for a
/// string.
pub open spec fn value_buffer_aligned(t: InfoReturnType, value_address: usize) -> bool {
    match t {
        InfoReturnType::USmallInt => value_address % 2 == 0,
        InfoReturnType::UInteger => value_address % 4 == 0,
        _ => true,
    }
}

/// The outcome of `SQLGetInfo` before the back end is asked: an error code, or the
/// information type to ask about. The connection is `None` where the handle is
/// null or not a connection handle; `value_address` is 0 for a null value buffer.
pub open spec fn info_request(
    connection_present: bool,
    info_type: u16,
    value_address: usize,
    string_length_present: bool,
) -> Result<InfoType, ReturnCode> {
    if !connection_present {
        Err(ReturnCode::InvalidHandle)
    } else if !string_length_present {
        Err(ReturnCode::Error)
    } else {
        match info_type_of(info_type) {
            None => Err(ReturnCode::Error),
            Some(t) => if value_buffer_aligned(t.spec_return_type(), value_address) {
                Ok(t)
            } else {
                Err(ReturnCode::Error)
            },
        }
    }
}

/// Checks the arguments of `SQLGetInfo`: the handle, the length pointer, the
/// information type and the alignment of the value buffer for that type.
pub fn check_info_request(
    connection_present: bool,
    info_type: u16,
    value_address: usize,
    string_length_present: bool,
) -> (r: Result<InfoType, ReturnCode>)
    ensures
        r == info_request(connection_present, info_type, value_address, string_length_present),
{
    if !connection_present {
        return Err(ReturnCode::InvalidHandle);
    }
    if !string_length_present {
        return Err(ReturnCode::Error);
    }
    let t = match decode_info_type(info_type) {
        Some(t) => t,
        None => {
            return Err(ReturnCode::Error);
        },
    };
    match t.return_type() {
        InfoReturnType::USmallInt => {
            if value_address % 2 != 0 {
                return Err(ReturnCode::Error);
            }
        },
        InfoReturnType::UInteger => {
            if value_address % 4 != 0 {
                return Err(ReturnCode::Error);
            }
        },
        _ => {},
    }
    Ok(t)
}

/// Works out the value that `SQLGetInfo` answers with: after the checks of
/// [`check_info_request`], the back end of the connection is asked, and where it
/// has no value (or the handle is not connected yet) the not-supported value of
/// the information type stands.
pub fn get_info_answer(
    connection: Option<&ConnectionHandle>,
    info_type: u16,
    value_address: usize,
    string_length_present: bool,
) -> (r: Result<InfoValue, ReturnCode>)
    ensures
        info_request(connection is Some, info_type, value_address, string_length_present) matches Err(
            e,
        ) ==> r == Err::<InfoValue, ReturnCode>(e),
        info_request(connection is Some, info_type, value_address, string_length_present) matches Ok(
            t,
        ) ==> r is Ok && (connection->0.connection is None ==> r->Ok_0@ == not_supported_answer(
            t.spec_return_type(),
        )) && (connection->0.connection is Some ==> exists|answer: Option<InfoValue>|
            #[trigger] connection->0.connection->0.gives_info(t, answer) && r->Ok_0@ == answer_of(
                t,
                answer,
            )),
{
    let t = match check_info_request(
        connection.is_some(),
        info_type,
        value_address,
        string_length_present,
    ) {
        Ok(t) => t,
        Err(e) => {
            return Err(e);
        },
    };
    let handle = connection.unwrap();
    let fetched = match &handle.connection {
        Some(db) => {
            let answer = db.get_info(t);
            assert(db.gives_info(t, answer));
            answer
        },
        None => None,
    };
    Ok(answer_or_not_supported(t, fetched))
}

/// The value that `SQLGetInfo` answers with for information type `t`, given what
/// the back end returned: the back end's value, or the not-supported value of
/// `t`'s return type where it has none.
pub open spec fn answer_of(t: InfoType, fetched: Option<InfoValue>) -> InfoAnswer {
    match fetched {
        Some(v) => v@,
        None => not_supported_answer(t.spec_return_type()),
    }
}

/// Returns the value that `SQLGetInfo` answers with for information type `t`, given
/// what the back end returned (see [`answer_of`]).
pub fn answer_or_not_supported(t: InfoType, fetched: Option<InfoValue>) -> (r: InfoValue)
    ensures
        r@ == answer_of(t, fetched),
{
    match fetched {
        Some(value) => value,
        None => t.return_type().not_supported_value(),
    }
}

/// What `SQLGetInfo` writes to the value buffer.
#[derive(Debug)]
pub enum InfoWrite {
    /// Nothing: the value buffer is null.
    Nothing,
    /// These bytes: a string and its terminating NUL.
    Bytes(Vec<u8>),
    /// An `SQLUSMALLINT`.
    USmallInt(u16),
    /// An `SQLUINTEGER`.
    UInteger(u32),
}

/// The mathematical content of an [`InfoWrite`].
pub enum InfoWriteView {
    /// Nothing.
    Nothing,
    /// These bytes.
    Bytes(Seq<u8>),
    /// An `SQLUSMALLINT`.
    USmallInt(u16),
    /// An `SQLUINTEGER`.
    UInteger(u32),
}

impl View for InfoWrite {
    type V = InfoWriteView;

    open spec fn view(&self) -> InfoWriteView {
        match self {
            InfoWrite::Nothing => InfoWriteView::Nothing,
            InfoWrite::Bytes(b) => InfoWriteView::Bytes(b@),
            InfoWrite::USmallInt(v) => InfoWriteView::USmallInt(*v),
            InfoWrite::UInteger(v) => InfoWriteView::UInteger(*v),
        }
    }
}

/// What `SQLGetInfo` reports: its return code, what it writes to the value buffer,
/// and what it writes to the length pointer.
#[derive(Debug)]
pub struct InfoOutcome {
    /// The return code.
    pub ret: ReturnCode,
    /// What goes into the value buffer.
    pub value: InfoWrite,
    /// What goes into the length pointer, if anything.
    pub string_length: Option<i16>,
}

/// The mathematical content of an [`InfoOutcome`].
pub struct InfoOutcomeView {
    /// The return code.
    pub ret: ReturnCode,
    /// What goes into the value buffer.
    pub value: InfoWriteView,
    /// What goes into the length pointer, if anything.
    pub string_length: Option<i16>,
}

impl View for InfoOutcome {
    type V = InfoOutcomeView;

    open spec fn view(&self) -> InfoOutcomeView {
        InfoOutcomeView { ret: self.ret, value: self.value@, string_length: self.string_length }
    }
}

/// The capacity, in bytes, that a (positive) buffer length of the C interface
/// stands for.
pub open spec fn capacity_of(buffer_length: i16) -> int {
    buffer_length as int
}

/// What `SQLGetInfo` reports for `answer`, given the value buffer's address (0 when
/// null) and its length in bytes. A string is written as a C string, cut to fit
/// the buffer with room for its NUL, and its kept length is reported (its whole
/// length where there is no buffer); a number is written as is and its size
/// reported. A string holding a NUL byte is an error.
pub open spec fn info_response_spec(
    answer: InfoAnswer,
    value_address: usize,
    buffer_length: i16,
) -> InfoOutcomeView {
    match answer {
        InfoAnswer::Text(s) => match c_string_bytes(s) {
            None => InfoOutcomeView {
                ret: ReturnCode::Error,
                value: InfoWriteView::Nothing,
                string_length: None,
            },
            Some(b) => if value_address == 0 {
                InfoOutcomeView {
                    ret: ReturnCode::Success,
                    value: InfoWriteView::Nothing,
                    string_length: Some(b.len() as i16),
                }
            } else {
                InfoOutcomeView {
                    ret: ReturnCode::Success,
                    value: InfoWriteView::Bytes(c_copy(b, capacity_of(buffer_length))),
                    string_length: Some(
                        c_copy_len(b.len() as int, capacity_of(buffer_length)) as i16,
                    ),
                }
            },
        },
        InfoAnswer::USmallInt(v) => InfoOutcomeView {
            ret: ReturnCode::Success,
            value: if value_address == 0 {
                InfoWriteView::Nothing
            } else {
                InfoWriteView::USmallInt(v)
            },
            string_length: Some(STRING_LENGTH_FOR_USMALLINT),
        },
        InfoAnswer::UInteger(v) => InfoOutcomeView {
            ret: ReturnCode::Success,
            value: if value_address == 0 {
                InfoWriteView::Nothing
            } else {
                InfoWriteView::UInteger(v)
            },
            string_length: Some(STRING_LENGTH_FOR_UINTEGER),
        },
    }
}

/// What `SQLGetInfo` writes for a string never overruns the value buffer: it fits
/// in `buffer_length` bytes, ends in a NUL, holds the start of the string, and
/// the length reported is the number of bytes before the NUL.
pub proof fn lemma_info_string_fits(s: Seq<char>, value_address: usize, buffer_length: i16)
    requires
        value_address != 0,
        buffer_length > 0,
        c_string_bytes(s) is Some,
    ensures
        ({
            let out = info_response_spec(InfoAnswer::Text(s), value_address, buffer_length);
            &&& out.ret == ReturnCode::Success
            &&& out.value matches InfoWriteView::Bytes(w) && {
                &&& w.len() <= buffer_length
                &&& w.last() == 0u8
                &&& out.string_length == Some((w.len() - 1) as i16)
                &&& w.drop_last() == c_string_bytes(s)->0.take(w.len() - 1)
            }
        }),
{
    let b = c_string_bytes(s)->0;
    assert(capacity_of(buffer_length) == buffer_length as int);
    crate::text::lemma_c_copy(b, capacity_of(buffer_length));
}

/// Whether `SQLGetInfo` can write `answer` at all: a string into a non-null buffer
/// needs a positive buffer length (with 0 there is no room for the NUL, and a
/// negative length names no buffer at all).
pub open spec fn info_response_defined(
    answer: InfoAnswer,
    value_address: usize,
    buffer_length: i16,
) -> bool {
    (answer matches InfoAnswer::Text(s) && c_string_bytes(s) is Some && value_address != 0)
        ==> buffer_length > 0
}

/// Returns whether `SQLGetInfo` can write `answer` into the value buffer.
pub fn can_write_info(answer: &InfoValue, value_address: usize, buffer_length: i16) -> (r: bool)
    ensures
        r == info_response_defined(answer@, value_address, buffer_length),
{
    match answer {
        InfoValue::Text(s) => match c_string_of(s.as_str()) {
            Some(_) => value_address == 0 || buffer_length > 0,
            None => true,
        },
        _ => true,
    }
}

/// Works out what `SQLGetInfo` writes and returns for the value `answer`.
pub fn info_response(answer: InfoValue, value_address: usize, buffer_length: i16) -> (r:
    InfoOutcome)
    requires
        info_response_defined(answer@, value_address, buffer_length),
    ensures
        r@ == info_response_spec(answer@, value_address, buffer_length),
{
    match answer {
        InfoValue::Text(s) => {
            let bytes = match c_string_of(s.as_str()) {
                Some(b) => b,
                None => {
                    return InfoOutcome {
                        ret: ReturnCode::Error,
                        value: InfoWrite::Nothing,
                        string_length: None,
                    };
                },
            };
            if value_address == 0 {
                InfoOutcome {
                    ret: ReturnCode::Success,
                    value: InfoWrite::Nothing,
                    string_length: Some(bytes.len() as i16),
                }
            } else {
                assert(buffer_length > 0 ==> buffer_length as usize == buffer_length as int);
                let capacity = buffer_length as usize;
                let (written, kept) = copy_c_string(&bytes, capacity);
                InfoOutcome {
                    ret: ReturnCode::Success,
                    value: InfoWrite::Bytes(written),
                    string_length: Some(kept as i16),
                }
            }
        },
        InfoValue::USmallInt(v) => InfoOutcome {
            ret: ReturnCode::Success,
            value: if value_address == 0 {
                InfoWrite::Nothing
            } else {
                InfoWrite::USmallInt(v)
            },
            string_length: Some(STRING_LENGTH_FOR_USMALLINT),
        },
        InfoValue::UInteger(v) => InfoOutcome {
            ret: ReturnCode::Success,
            value: if value_address == 0 {
                InfoWrite::Nothing
            } else {
                InfoWrite::UInteger(v)
            },
            string_length: Some(STRING_LENGTH_FOR_UINTEGER),
        },
    }
}

} // verus!
