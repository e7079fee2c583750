use odbc_driver_rs::codes::ReturnCode;
use odbc_driver_rs::handles::{ActiveStatement, ConnectionHandle, DbConnection};
use odbc_driver_rs::info::{
    answer_or_not_supported, can_write_info, check_info_request, get_info_answer, info_response, InfoReturnType, InfoType,
    InfoValue, InfoWrite, STRING_LENGTH_FOR_UINTEGER, STRING_LENGTH_FOR_USMALLINT,
};
use std::sync::Arc;

struct InfoConnection;

impl DbConnection for InfoConnection {
    fn prepare_statement(&self, _sql: &str) -> Result<Box<dyn ActiveStatement>, String> {
        Err("not supported".to_string())
    }
    fn get_tables(&self) -> Result<Box<dyn ActiveStatement>, String> {
        Err("not supported".to_string())
    }
    fn get_columns(&self, _table_name: &str) -> Result<Box<dyn ActiveStatement>, String> {
        Err("not supported".to_string())
    }
    fn get_info(&self, info_type: InfoType) -> Option<InfoValue> {
        match info_type {
            InfoType::UserName => Some(InfoValue::Text("foo".to_string())),
            InfoType::DbmsName => Some(InfoValue::Text("a\0b".to_string())),
            InfoType::MaxConcurrentActivities => Some(InfoValue::USmallInt(7)),
            InfoType::ScrollOptions => Some(InfoValue::UInteger(0x11)),
            _ => None,
        }
    }
}

fn connection() -> ConnectionHandle {
    let db: Box<dyn DbConnection> = Box::new(InfoConnection);
    ConnectionHandle { connection: Some(Arc::new(db)) }
}

/// The whole of `SQLGetInfo` on plain values: the checks, the answer, the writes.
fn sql_get_info(
    connection: Option<&ConnectionHandle>,
    info_type: u16,
    value_address: usize,
    buffer_length: i16,
    string_length_present: bool,
) -> (ReturnCode, InfoWrite, Option<i16>) {
    match get_info_answer(connection, info_type, value_address, string_length_present) {
        Err(code) => (code, InfoWrite::Nothing, None),
        Ok(answer) => {
            assert!(can_write_info(&answer, value_address, buffer_length));
            let out = info_response(answer, value_address, buffer_length);
            (out.ret, out.value, out.string_length)
        }
    }
}

const ALIGNED: usize = 0x1000;

fn bytes(w: &InfoWrite) -> Vec<u8> {
    match w {
        InfoWrite::Bytes(b) => b.clone(),
        other => panic!("expected bytes, got {:?}", other),
    }
}

#[test]
fn test_null_connection_handle() {
    let (ret, _, _) = sql_get_info(None, 0, 0, 0, false);
    assert_eq!(ret, ReturnCode::InvalidHandle);
}

#[test]
fn test_nullstring_length_ptr() {
    let c = connection();
    let (ret, _, _) =
        sql_get_info(Some(&c), InfoType::MaxDriverConnections.code(), 0, 2, false);
    assert_eq!(ret, ReturnCode::Error);
}

#[test]
fn test_invalid_info_type() {
    let c = connection();
    let (ret, _, _) = sql_get_info(Some(&c), 9999, 0, 2, true);
    assert_eq!(ret, ReturnCode::Error);
}

#[test]
fn test_valid_info_type_usmallint() {
    let c = connection();
    let (ret, value, len) =
        sql_get_info(Some(&c), InfoType::ActiveEnvironments.code(), ALIGNED, 2, true);
    assert_eq!(ret, ReturnCode::Success);
    assert!(matches!(value, InfoWrite::USmallInt(0)));
    assert_eq!(len, Some(STRING_LENGTH_FOR_USMALLINT));
}

#[test]
fn test_valid_info_type_string() {
    let c = connection();
    let (ret, value, len) =
        sql_get_info(Some(&c), InfoType::UserName.code(), ALIGNED, 256, true);
    assert_eq!(ret, ReturnCode::Success);
    assert_eq!(len, Some(3));
    let written = bytes(&value);
    let result_str = String::from_utf8(written[..3].to_vec()).expect("Found invalid UTF-8");
    assert_eq!(result_str, "foo");
}

#[test]
fn test_string_truncation() {
    let c = connection();
    let (ret, value, len) = sql_get_info(Some(&c), InfoType::UserName.code(), ALIGNED, 3, true);
    assert_eq!(ret, ReturnCode::Success);
    assert_eq!(len, Some(3 - 1));
    let written = bytes(&value);
    let result_str = String::from_utf8(written[..2].to_vec()).expect("Found invalid UTF-8");
    assert_eq!(result_str, "fo");
}

#[test]
fn test_insufficient_buffer_for_integer() {
    let c = connection();
    let (ret, _, _) = sql_get_info(
        Some(&c),
        InfoType::MaxConcurrentActivities.code(),
        ALIGNED,
        2,
        false,
    );
    assert_eq!(ret, ReturnCode::Error);
}

#[test]
fn test_bad_alignment() {
    let c = connection();
    let (ret, _, _) =
        sql_get_info(Some(&c), InfoType::ActiveEnvironments.code(), ALIGNED + 1, 256, false);
    assert_eq!(ret, ReturnCode::Error);
}

#[test]
fn test_null_info_value_ptr() {
    let c = connection();
    let (ret, value, len) =
        sql_get_info(Some(&c), InfoType::ActiveEnvironments.code(), 0, 0, true);
    assert_eq!(ret, ReturnCode::Success);
    assert!(matches!(value, InfoWrite::Nothing));
    assert_eq!(len, Some(STRING_LENGTH_FOR_USMALLINT));
}

#[test]
fn test_sql_get_info() {
    let c = connection();
    let (ret, value, len) =
        sql_get_info(Some(&c), InfoType::ActiveEnvironments.code(), ALIGNED, 2, true);
    assert_eq!(ret, ReturnCode::Success);
    assert_eq!(len, Some(2));
    assert!(matches!(value, InfoWrite::USmallInt(0)));

    let (ret, value, len) =
        sql_get_info(Some(&c), InfoType::DescribeParameter.code(), ALIGNED, 15, true);
    assert_eq!(ret, ReturnCode::Success);
    assert_eq!(len, Some(1));
    assert_eq!(bytes(&value), b"N\0".to_vec());

    let (ret, value, len) =
        sql_get_info(Some(&c), InfoType::DescribeParameter.code(), ALIGNED, 15, true);
    assert_eq!(ret, ReturnCode::Success);
    assert_eq!(len, Some(1));
    assert_eq!(bytes(&value), b"N\0".to_vec());

    let (ret, _, _) = sql_get_info(Some(&c), 12345, ALIGNED, 15, false);
    assert_eq!(ret, ReturnCode::Error);
}

#[test]
fn string_length_without_value_buffer_is_whole_length() {
    let c = connection();
    let (ret, value, len) = sql_get_info(Some(&c), InfoType::UserName.code(), 0, 0, true);
    assert_eq!(ret, ReturnCode::Success);
    assert!(matches!(value, InfoWrite::Nothing));
    assert_eq!(len, Some(3));
}

#[test]
fn string_with_nul_is_an_error() {
    let c = connection();
    let (ret, value, len) = sql_get_info(Some(&c), InfoType::DbmsName.code(), ALIGNED, 64, true);
    assert_eq!(ret, ReturnCode::Error);
    assert!(matches!(value, InfoWrite::Nothing));
    assert_eq!(len, None);
}

#[test]
fn back_end_numbers_are_written_with_their_size() {
    let c = connection();
    let (ret, value, len) =
        sql_get_info(Some(&c), InfoType::MaxConcurrentActivities.code(), ALIGNED, 0, true);
    assert_eq!(ret, ReturnCode::Success);
    assert!(matches!(value, InfoWrite::USmallInt(7)));
    assert_eq!(len, Some(STRING_LENGTH_FOR_USMALLINT));
    let (ret, value, len) =
        sql_get_info(Some(&c), InfoType::ScrollOptions.code(), ALIGNED, 0, true);
    assert_eq!(ret, ReturnCode::Success);
    assert!(matches!(value, InfoWrite::UInteger(0x11)));
    assert_eq!(len, Some(STRING_LENGTH_FOR_UINTEGER));
}

#[test]
fn uinteger_needs_four_byte_alignment() {
    let c = connection();
    let (ret, _, _) = sql_get_info(Some(&c), InfoType::ScrollOptions.code(), ALIGNED + 2, 4, true);
    assert_eq!(ret, ReturnCode::Error);
    let (ret, _, _) =
        sql_get_info(Some(&c), InfoType::ActiveEnvironments.code(), ALIGNED + 2, 2, true);
    assert_eq!(ret, ReturnCode::Success);
}

#[test]
fn unconnected_handle_answers_not_supported() {
    let c = ConnectionHandle::new();
    let (ret, value, len) = sql_get_info(Some(&c), InfoType::UserName.code(), ALIGNED, 16, true);
    assert_eq!(ret, ReturnCode::Success);
    assert_eq!(bytes(&value), vec![0u8]);
    assert_eq!(len, Some(0));
}

#[test]
fn info_types_decode_with_odbc_sys_numbers() {
    assert_eq!(check_info_request(true, 10025, 0, true), Ok(InfoType::AsyncNotification));
    assert_eq!(InfoType::XopenCliYear.code(), 10000);
    assert_eq!(InfoType::ActiveEnvironments.code(), 116);
    assert_eq!(InfoType::DriverName.return_type(), InfoReturnType::Text);
    assert_eq!(InfoType::Integrity.return_type(), InfoReturnType::YesNo);
    assert_eq!(InfoType::BatchSupport.return_type(), InfoReturnType::UInteger);
}

#[test]
fn back_end_value_or_not_supported_value() {
    assert!(matches!(
        answer_or_not_supported(InfoType::UserName, Some(InfoValue::Text("bar".to_string()))),
        InfoValue::Text(s) if s == "bar"
    ));
    assert!(matches!(
        answer_or_not_supported(InfoType::DescribeParameter, None),
        InfoValue::Text(s) if s == "N"
    ));
    assert!(matches!(
        answer_or_not_supported(InfoType::ActiveEnvironments, None),
        InfoValue::USmallInt(0)
    ));
    assert!(matches!(
        answer_or_not_supported(InfoType::ScrollOptions, Some(InfoValue::UInteger(3))),
        InfoValue::UInteger(3)
    ));
}

#[test]
fn negative_buffer_length_for_a_string_is_not_written() {
    let text = InfoValue::Text("foo".to_string());
    assert!(!can_write_info(&text, ALIGNED, -1));
    assert!(can_write_info(&text, 0, -1));
    assert!(can_write_info(&InfoValue::USmallInt(1), ALIGNED, -1));
}
