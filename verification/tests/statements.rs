use odbc_driver_rs::codes::{CDataType, ReturnCode};
use odbc_driver_rs::column::{
    can_report_col_attribute, col_attribute_inputs, col_attribute_response, describe_col_response,
    sql_describe_col,
};
use odbc_driver_rs::handles::{ActiveStatement, DbConnection, StatementHandle};
use odbc_driver_rs::info::{InfoType, InfoValue};
use odbc_driver_rs::statement::{
    can_write_data, column_count_value, data_or_error, execute_return_code, get_data_response, get_data_value,
    install_statement, row_count_value, sql_columns, sql_execute,
    sql_fetch, sql_more_results, sql_num_result_cols, sql_prepare, sql_row_count, sql_tables,
};
use std::sync::Arc;

struct Rows {
    names: Vec<Result<String, String>>,
    rows: usize,
    current: usize,
    changes: u64,
}

impl ActiveStatement for Rows {
    fn column_count(&self) -> usize {
        self.names.len()
    }
    fn column_name(&self, index: usize) -> Result<String, String> {
        self.names[index].clone()
    }
    fn execute(&mut self) -> Result<(), String> {
        Ok(())
    }
    fn fetch_next_row(&mut self) -> Result<bool, String> {
        if self.current < self.rows {
            self.current += 1;
            Ok(true)
        } else {
            Ok(false)
        }
    }
    fn get_data(&self, col_index: usize, target_type: CDataType) -> Result<String, String> {
        match (col_index, target_type) {
            (0, CDataType::Char) => Ok(format!("row{}", self.current)),
            (1, _) => Ok("x\0y".to_string()),
            _ => Err("unsupported".to_string()),
        }
    }
    fn row_changes(&self) -> u64 {
        self.changes
    }
}

fn rows(changes: u64) -> Box<dyn ActiveStatement> {
    Box::new(Rows {
        names: vec![
            Ok("id".to_string()),
            Ok("naïve 😀".to_string()),
            Err("no name".to_string()),
        ],
        rows: 2,
        current: 0,
        changes,
    })
}

struct Db;

impl DbConnection for Db {
    fn prepare_statement(&self, sql: &str) -> Result<Box<dyn ActiveStatement>, String> {
        if sql.starts_with("SELECT") {
            Ok(rows(0))
        } else if sql.starts_with("DELETE") {
            Ok(rows(4))
        } else {
            Err("syntax error".to_string())
        }
    }
    fn get_tables(&self) -> Result<Box<dyn ActiveStatement>, String> {
        Ok(rows(0))
    }
    fn get_columns(&self, table_name: &str) -> Result<Box<dyn ActiveStatement>, String> {
        if table_name == "t" {
            Ok(rows(0))
        } else {
            Err("no such table".to_string())
        }
    }
    fn get_info(&self, _info_type: InfoType) -> Option<InfoValue> {
        None
    }
}

fn handle() -> StatementHandle {
    let db: Box<dyn DbConnection> = Box::new(Db);
    StatementHandle { connection: Arc::new(db), active_statement: None }
}

fn utf16(s: &str) -> Option<Vec<u16>> {
    Some(s.encode_utf16().collect())
}

#[test]
fn prepare_installs_the_result_set() {
    let mut h = handle();
    assert_eq!(sql_prepare(None, utf16("SELECT 1")), ReturnCode::InvalidHandle);
    assert_eq!(sql_prepare(Some(&mut h), None), ReturnCode::Error);
    assert_eq!(sql_prepare(Some(&mut h), Some(vec![0xD800])), ReturnCode::Error);
    assert!(h.active_statement.is_none());
    assert_eq!(sql_prepare(Some(&mut h), utf16("nonsense")), ReturnCode::Error);
    assert!(h.active_statement.is_none());
    assert_eq!(sql_prepare(Some(&mut h), utf16("SELECT 1")), ReturnCode::Success);
    assert!(h.active_statement.is_some());
}

#[test]
fn catalog_functions() {
    let mut h = handle();
    assert_eq!(sql_tables(Some(&mut h)), ReturnCode::Success);
    assert_eq!(sql_tables(None), ReturnCode::InvalidHandle);
    let mut h = handle();
    assert_eq!(sql_columns(Some(&mut h), None), ReturnCode::Error);
    assert_eq!(sql_columns(Some(&mut h), utf16("u")), ReturnCode::Error);
    assert!(h.active_statement.is_none());
    assert_eq!(sql_columns(Some(&mut h), utf16("t")), ReturnCode::Success);
    assert!(h.active_statement.is_some());
}

#[test]
fn counts_without_and_with_a_statement() {
    let mut h = handle();
    assert_eq!(sql_num_result_cols(false, Some(&h)), (ReturnCode::Error, None));
    assert_eq!(sql_num_result_cols(true, None), (ReturnCode::InvalidHandle, None));
    assert_eq!(sql_num_result_cols(true, Some(&h)), (ReturnCode::Error, Some(0)));
    assert_eq!(sql_row_count(true, Some(&h)), (ReturnCode::Error, Some(-1)));
    assert_eq!(sql_row_count(false, Some(&h)), (ReturnCode::Error, None));
    sql_prepare(Some(&mut h), utf16("SELECT *"));
    assert_eq!(sql_num_result_cols(true, Some(&h)), (ReturnCode::Success, Some(3)));
    assert_eq!(sql_row_count(true, Some(&h)), (ReturnCode::Success, Some(-1)));
    sql_prepare(Some(&mut h), utf16("DELETE"));
    assert_eq!(sql_row_count(true, Some(&h)), (ReturnCode::Success, Some(4)));
    assert_eq!(row_count_value(0), -1);
    assert_eq!(row_count_value(12), 12);
    assert_eq!(column_count_value(7), 7);
    assert_eq!(column_count_value(70_000), 4464);
}

#[test]
fn fetch_execute_and_more_results() {
    let mut h = handle();
    assert_eq!(sql_fetch(None), ReturnCode::InvalidHandle);
    assert_eq!(sql_fetch(Some(&mut h)), ReturnCode::Error);
    assert_eq!(sql_execute(Some(&mut h)), ReturnCode::Error);
    assert_eq!(sql_more_results(Some(&h)), ReturnCode::Error);
    assert_eq!(sql_more_results(None), ReturnCode::InvalidHandle);
    sql_prepare(Some(&mut h), utf16("SELECT *"));
    assert_eq!(sql_execute(Some(&mut h)), ReturnCode::Success);
    assert_eq!(sql_fetch(Some(&mut h)), ReturnCode::Success);
    assert_eq!(sql_fetch(Some(&mut h)), ReturnCode::Success);
    assert_eq!(sql_fetch(Some(&mut h)), ReturnCode::NoData);
    assert_eq!(sql_more_results(Some(&h)), ReturnCode::NoData);
    assert_eq!(execute_return_code(&Ok(())), ReturnCode::Success);
    assert_eq!(execute_return_code(&Err("locked".to_string())), ReturnCode::Error);
}

#[test]
fn get_data_writes_a_cut_c_string() {
    let mut h = handle();
    assert_eq!(get_data_value(None, 1, 1).err(), Some(ReturnCode::InvalidHandle));
    assert_eq!(get_data_value(Some(&h), 1, 1).err(), Some(ReturnCode::Error));
    sql_prepare(Some(&mut h), utf16("SELECT *"));
    sql_fetch(Some(&mut h));
    assert_eq!(get_data_value(Some(&h), 0, 1).err(), Some(ReturnCode::Error));
    assert_eq!(get_data_value(Some(&h), 1, 3).err(), Some(ReturnCode::Error));
    assert_eq!(get_data_value(Some(&h), 3, 1).err(), Some(ReturnCode::Error));
    let value = get_data_value(Some(&h), 1, 1).unwrap();
    assert_eq!(value, "row1");
    assert!(can_write_data(&value, 3));
    let out = get_data_response(&value, 3);
    assert_eq!(out.ret, ReturnCode::Success);
    assert_eq!(out.bytes, Some(b"ro\0".to_vec()));
    assert_eq!(out.indicator, Some(2));
    let out = get_data_response(&value, 64);
    assert_eq!(out.bytes, Some(b"row1\0".to_vec()));
    assert_eq!(out.indicator, Some(4));
    let with_nul = get_data_value(Some(&h), 2, 1).unwrap();
    assert!(can_write_data(&with_nul, 0));
    assert!(!can_write_data(&value, 0));
    let out = get_data_response(&with_nul, 10);
    assert_eq!(out.ret, ReturnCode::Error);
    assert_eq!(out.bytes, None);
    assert_eq!(out.indicator, None);
}

fn col_attribute(
    h: Option<&StatementHandle>,
    column: u16,
    field: u16,
    buffer_length: i16,
) -> (ReturnCode, Option<isize>, Option<i16>, Option<Vec<u16>>) {
    match col_attribute_inputs(h, column, field, true) {
        Err(code) => (code, None, None, None),
        Ok((n, name)) => {
            assert!(can_report_col_attribute(&name, field, true));
            let out = col_attribute_response(n, column, field, name, buffer_length, true, true, true);
            (out.ret, out.numeric, out.string_length, out.chars)
        }
    }
}

#[test]
fn column_attributes() {
    let mut h = handle();
    assert_eq!(col_attribute(None, 1, 1001, 0).0, ReturnCode::InvalidHandle);
    assert_eq!(col_attribute(Some(&h), 1, 1001, 0).0, ReturnCode::Error);
    sql_prepare(Some(&mut h), utf16("SELECT *"));
    assert_eq!(col_attribute(Some(&h), 0, 1001, 0).0, ReturnCode::Error);
    assert_eq!(col_attribute(Some(&h), 4, 1001, 0).0, ReturnCode::Error);
    assert_eq!(col_attribute(Some(&h), 1, 1001, 0), (ReturnCode::Success, Some(3), None, None));
    assert_eq!(col_attribute(Some(&h), 1, 1002, 0).1, Some(12));
    assert_eq!(col_attribute(Some(&h), 1, 2, 0).1, Some(12));
    assert_eq!(col_attribute(Some(&h), 1, 1003, 0).1, Some(255));
    assert_eq!(col_attribute(Some(&h), 1, 1013, 0).1, Some(255));
    assert_eq!(col_attribute(Some(&h), 1, 6, 0).1, Some(25));
    assert_eq!(col_attribute(Some(&h), 1, 1008, 0).1, Some(1));
    assert_eq!(col_attribute(Some(&h), 1, 1012, 0).1, Some(0));
    assert_eq!(col_attribute(Some(&h), 3, 1012, 0).1, Some(1));
    assert_eq!(col_attribute(Some(&h), 1, 7777, 0), (ReturnCode::Success, Some(0), None, None));
    let id: Vec<u16> = "id".encode_utf16().collect();
    assert_eq!(col_attribute(Some(&h), 1, 1011, 64), (ReturnCode::Success, None, Some(4), Some(id)));
    let name: Vec<u16> = "naïve 😀".encode_utf16().collect();
    assert_eq!(name.len(), 8);
    assert_eq!(
        col_attribute(Some(&h), 2, 18, 64),
        (ReturnCode::Success, None, Some(16), Some(name.clone()))
    );
    assert_eq!(
        col_attribute(Some(&h), 2, 1011, 7),
        (ReturnCode::SuccessWithInfo, None, Some(16), Some(name[..3].to_vec()))
    );
    assert_eq!(col_attribute(Some(&h), 3, 1011, 64).0, ReturnCode::Error);
}

#[test]
fn describe_columns() {
    let mut h = handle();
    assert_eq!(sql_describe_col(None, 1, 10, true, true).ret, ReturnCode::InvalidHandle);
    assert_eq!(sql_describe_col(Some(&h), 1, 10, true, true).ret, ReturnCode::Error);
    sql_prepare(Some(&mut h), utf16("SELECT *"));
    let out = sql_describe_col(Some(&h), 1, 10, true, true);
    assert_eq!(out.ret, ReturnCode::Success);
    assert_eq!(out.name, Some(vec![b'i' as u16, b'd' as u16, 0]));
    assert_eq!(out.name_length, Some(2));
    let d = out.description.unwrap();
    assert_eq!((d.data_type, d.column_size, d.decimal_digits, d.nullable), (12, 255, 0, 1));
    let out = sql_describe_col(Some(&h), 2, 4, true, true);
    assert_eq!(out.ret, ReturnCode::SuccessWithInfo);
    assert_eq!(out.name, Some(vec![b'n' as u16, b'a' as u16, 0xEF, 0]));
    assert_eq!(out.name_length, Some(8));
    let out = sql_describe_col(Some(&h), 2, 0, true, false);
    assert_eq!(out.ret, ReturnCode::Success);
    assert_eq!(out.name, None);
    assert_eq!(out.name_length, None);
    assert_eq!(sql_describe_col(Some(&h), 3, 10, true, true).ret, ReturnCode::Error);
    assert_eq!(sql_describe_col(Some(&h), 0, 10, true, true).ret, ReturnCode::Error);
    let direct = describe_col_response(1, 1, Some(Ok("abc".to_string())), 1, true, true);
    assert_eq!(direct.ret, ReturnCode::SuccessWithInfo);
    assert_eq!(direct.name, Some(vec![0]));
}

#[test]
fn a_produced_statement_is_installed() {
    let mut h = handle();
    assert_eq!(install_statement(&mut h, Err("syntax error".to_string())), ReturnCode::Error);
    assert!(h.active_statement.is_none());
    assert_eq!(install_statement(&mut h, Ok(rows(5))), ReturnCode::Success);
    assert_eq!(h.active_statement.as_ref().map(|s| s.row_changes()), Some(5));
}

#[test]
fn back_end_values_and_failures_for_get_data() {
    assert_eq!(data_or_error(Ok("42".to_string())), Ok("42".to_string()));
    assert_eq!(data_or_error(Err("no such column".to_string())), Err(ReturnCode::Error));
}

#[test]
fn negative_buffer_lengths_are_not_written() {
    assert!(!can_write_data("row1", -1));
    assert!(can_write_data("a\0b", -1));
}
