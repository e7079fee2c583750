use odbc_driver_rs::codes::ReturnCode;
use odbc_driver_rs::connect::{
    connect_server_name, driver_connect_database, install_connection, parse_database_path,
    sql_connect, sql_driver_connect,
};
use odbc_driver_rs::handles::{
    register_factory, ActiveStatement, ConnectionHandle, DbConnection, DbConnectionFactory,
    FactoryRegistry,
};
use odbc_driver_rs::info::{InfoType, InfoValue};
use odbc_driver_rs::text::{
    c_string_of, chars_of, copy_c_string, decode_utf16_units, encode_utf16_units, is_whitespace,
    string_of, trim_bounds,
};
use std::sync::Arc;

#[test]
fn utf16_round_trip_and_surrogates() {
    let s = "a€😀z";
    let units = encode_utf16_units(s);
    assert_eq!(units, s.encode_utf16().collect::<Vec<u16>>());
    assert_eq!(units.len(), 5);
    assert_eq!(decode_utf16_units(&units), Some(s.to_string()));
    assert_eq!(decode_utf16_units(&[0x61, 0xD800]), None);
    assert_eq!(decode_utf16_units(&[0xDC00, 0x61]), None);
    assert_eq!(decode_utf16_units(&[0xD83D, 0xDE00]), Some("😀".to_string()));
    assert_eq!(decode_utf16_units(&[]), Some(String::new()));
}

#[test]
fn c_strings() {
    assert_eq!(c_string_of("héllo"), Some("héllo".as_bytes().to_vec()));
    assert_eq!(c_string_of("a\0"), None);
    let b = b"hello".to_vec();
    assert_eq!(copy_c_string(&b, 1), (vec![0], 0));
    assert_eq!(copy_c_string(&b, 5), (b"hell\0".to_vec(), 4));
    assert_eq!(copy_c_string(&b, 6), (b"hello\0".to_vec(), 5));
    assert_eq!(copy_c_string(&b, 100), (b"hello\0".to_vec(), 5));
}

#[test]
fn whitespace_and_trimming() {
    for c in ['\t', '\n', ' ', '\u{85}', '\u{a0}', '\u{2003}', '\u{3000}'] {
        assert!(is_whitespace(c));
        assert!(c.is_whitespace());
    }
    for c in ['a', '\u{200b}', '_'] {
        assert!(!is_whitespace(c));
        assert!(!c.is_whitespace());
    }
    let chars = chars_of("  ab c\t ");
    let (a, b) = trim_bounds(&chars, 0, chars.len());
    assert_eq!(string_of(&chars, a, b), "ab c");
}

#[test]
fn connection_string_database() {
    assert_eq!(parse_database_path("Database=/tmp/x.db"), Some("/tmp/x.db".to_string()));
    assert_eq!(
        parse_database_path("DSN=foo;Database= /data/a.db ;UID=me"),
        Some("/data/a.db".to_string())
    );
    assert_eq!(parse_database_path("Database=one;Database=two"), Some("one".to_string()));
    assert_eq!(parse_database_path("XDatabase=foo"), None);
    assert_eq!(parse_database_path("DSN=foo"), None);
    assert_eq!(parse_database_path("database=foo"), None);
    assert_eq!(parse_database_path(";;Database="), Some(String::new()));
    assert_eq!(parse_database_path(""), None);
}

struct Empty;

impl DbConnection for Empty {
    fn prepare_statement(&self, _sql: &str) -> Result<Box<dyn ActiveStatement>, String> {
        Err("no".to_string())
    }
    fn get_tables(&self) -> Result<Box<dyn ActiveStatement>, String> {
        Err("no".to_string())
    }
    fn get_columns(&self, _table_name: &str) -> Result<Box<dyn ActiveStatement>, String> {
        Err("no".to_string())
    }
    fn get_info(&self, _info_type: InfoType) -> Option<InfoValue> {
        None
    }
}

struct Files;

impl DbConnectionFactory for Files {
    fn create(&self, database: &str) -> Result<Box<dyn DbConnection>, String> {
        if database.ends_with(".db") {
            Ok(Box::new(Empty))
        } else {
            Err("not a database".to_string())
        }
    }
}

fn registry() -> FactoryRegistry {
    let mut r = FactoryRegistry::new();
    let f: Box<dyn DbConnectionFactory> = Box::new(Files);
    register_factory(&mut r, Arc::new(f));
    r
}

fn utf16(s: &str) -> Option<Vec<u16>> {
    Some(s.encode_utf16().collect())
}

#[test]
fn driver_connect_steps() {
    assert_eq!(driver_connect_database(false, false, utf16("Database=a.db")), Err(ReturnCode::InvalidHandle));
    assert_eq!(driver_connect_database(true, false, utf16("Database=a.db")), Err(ReturnCode::Error));
    assert_eq!(driver_connect_database(true, true, None), Err(ReturnCode::Error));
    assert_eq!(driver_connect_database(true, true, utf16("DSN=x")), Err(ReturnCode::Error));
    assert_eq!(driver_connect_database(true, true, utf16("Database=a.db;")), Ok("a.db".to_string()));

    let reg = registry();
    let mut conn = ConnectionHandle::new();
    assert_eq!(sql_driver_connect(&mut conn, &reg, "missing", true, 10, true), (ReturnCode::Error, None));
    assert!(conn.connection.is_none());
    assert_eq!(sql_driver_connect(&mut conn, &reg, "a.db", false, 10, true), (ReturnCode::Success, None));
    assert!(conn.connection.is_some());
    assert_eq!(sql_driver_connect(&mut conn, &reg, "a.db", true, 0, true).1, None);
    assert_eq!(sql_driver_connect(&mut conn, &reg, "b.db", true, 10, true), (ReturnCode::Success, Some(0)));
}

#[test]
fn connect_steps() {
    assert_eq!(connect_server_name(false, utf16("dsn")), Err(ReturnCode::InvalidHandle));
    assert_eq!(connect_server_name(true, None), Err(ReturnCode::Error));
    assert_eq!(connect_server_name(true, utf16("dsn")), Ok("dsn".to_string()));
    let reg = registry();
    let mut conn = ConnectionHandle::new();
    assert_eq!(sql_connect(&mut conn, &reg, Ok(None)), ReturnCode::Error);
    assert_eq!(sql_connect(&mut conn, &reg, Err("lookup failed".to_string())), ReturnCode::Error);
    assert_eq!(sql_connect(&mut conn, &reg, Ok(Some("x.txt".to_string()))), ReturnCode::Error);
    assert!(conn.connection.is_none());
    assert_eq!(sql_connect(&mut conn, &reg, Ok(Some("x.db".to_string()))), ReturnCode::Success);
    assert!(conn.connection.is_some());
}

#[test]
fn a_created_connection_is_installed() {
    let mut conn = ConnectionHandle::new();
    assert!(!install_connection(&mut conn, Err("cannot open".to_string())));
    assert!(conn.connection.is_none());
    assert!(install_connection(&mut conn, Ok(Box::new(Empty))));
    assert!(conn.connection.is_some());
}
