use odbc_driver_rs::allocation::{
    handle_type_for_tag, sql_alloc_handle, sql_free_handle, tag_for_handle, tag_matches,
    AllocOutput, InputHandle,
};
use odbc_driver_rs::codes::{
    decode_c_data_type, decode_column_attribute, decode_environment_attribute, decode_handle_type,
    decode_odbc_version, CDataType, ColumnAttribute, EnvironmentAttribute, HandleType, OdbcVersion,
    ReturnCode,
};
use odbc_driver_rs::diagnostics::sql_get_diag_rec;
use odbc_driver_rs::env_attr::{sql_get_env_attr, sql_set_connect_attr, sql_set_env_attr};
use odbc_driver_rs::functions::{
    mark_all_functions, requests_all_functions, sql_func_eset, sql_func_exists,
    SQL_API_ODBC3_ALL_FUNCTIONS, SQL_API_ODBC3_ALL_FUNCTIONS_SIZE, SUPPORTED_FUNCTION_COUNT,
};
use odbc_driver_rs::handles::{
    register_factory, ActiveStatement, ConnectionHandle, DbConnection, DbConnectionFactory,
    EnvironmentHandle, FactoryRegistry,
};
use odbc_driver_rs::info::{InfoType, InfoValue};
use odbc_driver_rs::init_driver;
use std::sync::Arc;

struct NoDb;

impl DbConnection for NoDb {
    fn prepare_statement(&self, _sql: &str) -> Result<Box<dyn ActiveStatement>, String> {
        Err("no".to_string())
    }
    fn get_tables(&self) -> Result<Box<dyn ActiveStatement>, String> {
        Err("no".to_string())
    }
    fn get_columns(&self, _table_name: &str) -> Result<Box<dyn ActiveStatement>, String> {
        Err("no".to_string())
    }
    fn get_info(&self, _info_type: InfoType) -> Option<InfoValue> {
        None
    }
}

struct NamedFactory(&'static str);

impl DbConnectionFactory for NamedFactory {
    fn create(&self, database: &str) -> Result<Box<dyn DbConnection>, String> {
        if database == self.0 {
            Ok(Box::new(NoDb))
        } else {
            Err(format!("cannot open {}", database))
        }
    }
}

fn factory(name: &'static str) -> Arc<Box<dyn DbConnectionFactory>> {
    let f: Box<dyn DbConnectionFactory> = Box::new(NamedFactory(name));
    Arc::new(f)
}

#[test]
fn function_bitmap_set_and_query() {
    let mut words = vec![0u16; SQL_API_ODBC3_ALL_FUNCTIONS_SIZE];
    assert!(!sql_func_exists(&words, 17));
    sql_func_eset(&mut words, 17);
    assert!(sql_func_exists(&words, 17));
    assert_eq!(words[1], 1 << 1);
    assert!(!sql_func_exists(&words, 16));
    assert!(!sql_func_exists(&words, 18));
}

#[test]
fn all_functions_marks_the_first_fifteen_hundred() {
    assert!(requests_all_functions(SQL_API_ODBC3_ALL_FUNCTIONS));
    assert!(!requests_all_functions(1));
    let mut words = vec![0u16; SQL_API_ODBC3_ALL_FUNCTIONS_SIZE];
    words[200] = 0x8000;
    mark_all_functions(&mut words);
    for api in 0..SUPPORTED_FUNCTION_COUNT {
        assert!(sql_func_exists(&words, api));
    }
    for api in SUPPORTED_FUNCTION_COUNT..16 * SQL_API_ODBC3_ALL_FUNCTIONS_SIZE {
        assert_eq!(sql_func_exists(&words, api), api == 200 * 16 + 15);
    }
    assert_eq!(words[92], 0xFFFF);
    assert_eq!(words[93], 0x0FFF);
    assert_eq!(words[94], 0);
}

#[test]
fn codes_decode_to_their_numbers() {
    assert_eq!(decode_handle_type(1), Some(HandleType::Env));
    assert_eq!(decode_handle_type(6), Some(HandleType::DbcInfoToken));
    assert_eq!(decode_handle_type(5), None);
    assert_eq!(decode_environment_attribute(10001), Some(EnvironmentAttribute::OutputNts));
    assert_eq!(decode_odbc_version(380), Some(OdbcVersion::Odbc3_80));
    assert_eq!(decode_odbc_version(2), None);
    assert_eq!(decode_c_data_type(-8), Some(CDataType::WChar));
    assert_eq!(decode_c_data_type(16385), Some(CDataType::SsTimestampOffset));
    assert_eq!(decode_c_data_type(3), None);
    assert_eq!(decode_column_attribute(18), Some(ColumnAttribute::Label));
    assert_eq!(ReturnCode::NoData.code(), 100);
    assert_eq!(ReturnCode::InvalidHandle.code(), -2);
    assert_eq!(ReturnCode::SuccessWithInfo.code(), 1);
}

#[test]
fn environment_defaults_and_version() {
    let mut env = EnvironmentHandle::default();
    assert_eq!(env.odbc_version(), OdbcVersion::Odbc3);
    assert!(env._output_nts);
    env.set_odbc_version(OdbcVersion::Odbc3_80);
    assert_eq!(env.odbc_version(), OdbcVersion::Odbc3_80);
}

#[test]
fn set_env_attr_then_get_it_back() {
    let mut env = EnvironmentHandle::default();
    assert_eq!(sql_set_env_attr(true, Some(&mut env), 200, 380), ReturnCode::Success);
    assert_eq!(sql_get_env_attr(true, Some(&env), 200, true), (ReturnCode::Success, Some(380)));
    assert_eq!(sql_get_env_attr(true, Some(&env), 10001, true), (ReturnCode::Success, Some(1)));
}

#[test]
fn set_env_attr_refusals() {
    let mut env = EnvironmentHandle::default();
    assert_eq!(sql_set_env_attr(false, None, 200, 3), ReturnCode::InvalidHandle);
    assert_eq!(sql_set_env_attr(true, None, 200, 3), ReturnCode::Error);
    assert_eq!(sql_set_env_attr(true, Some(&mut env), 200, 0), ReturnCode::Error);
    assert_eq!(sql_set_env_attr(true, Some(&mut env), 999, 3), ReturnCode::Error);
    assert_eq!(sql_set_env_attr(true, Some(&mut env), 200, 2), ReturnCode::Error);
    assert_eq!(sql_set_env_attr(true, Some(&mut env), 201, 1), ReturnCode::Error);
    assert_eq!(sql_set_env_attr(true, Some(&mut env), 202, 1), ReturnCode::Error);
    assert_eq!(sql_set_env_attr(true, Some(&mut env), 10001, 1), ReturnCode::Success);
    assert_eq!(sql_set_env_attr(true, Some(&mut env), 10001, 2), ReturnCode::Error);
    assert_eq!(env.odbc_version(), OdbcVersion::Odbc3);
    assert_eq!(sql_get_env_attr(false, None, 200, true), (ReturnCode::InvalidHandle, None));
    assert_eq!(sql_get_env_attr(true, Some(&env), 200, false), (ReturnCode::Error, None));
    assert_eq!(sql_get_env_attr(true, Some(&env), 201, true), (ReturnCode::Error, None));
    assert_eq!(sql_get_env_attr(true, None, 200, true), (ReturnCode::Error, None));
    assert_eq!(sql_set_connect_attr(true), ReturnCode::Success);
    assert_eq!(sql_set_connect_attr(false), ReturnCode::InvalidHandle);
}

#[test]
fn test_sqlallochandle() {
    let env = sql_alloc_handle(true, 1, InputHandle::Null);
    assert_eq!(env.ret, ReturnCode::Success);
    let env = match env.output {
        AllocOutput::Env(e) => e,
        _ => panic!("expected an environment"),
    };
    let dbc = sql_alloc_handle(true, 2, InputHandle::Env(&env));
    assert_eq!(dbc.ret, ReturnCode::Success);
    assert!(matches!(dbc.output, AllocOutput::Dbc(_)));
}

#[test]
fn allocation_refusals() {
    let env = EnvironmentHandle::default();
    let r = sql_alloc_handle(false, 1, InputHandle::Null);
    assert_eq!(r.ret, ReturnCode::InvalidHandle);
    assert!(matches!(r.output, AllocOutput::Unchanged));
    let r = sql_alloc_handle(true, 9, InputHandle::Null);
    assert_eq!(r.ret, ReturnCode::Error);
    let r = sql_alloc_handle(true, 1, InputHandle::Env(&env));
    assert_eq!(r.ret, ReturnCode::Error);
    assert!(matches!(r.output, AllocOutput::Unchanged));
    let r = sql_alloc_handle(true, 2, InputHandle::Null);
    assert_eq!(r.ret, ReturnCode::Error);
    assert!(matches!(r.output, AllocOutput::Null));
    let unconnected = ConnectionHandle::new();
    let r = sql_alloc_handle(true, 3, InputHandle::Dbc(&unconnected));
    assert_eq!(r.ret, ReturnCode::Error);
    assert!(matches!(r.output, AllocOutput::Null));
    let r = sql_alloc_handle(true, 3, InputHandle::Other);
    assert_eq!(r.ret, ReturnCode::Error);
    let r = sql_alloc_handle(true, 4, InputHandle::Other);
    assert_eq!(r.ret, ReturnCode::Success);
    assert!(matches!(r.output, AllocOutput::Unchanged));
}

#[test]
fn statement_allocated_on_a_connection_shares_it() {
    let db: Box<dyn DbConnection> = Box::new(NoDb);
    let conn = ConnectionHandle { connection: Some(Arc::new(db)) };
    let r = sql_alloc_handle(true, 3, InputHandle::Dbc(&conn));
    assert_eq!(r.ret, ReturnCode::Success);
    match r.output {
        AllocOutput::Stmt(s) => {
            assert!(Arc::ptr_eq(&s.connection, conn.connection.as_ref().unwrap()));
            assert!(s.active_statement.is_none());
        }
        _ => panic!("expected a statement"),
    }
}

#[test]
fn free_checks_type_and_tag() {
    let env_tag = tag_for_handle(HandleType::Env);
    assert_eq!(handle_type_for_tag(env_tag), Some(HandleType::Env));
    assert_eq!(handle_type_for_tag(12), None);
    assert!(tag_matches(HandleType::Env, env_tag));
    assert!(!tag_matches(HandleType::Dbc, env_tag));
    assert_eq!(sql_free_handle(true, 1, env_tag), Ok(HandleType::Env));
    assert_eq!(sql_free_handle(true, 2, env_tag), Err(ReturnCode::InvalidHandle));
    assert_eq!(sql_free_handle(false, 1, env_tag), Err(ReturnCode::InvalidHandle));
    assert_eq!(sql_free_handle(true, 7, env_tag), Err(ReturnCode::InvalidHandle));
    let desc_tag = tag_for_handle(HandleType::Desc);
    assert_eq!(sql_free_handle(true, 4, desc_tag), Ok(HandleType::Desc));
}

#[test]
fn first_registered_factory_stays() {
    let mut registry = FactoryRegistry::new();
    assert!(!registry.is_registered());
    register_factory(&mut registry, factory("first.db"));
    register_factory(&mut registry, factory("second.db"));
    assert!(registry.is_registered());
    assert!(registry.factory().create("first.db").is_ok());
    assert!(registry.factory().create("second.db").is_err());

    let mut other = FactoryRegistry::new();
    init_driver(&mut other, factory("x.db"));
    init_driver(&mut other, factory("y.db"));
    assert!(other.factory().create("x.db").is_ok());
}

#[test]
fn diagnostic_records_are_never_available() {
    for record in [1i16, 2, 0, -1, i16::MAX] {
        assert_eq!(sql_get_diag_rec(record), ReturnCode::NoData);
    }
}
