//! Environment and connection attributes: `SQLSetEnvAttr`, `SQLGetEnvAttr` and
//! `SQLSetConnectAttr`.
//!
//! The attribute value of `SQLSetEnvAttr` travels in the pointer argument itself;
//! it is taken here as the pointer's address, 0 for a null pointer.

use crate::codes::{
    decode_environment_attribute, decode_odbc_version, environment_attribute_of, odbc_version_of,
    EnvironmentAttribute, OdbcVersion, ReturnCode,
};
use crate::handles::{with_odbc_version, EnvironmentHandle};
use vstd::prelude::*;

verus! {

/// What `SQLSetEnvAttr` does: `Ok(Some(v))` sets the ODBC version to `v`, `Ok(None)`
/// accepts without a change, `Err(code)` fails with `code`. `handle_present` is
/// whether the handle is non-null, `handle_valid` whether it is an environment
/// handle, `value` the address carried by the value pointer.
pub open spec fn set_env_attr_result(
    handle_present: bool,
    handle_valid: bool,
    attribute: i32,
    value: usize,
) -> Result<Option<OdbcVersion>, ReturnCode> {
    if !handle_present {
        Err(ReturnCode::InvalidHandle)
    } else if value == 0 {
        Err(ReturnCode::Error)
    } else {
        match environment_attribute_of(attribute) {
            None => Err(ReturnCode::Error),
            Some(a) => if !handle_valid {
                Err(ReturnCode::Error)
            } else {
                match a {
                    EnvironmentAttribute::OdbcVersion => match odbc_version_of(value as i32) {
                        Some(v) => Ok(Some(v)),
                        None => Err(ReturnCode::Error),
                    },
                    EnvironmentAttribute::ConnectionPooling => Err(ReturnCode::Error),
                    EnvironmentAttribute::CpMatch => Err(ReturnCode::Error),
                    EnvironmentAttribute::OutputNts => if value as i32 == 1 {
                        Ok(None)
                    } else {
                        Err(ReturnCode::Error)
                    },
                }
            },
        }
    }
}

/// The return code for an outcome of `SQLSetEnvAttr`.
pub open spec fn set_env_attr_code(result: Result<Option<OdbcVersion>, ReturnCode>) -> ReturnCode {
    match result {
        Ok(_) => ReturnCode::Success,
        Err(c) => c,
    }
}

/// `SQLSetEnvAttr`: sets the ODBC version of an environment, accepts the
/// NUL-terminated string setting, and refuses the rest. `env` is `None` where the
/// handle is null or not an environment handle.
pub fn sql_set_env_attr(
    handle_present: bool,
    env: Option<&mut EnvironmentHandle>,
    attribute: i32,
    value: usize,
) -> (r: ReturnCode)
    requires
        env is Some ==> handle_present,
    ensures
        r == set_env_attr_code(set_env_attr_result(handle_present, env is Some, attribute, value)),
        env matches Some(e) ==> *final(e) == match set_env_attr_result(
            handle_present,
            true,
            attribute,
            value,
        ) {
            Ok(Some(v)) => with_odbc_version(*e, v),
            _ => *e,
        },
{
    if !handle_present {
        return ReturnCode::InvalidHandle;
    }
    if value == 0 {
        return ReturnCode::Error;
    }
    let attribute = match decode_environment_attribute(attribute) {
        Some(a) => a,
        None => {
            return ReturnCode::Error;
        },
    };
    let env = match env {
        Some(e) => e,
        None => {
            return ReturnCode::Error;
        },
    };
    match attribute {
        EnvironmentAttribute::OdbcVersion => {
            let code = value as i32;
            match decode_odbc_version(code) {
                Some(v) => {
                    env.set_odbc_version(v);
                    ReturnCode::Success
                },
                None => ReturnCode::Error,
            }
        },
        EnvironmentAttribute::ConnectionPooling => ReturnCode::Error,
        EnvironmentAttribute::CpMatch => ReturnCode::Error,
        EnvironmentAttribute::OutputNts => {
            if value as i32 == 1 {
                ReturnCode::Success
            } else {
                ReturnCode::Error
            }
        },
    }
}

/// What `SQLGetEnvAttr` reports: its return code and the `i32` it writes to the
/// value buffer, if any.
pub open spec fn get_env_attr_result(
    handle_present: bool,
    env: Option<EnvironmentHandle>,
    attribute: i32,
    value_present: bool,
) -> (ReturnCode, Option<i32>) {
    if !handle_present {
        (ReturnCode::InvalidHandle, None)
    } else if !value_present {
        (ReturnCode::Error, None)
    } else {
        match environment_attribute_of(attribute) {
            None => (ReturnCode::Error, None),
            Some(a) => match env {
                None => (ReturnCode::Error, None),
                Some(e) => match a {
                    EnvironmentAttribute::OdbcVersion => (
                        ReturnCode::Success,
                        Some(e.odbc_version.spec_code()),
                    ),
                    EnvironmentAttribute::ConnectionPooling => (ReturnCode::Error, None),
                    EnvironmentAttribute::CpMatch => (ReturnCode::Error, None),
                    EnvironmentAttribute::OutputNts => (ReturnCode::Success, Some(1i32)),
                },
            },
        }
    }
}

/// `SQLGetEnvAttr`: reports the ODBC version of an environment, or that strings
/// are NUL-terminated, and refuses the rest. `env` is `None` where the handle is
/// null or not an environment handle.
pub fn sql_get_env_attr(
    handle_present: bool,
    env: Option<&EnvironmentHandle>,
    attribute: i32,
    value_present: bool,
) -> (r: (ReturnCode, Option<i32>))
    requires
        env is Some ==> handle_present,
    ensures
        r == get_env_attr_result(
            handle_present,
            match env {
                Some(e) => Some(*e),
                None => None,
            },
            attribute,
            value_present,
        ),
{
    if !handle_present {
        return (ReturnCode::InvalidHandle, None);
    }
    if !value_present {
        return (ReturnCode::Error, None);
    }
    let attribute = match decode_environment_attribute(attribute) {
        Some(a) => a,
        None => {
            return (ReturnCode::Error, None);
        },
    };
    let env = match env {
        Some(e) => e,
        None => {
            return (ReturnCode::Error, None);
        },
    };
    match attribute {
        EnvironmentAttribute::OdbcVersion => (ReturnCode::Success, Some(env.odbc_version().code())),
        EnvironmentAttribute::ConnectionPooling => (ReturnCode::Error, None),
        EnvironmentAttribute::CpMatch => (ReturnCode::Error, None),
        EnvironmentAttribute::OutputNts => (ReturnCode::Success, Some(1)),
    }
}

/// A version that `SQLSetEnvAttr` accepted is what `SQLGetEnvAttr` then reports:
/// the same number the application passed.
pub proof fn lemma_set_then_get_odbc_version(env: EnvironmentHandle, value: usize)
    requires
        set_env_attr_result(true, true, 200, value) is Ok,
    ensures
        set_env_attr_result(true, true, 200, value) matches Ok(Some(v)) && get_env_attr_result(
            true,
            Some(with_odbc_version(env, v)),
            200,
            true,
        ) == (ReturnCode::Success, Some(value as i32)),
{
}

/// Only ODBC 3 behaviour can be asked for: setting the ODBC version to any value
/// other than `SQL_OV_ODBC3` and `SQL_OV_ODBC3_80` (ODBC 2's among them) fails, and
/// the environment keeps its version.
pub proof fn lemma_only_odbc3_versions(handle_valid: bool, value: usize)
    requires
        value as i32 != OdbcVersion::Odbc3.spec_code(),
        value as i32 != OdbcVersion::Odbc3_80.spec_code(),
    ensures
        set_env_attr_result(true, handle_valid, EnvironmentAttribute::OdbcVersion.spec_code(), value)
            == Err::<Option<OdbcVersion>, ReturnCode>(ReturnCode::Error),
{
}

/// `SQLSetConnectAttr`: accepts every attribute on a non-null handle; no
/// connection attribute changes the driver's behaviour.
pub fn sql_set_connect_attr(handle_present: bool) -> (r: ReturnCode)
    ensures
        r == if handle_present {
            ReturnCode::Success
        } else {
            ReturnCode::InvalidHandle
        },
{
    if handle_present {
        ReturnCode::Success
    } else {
        ReturnCode::InvalidHandle
    }
}

} // verus!
