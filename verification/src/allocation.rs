//! Allocating and freeing handles: `SQLAllocHandle` and `SQLFreeHandle`, and the
//! tags that mark what kind of handle a pointer handed out by the driver is.

use crate::codes::{decode_handle_type, handle_type_of, HandleType, ReturnCode};
use crate::handles::{ConnectionHandle, EnvironmentHandle, StatementHandle};
use vstd::prelude::*;

verus! {

/// The tag stored beside each handle the driver hands out, by handle type.
pub open spec fn handle_tag(t: HandleType) -> u32 {
    (0x4F44_0000 + t.spec_code()) as u32
}

/// Returns the tag that marks a handle of type `t`.
pub fn tag_for_handle(t: HandleType) -> (r: u32)
    ensures
        r == handle_tag(t),
{
    0x4F44_0000u32 + (t.code() as u32)
}

/// The handle type that `tag` marks, if it marks one.
pub open spec fn handle_type_of_tag(tag: u32) -> Option<HandleType> {
    if 0x4F44_0000 <= tag < 0x4F44_0000 + 0x8000 {
        handle_type_of((tag - 0x4F44_0000) as i16)
    } else {
        None
    }
}

/// Returns the handle type that `tag` marks, if it marks one.
pub fn handle_type_for_tag(tag: u32) -> (r: Option<HandleType>)
    ensures
        r == handle_type_of_tag(tag),
{
    if 0x4F44_0000 <= tag && tag < 0x4F44_0000 + 0x8000 {
        decode_handle_type((tag - 0x4F44_0000) as i16)
    } else {
        None
    }
}

/// Every handle type has its own tag, and the tag gives the type back.
pub proof fn lemma_tag_round_trip(t: HandleType, u: HandleType)
    ensures
        handle_type_of_tag(handle_tag(t)) == Some(t),
        t != u ==> handle_tag(t) != handle_tag(u),
{
}

/// Whether a handle carrying `tag` may be used as a handle of type `expected`.
pub fn tag_matches(expected: HandleType, tag: u32) -> (r: bool)
    ensures
        r == (tag == handle_tag(expected)),
{
    tag == tag_for_handle(expected)
}

/// What the input handle of `SQLAllocHandle` is: null, an environment, a
/// connection, or something else.
pub enum InputHandle<'a> {
    /// A null pointer.
    Null,
    /// An environment handle.
    Env(&'a EnvironmentHandle),
    /// A connection handle.
    Dbc(&'a ConnectionHandle),
    /// A pointer that is neither of these.
    Other,
}

/// What `SQLAllocHandle` writes to the output handle pointer.
pub enum AllocOutput {
    /// Nothing.
    Unchanged,
    /// A null handle.
    Null,
    /// A new environment handle.
    Env(EnvironmentHandle),
    /// A new connection handle.
    Dbc(ConnectionHandle),
    /// A new statement handle.
    Stmt(StatementHandle),
}

/// What `SQLAllocHandle` reports: its return code and what it writes.
pub struct AllocOutcome {
    /// The return code.
    pub ret: ReturnCode,
    /// What goes into the output handle pointer.
    pub output: AllocOutput,
}

/// `SQLAllocHandle`: allocates an environment (whose input handle must be null), a
/// connection on an environment, or a statement on a connected connection. On a
/// failed connection or statement allocation the output is set to null. Descriptor
/// and pooling-token handles are accepted without an allocation.
pub fn sql_alloc_handle(output_present: bool, handle_type: i16, input: InputHandle) -> (r:
    AllocOutcome)
    ensures
        !output_present ==> r.ret == ReturnCode::InvalidHandle && r.output is Unchanged,
        output_present && handle_type_of(handle_type) is None ==> r.ret == ReturnCode::Error
            && r.output is Unchanged,
        output_present && handle_type_of(handle_type) == Some(HandleType::Env) ==> if input is Null {
            r.ret == ReturnCode::Success && (r.output matches AllocOutput::Env(e) && e.odbc_version
                == crate::codes::OdbcVersion::Odbc3 && e._output_nts)
        } else {
            r.ret == ReturnCode::Error && r.output is Unchanged
        },
        output_present && handle_type_of(handle_type) == Some(HandleType::Dbc) ==> if input is Env {
            r.ret == ReturnCode::Success && (r.output matches AllocOutput::Dbc(c)
                && c.connection is None)
        } else {
            r.ret == ReturnCode::Error && r.output is Null
        },
        output_present && handle_type_of(handle_type) == Some(HandleType::Stmt) ==> match input {
            InputHandle::Dbc(c) => if c.connection is Some {
                r.ret == ReturnCode::Success && (r.output matches AllocOutput::Stmt(s) && s.connection
                    == c.connection->0 && s.active_statement is None)
            } else {
                r.ret == ReturnCode::Error && r.output is Null
            },
            _ => r.ret == ReturnCode::Error && r.output is Null,
        },
        output_present && (handle_type_of(handle_type) == Some(HandleType::Desc) || handle_type_of(
            handle_type,
        ) == Some(HandleType::DbcInfoToken)) ==> r.ret == ReturnCode::Success && r.output is Unchanged,
{
    if !output_present {
        return AllocOutcome { ret: ReturnCode::InvalidHandle, output: AllocOutput::Unchanged };
    }
    let handle_type = match decode_handle_type(handle_type) {
        Some(t) => t,
        None => {
            return AllocOutcome { ret: ReturnCode::Error, output: AllocOutput::Unchanged };
        },
    };
    match handle_type {
        HandleType::Env => match input {
            InputHandle::Null => AllocOutcome {
                ret: ReturnCode::Success,
                output: AllocOutput::Env(EnvironmentHandle::default()),
            },
            _ => AllocOutcome { ret: ReturnCode::Error, output: AllocOutput::Unchanged },
        },
        HandleType::Dbc => match input {
            InputHandle::Env(_) => AllocOutcome {
                ret: ReturnCode::Success,
                output: AllocOutput::Dbc(ConnectionHandle::new()),
            },
            _ => AllocOutcome { ret: ReturnCode::Error, output: AllocOutput::Null },
        },
        HandleType::Stmt => match input {
            InputHandle::Dbc(c) => match c.allocate_stmt_handle() {
                Some(s) => AllocOutcome { ret: ReturnCode::Success, output: AllocOutput::Stmt(s) },
                None => AllocOutcome { ret: ReturnCode::Error, output: AllocOutput::Null },
            },
            _ => AllocOutcome { ret: ReturnCode::Error, output: AllocOutput::Null },
        },
        HandleType::Desc => AllocOutcome { ret: ReturnCode::Success, output: AllocOutput::Unchanged },
        HandleType::DbcInfoToken => AllocOutcome {
            ret: ReturnCode::Success,
            output: AllocOutput::Unchanged,
        },
    }
}

/// What `SQLFreeHandle` does: `Ok(t)` frees the handle as one of type `t` (for an
/// environment, connection or statement its state and its tag, for the others its
/// tag only), `Err(code)` refuses with `code`. `tag` is the tag stored beside a
/// non-null handle.
pub open spec fn free_handle_result(handle_present: bool, handle_type: i16, tag: u32) -> Result<
    HandleType,
    ReturnCode,
> {
    if !handle_present {
        Err(ReturnCode::InvalidHandle)
    } else {
        match handle_type_of(handle_type) {
            None => Err(ReturnCode::InvalidHandle),
            Some(t) => if tag == handle_tag(t) {
                Ok(t)
            } else {
                Err(ReturnCode::InvalidHandle)
            },
        }
    }
}

/// `SQLFreeHandle`: checks that the handle is non-null and tagged as the type the
/// application names, and says how to free it.
pub fn sql_free_handle(handle_present: bool, handle_type: i16, tag: u32) -> (r: Result<
    HandleType,
    ReturnCode,
>)
    ensures
        r == free_handle_result(handle_present, handle_type, tag),
{
    if !handle_present {
        return Err(ReturnCode::InvalidHandle);
    }
    let t = match decode_handle_type(handle_type) {
        Some(t) => t,
        None => {
            return Err(ReturnCode::InvalidHandle);
        },
    };
    if tag_matches(t, tag) {
        Ok(t)
    } else {
        Err(ReturnCode::InvalidHandle)
    }
}

/// A handle that the driver allocated can be freed as the type it was allocated
/// as, and as no other type.
pub proof fn lemma_free_what_was_allocated(t: HandleType, named: HandleType)
    ensures
        free_handle_result(true, t.spec_code(), handle_tag(t)) == Ok::<HandleType, ReturnCode>(t),
        named != t ==> free_handle_result(true, named.spec_code(), handle_tag(t)) == Err::<
            HandleType,
            ReturnCode,
        >(ReturnCode::InvalidHandle),
{
}

} // verus!
