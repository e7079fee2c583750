//! Statement entry points: preparing and running statements, catalog queries,
//! and reading results (`SQLPrepareW`, `SQLExecDirectW`, `SQLTablesW`,
//! `SQLColumnsW`, `SQLNumResultCols`, `SQLRowCount`, `SQLFetch`, `SQLExecute`,
//! `SQLMoreResults`, `SQLGetData`).
//!
//! A statement handle is `None` where the application's pointer is null or not a
//! statement handle. Text arguments arrive as the UTF-16 code units the
//! application passed, `None` where the pointer was null.

use crate::codes::{c_data_type_of, decode_c_data_type, CDataType, ReturnCode};
use crate::handles::{ActiveStatement, StatementHandle};
use crate::text::{
    c_copy, c_copy_len, c_string_bytes, c_string_of, copy_c_string, decode_utf16,
    decode_utf16_units,
};
use vstd::prelude::*;

verus! {

/// Whether `units` are present and decode as UTF-16.
pub open spec fn text_decodes(units: Option<Vec<u16>>) -> bool {
    units matches Some(u) && decode_utf16(u@) is Some
}

/// Decodes an optional UTF-16 argument: `None` where it is absent or does not
/// decode.
pub fn decode_text_argument(units: &Option<Vec<u16>>) -> (r: Option<String>)
    ensures
        r is Some <==> text_decodes(*units),
        r matches Some(s) ==> decode_utf16(units->0@) == Some(s@),
{
    match units {
        Some(u) => decode_utf16_units(u.as_slice()),
        None => None,
    }
}

/// Puts the result set that a back end produced into the statement handle:
/// `Success` with the handle holding that statement, or `Error` with the handle as
/// it was.
pub fn install_statement(
    handle: &mut StatementHandle,
    result: Result<Box<dyn ActiveStatement>, String>,
) -> (r: ReturnCode)
    ensures
        result is Ok ==> r == ReturnCode::Success && final(handle).active_statement == Some(result->Ok_0)
            && final(handle).connection == old(handle).connection,
        result is Err ==> r == ReturnCode::Error && *final(handle) == *old(handle),
{
    if result.is_ok() {
        handle.active_statement = result.ok();
        ReturnCode::Success
    } else {
        ReturnCode::Error
    }
}

/// Whether the connection's `answer` to a prepare took the statement handle from
/// `before` to `after` with return code `r`: a prepared statement, which `after`
/// holds on the same connection (`Success`), or a failure that leaves the handle
/// unchanged (`Error`).
pub open spec fn installs(
    before: StatementHandle,
    after: StatementHandle,
    answer: Result<Box<dyn ActiveStatement>, String>,
    r: ReturnCode,
) -> bool {
    &&& answer is Ok ==> r == ReturnCode::Success && after.active_statement == Some(answer->Ok_0)
        && after.connection == before.connection
    &&& answer is Err ==> r == ReturnCode::Error && after == before
}

/// What a catalog or prepare call leaves depends on nothing but the handle and the
/// back end's answer: two calls on the same handle that got the same answer end
/// alike. In particular the catalog, schema, table and type patterns of
/// `SQLTablesW`, which the driver never hands to the back end, cannot change the
/// outcome.
pub proof fn lemma_install_determined(
    before: StatementHandle,
    after1: StatementHandle,
    after2: StatementHandle,
    answer: Result<Box<dyn ActiveStatement>, String>,
    r1: ReturnCode,
    r2: ReturnCode,
)
    requires
        installs(before, after1, answer, r1),
        installs(before, after2, answer, r2),
    ensures
        r1 == r2,
        after1 == after2,
{
}

/// Whether preparing the SQL text `sql` took the statement handle from `before` to
/// `after` with return code `r`: the connection gave an answer for that text, and
/// the handle went as [`installs`] says for that answer.
pub open spec fn prepares(
    before: StatementHandle,
    after: StatementHandle,
    sql: Seq<char>,
    r: ReturnCode,
) -> bool {
    exists|answer: Result<Box<dyn ActiveStatement>, String>|
        #[trigger] before.connection.gives_prepared(sql, answer) && installs(
            before,
            after,
            answer,
            r,
        )
}

/// `SQLPrepareW` and `SQLExecDirectW`: decodes the SQL text and has the back end
/// prepare and run it; the result set becomes the handle's statement. Whether the
/// back end succeeds is its own affair: on success the handle holds a new
/// statement, on failure it is unchanged.
pub fn sql_prepare(handle: Option<&mut StatementHandle>, text: Option<Vec<u16>>) -> (r: ReturnCode)
    ensures
        handle is None ==> r == ReturnCode::InvalidHandle,
        handle matches Some(h) ==> {
            &&& final(h).connection == h.connection
            &&& !text_decodes(text) ==> r == ReturnCode::Error && *final(h) == *h
            &&& text_decodes(text) ==> prepares(*h, *final(h), decode_utf16(text->0@)->0, r)
        },
{
    let handle = match handle {
        Some(h) => h,
        None => {
            return ReturnCode::InvalidHandle;
        },
    };
    let sql = match decode_text_argument(&text) {
        Some(s) => s,
        None => {
            return ReturnCode::Error;
        },
    };
    let result = handle.connection.prepare_statement(sql.as_str());
    let ghost answer = result;
    assert(handle.connection.gives_prepared(sql@, answer));
    install_statement(handle, result)
}

/// `SQLTablesW`: has the back end list the tables; the list becomes the handle's
/// statement. The catalog, schema, table and type patterns are not used.
pub fn sql_tables(handle: Option<&mut StatementHandle>) -> (r: ReturnCode)
    ensures
        handle is None ==> r == ReturnCode::InvalidHandle,
        handle matches Some(h) ==> exists|answer: Result<Box<dyn ActiveStatement>, String>|
            #[trigger] h.connection.gives_tables(answer) && installs(*h, *final(h), answer, r),
{
    let handle = match handle {
        Some(h) => h,
        None => {
            return ReturnCode::InvalidHandle;
        },
    };
    let result = handle.connection.get_tables();
    let ghost answer = result;
    assert(handle.connection.gives_tables(answer));
    install_statement(handle, result)
}

/// `SQLColumnsW`: has the back end describe the columns of the named table; the
/// description becomes the handle's statement. A table name is required.
pub fn sql_columns(handle: Option<&mut StatementHandle>, table_name: Option<Vec<u16>>) -> (r:
    ReturnCode)
    ensures
        handle is None ==> r == ReturnCode::InvalidHandle,
        handle matches Some(h) ==> {
            &&& final(h).connection == h.connection
            &&& !text_decodes(table_name) ==> r == ReturnCode::Error && *final(h) == *h
            &&& text_decodes(table_name) ==> exists|answer: Result<Box<dyn ActiveStatement>, String>|
                #[trigger] h.connection.gives_columns(decode_utf16(table_name->0@)->0, answer)
                    && installs(*h, *final(h), answer, r)
        },
{
    let handle = match handle {
        Some(h) => h,
        None => {
            return ReturnCode::InvalidHandle;
        },
    };
    let table = match decode_text_argument(&table_name) {
        Some(s) => s,
        None => {
            return ReturnCode::Error;
        },
    };
    let result = handle.connection.get_columns(table.as_str());
    let ghost answer = result;
    assert(decode_utf16(table_name->0@)->0 == table@);
    assert(handle.connection.gives_columns(decode_utf16(table_name->0@)->0, answer));
    install_statement(handle, result)
}

/// Whether `r` is what `SQLNumResultCols` reports for a handle whose statement
/// gives a column count: `Success` with that count cut to an `SQLSMALLINT`.
pub open spec fn reports_column_count(h: StatementHandle, r: (ReturnCode, Option<i16>)) -> bool {
    exists|n: usize|
        #[trigger] h.active_statement->0.gives_column_count(n) && r == (
            ReturnCode::Success,
            Some(n as i16),
        )
}

/// Once `SQLPrepareW` has succeeded, `SQLNumResultCols` reports the column count of
/// the very statement the back end prepared for that text, before any `SQLExecute`:
/// the result set is described at prepare time.
pub proof fn lemma_prepare_then_count(
    before: StatementHandle,
    after: StatementHandle,
    sql: Seq<char>,
    count: (ReturnCode, Option<i16>),
)
    requires
        prepares(before, after, sql, ReturnCode::Success),
        reports_column_count(after, count),
    ensures
        exists|answer: Result<Box<dyn ActiveStatement>, String>|
            #[trigger] before.connection.gives_prepared(sql, answer) && answer is Ok && exists|
                n: usize,
            |
                #[trigger] answer->Ok_0.gives_column_count(n) && count == (
                    ReturnCode::Success,
                    Some(n as i16),
                ),
{
    let answer = choose|answer: Result<Box<dyn ActiveStatement>, String>|
        #[trigger] before.connection.gives_prepared(sql, answer) && installs(
            before,
            after,
            answer,
            ReturnCode::Success,
        );
    assert(answer is Ok);
    let n = choose|n: usize|
        #[trigger] after.active_statement->0.gives_column_count(n) && count == (
            ReturnCode::Success,
            Some(n as i16),
        );
    assert(answer->Ok_0.gives_column_count(n));
}

/// `SQLNumResultCols`: the number of columns of the handle's statement, written
/// as an `SQLSMALLINT` (the count cut to 16 bits, as the interface's cast does).
/// Without a statement the driver writes 0 and fails. `count_present` is whether
/// the output pointer is non-null.
pub fn sql_num_result_cols(count_present: bool, handle: Option<&StatementHandle>) -> (r: (
    ReturnCode,
    Option<i16>,
))
    ensures
        !count_present ==> r == (ReturnCode::Error, None::<i16>),
        count_present && handle is None ==> r == (ReturnCode::InvalidHandle, None::<i16>),
        handle matches Some(h) && count_present && h.active_statement is None ==> r == (
            ReturnCode::Error,
            Some(0i16),
        ),
        handle matches Some(h) && count_present && h.active_statement is Some
            ==> reports_column_count(*(handle->0), r),
{
    if !count_present {
        return (ReturnCode::Error, None);
    }
    let handle = match handle {
        Some(h) => h,
        None => {
            return (ReturnCode::InvalidHandle, None);
        },
    };
    match &handle.active_statement {
        Some(stmt) => {
            let count = stmt.column_count();
            assert(stmt.gives_column_count(count));
            (ReturnCode::Success, Some(column_count_value(count)))
        },
        None => (ReturnCode::Error, Some(0)),
    }
}

/// The column count that `SQLNumResultCols` writes for a statement of `count`
/// columns: the count cut to an `SQLSMALLINT`, as the interface's cast does.
pub fn column_count_value(count: usize) -> (r: i16)
    ensures
        r == count as i16,
{
    count as i16
}

/// The row count that `SQLRowCount` reports for a statement that changed
/// `changes` rows: the number itself, or -1 where no rows changed (a query).
pub open spec fn row_count_of(changes: u64) -> isize {
    if changes > 0 {
        changes as isize
    } else {
        -1isize
    }
}

/// `SQLRowCount` reports the number of changed rows itself whenever some rows
/// changed (and the number fits an `SQLLEN`), and -1 exactly when none did.
pub proof fn lemma_row_count_is_the_change_count(changes: u64)
    ensures
        changes == 0 ==> row_count_of(changes) == -1,
        0 < changes <= isize::MAX ==> row_count_of(changes) as int == changes as int,
        changes <= isize::MAX ==> (row_count_of(changes) == -1 <==> changes == 0),
{
}

/// Returns the row count to report for a statement that changed `changes` rows.
pub fn row_count_value(changes: u64) -> (r: isize)
    ensures
        r == row_count_of(changes),
{
    if changes > 0 {
        changes as isize
    } else {
        -1
    }
}

/// `SQLRowCount`: the number of rows the handle's statement changed, or -1 where it
/// changed none; without a statement the driver writes -1 and fails.
/// `count_present` is whether the output pointer is non-null.
pub fn sql_row_count(count_present: bool, handle: Option<&StatementHandle>) -> (r: (
    ReturnCode,
    Option<isize>,
))
    ensures
        !count_present ==> r == (ReturnCode::Error, None::<isize>),
        count_present && handle is None ==> r == (ReturnCode::InvalidHandle, None::<isize>),
        handle matches Some(h) && count_present && h.active_statement is None ==> r == (
            ReturnCode::Error,
            Some(-1isize),
        ),
        handle matches Some(h) && count_present && h.active_statement is Some ==> exists|
            changes: u64,
        |
            #[trigger] handle->0.active_statement->0.gives_row_changes(changes) && r == (
                ReturnCode::Success,
                Some(row_count_of(changes)),
            ),
{
    if !count_present {
        return (ReturnCode::Error, None);
    }
    let handle = match handle {
        Some(h) => h,
        None => {
            return (ReturnCode::InvalidHandle, None);
        },
    };
    match &handle.active_statement {
        Some(stmt) => {
            let changes = stmt.row_changes();
            assert(stmt.gives_row_changes(changes));
            (ReturnCode::Success, Some(row_count_value(changes)))
        },
        None => (ReturnCode::Error, Some(-1)),
    }
}

/// The return code of `SQLFetch` for what the back end's fetch returned: a row, no
/// more rows, or a failure.
pub open spec fn fetch_code(fetched: Result<bool, String>) -> ReturnCode {
    match fetched {
        Ok(true) => ReturnCode::Success,
        Ok(false) => ReturnCode::NoData,
        Err(_) => ReturnCode::Error,
    }
}

/// Returns the return code of `SQLFetch` for what the back end's fetch returned.
pub fn fetch_return_code(fetched: &Result<bool, String>) -> (r: ReturnCode)
    ensures
        r == fetch_code(*fetched),
{
    match fetched {
        Ok(true) => ReturnCode::Success,
        Ok(false) => ReturnCode::NoData,
        Err(_) => ReturnCode::Error,
    }
}

/// `SQLFetch`: moves the handle's statement to its next row. Without a statement
/// it fails; with one it reports a row, the end of the rows, or the back end's
/// failure, never anything else.
pub fn sql_fetch(handle: Option<&mut StatementHandle>) -> (r: ReturnCode)
    ensures
        handle is None ==> r == ReturnCode::InvalidHandle,
        handle matches Some(h) ==> {
            &&& final(h).connection == h.connection
            &&& h.active_statement is None ==> r == ReturnCode::Error && *final(h) == *h
            &&& h.active_statement is Some ==> final(h).active_statement is Some && exists|
                answer: Result<bool, String>,
            |
                #[trigger] h.active_statement->0.gives_fetched(answer) && r == fetch_code(answer)
                    && final(h).active_statement->0.cursor()
                    == h.active_statement->0.cursor_after_fetch(answer)
        },
{
    let handle = match handle {
        Some(h) => h,
        None => {
            return ReturnCode::InvalidHandle;
        },
    };
    match &mut handle.active_statement {
        Some(stmt) => {
            let ghost before = *stmt;
            let fetched = stmt.fetch_next_row();
            let ghost answer = fetched;
            assert(before.gives_fetched(answer));
            fetch_return_code(&fetched)
        },
        None => ReturnCode::Error,
    }
}

/// The return code of `SQLExecute` for what the back end's execution returned.
pub open spec fn execute_code(executed: Result<(), String>) -> ReturnCode {
    match executed {
        Ok(()) => ReturnCode::Success,
        Err(_) => ReturnCode::Error,
    }
}

/// Returns the return code of `SQLExecute` for what the back end's execution
/// returned.
pub fn execute_return_code(executed: &Result<(), String>) -> (r: ReturnCode)
    ensures
        r == execute_code(*executed),
{
    match executed {
        Ok(()) => ReturnCode::Success,
        Err(_) => ReturnCode::Error,
    }
}

/// Whether the statement of handle `after` is the statement of handle `before` in
/// everything the driver can observe of it: its cursor and the answers it gives.
pub open spec fn same_statement(before: StatementHandle, after: StatementHandle) -> bool {
    let b = before.active_statement->0;
    let a = after.active_statement->0;
    &&& a.cursor() == b.cursor()
    &&& forall|x: Result<bool, String>| #[trigger] a.cursor_after_fetch(x) == b.cursor_after_fetch(x)
    &&& forall|x: Result<bool, String>| #[trigger] a.gives_fetched(x) == b.gives_fetched(x)
    &&& forall|x: Result<(), String>| #[trigger] a.gives_executed(x) == b.gives_executed(x)
    &&& forall|n: usize| #[trigger] a.gives_column_count(n) == b.gives_column_count(n)
    &&& forall|i: usize, x: Result<String, String>|
        #[trigger] a.gives_column_name(i, x) == b.gives_column_name(i, x)
    &&& forall|i: usize, t: CDataType, x: Result<String, String>|
        #[trigger] a.gives_data(i, t, x) == b.gives_data(i, t, x)
    &&& forall|c: u64| #[trigger] a.gives_row_changes(c) == b.gives_row_changes(c)
}

/// Whether `SQLExecute` took the handle from `before` (which holds a statement) to
/// `after` with return code `r`: the code is the one for the statement's answer,
/// and the handle keeps its connection and, in everything observable, its
/// statement.
pub open spec fn executes(before: StatementHandle, after: StatementHandle, r: ReturnCode) -> bool {
    &&& after.connection == before.connection
    &&& after.active_statement is Some
    &&& same_statement(before, after)
    &&& exists|answer: Result<(), String>|
        #[trigger] before.active_statement->0.gives_executed(answer) && r == execute_code(answer)
}

/// `SQLPrepareW` followed by `SQLExecute` leaves the handle as `SQLExecDirectW`
/// leaves it (both prepare through [`sql_prepare`]): the same connection, and in
/// everything observable the statement the back end prepared for that text.
pub proof fn lemma_prepare_then_execute(
    before: StatementHandle,
    prepared: StatementHandle,
    executed: StatementHandle,
    sql: Seq<char>,
    r: ReturnCode,
)
    requires
        prepares(before, prepared, sql, ReturnCode::Success),
        executes(prepared, executed, r),
    ensures
        executed.connection == before.connection,
        same_statement(prepared, executed),
        exists|answer: Result<Box<dyn ActiveStatement>, String>|
            #[trigger] before.connection.gives_prepared(sql, answer) && answer is Ok
                && prepared.active_statement == Some(answer->Ok_0),
{
}

/// `SQLExecute`: runs the handle's prepared statement. Statements are executed when
/// they are prepared, so this reports the statement's answer and leaves the handle
/// as it was. Without a statement it fails.
pub fn sql_execute(handle: Option<&mut StatementHandle>) -> (r: ReturnCode)
    ensures
        handle is None ==> r == ReturnCode::InvalidHandle,
        handle matches Some(h) ==> {
            &&& final(h).connection == h.connection
            &&& h.active_statement is None ==> r == ReturnCode::Error && *final(h) == *h
            &&& h.active_statement is Some ==> executes(*h, *final(h), r)
        },
{
    let handle = match handle {
        Some(h) => h,
        None => {
            return ReturnCode::InvalidHandle;
        },
    };
    match &mut handle.active_statement {
        Some(stmt) => {
            let ghost before = *stmt;
            let executed = stmt.execute();
            let ghost answer = executed;
            assert(before.gives_executed(answer));
            execute_return_code(&executed)
        },
        None => ReturnCode::Error,
    }
}

/// `SQLMoreResults`: a statement has one result set only, so there is never a
/// further one; without a statement the call fails.
pub fn sql_more_results(handle: Option<&StatementHandle>) -> (r: ReturnCode)
    ensures
        r == match handle {
            None => ReturnCode::InvalidHandle,
            Some(h) => if h.active_statement is Some {
                ReturnCode::NoData
            } else {
                ReturnCode::Error
            },
        },
{
    match handle {
        None => ReturnCode::InvalidHandle,
        Some(h) => match &h.active_statement {
            Some(_) => ReturnCode::NoData,
            None => ReturnCode::Error,
        },
    }
}

/// The checks of `SQLGetData` before the back end is asked: a statement handle, a
/// column number other than 0 (bookmarks are not supported), a known C data type,
/// and a statement to read from.
pub open spec fn get_data_request(handle: Option<&StatementHandle>, column: u16, target_type: i16) -> Option<
    ReturnCode,
> {
    match handle {
        None => Some(ReturnCode::InvalidHandle),
        Some(h) => if column == 0 || c_data_type_of(target_type) is None
            || h.active_statement is None {
            Some(ReturnCode::Error)
        } else {
            None
        },
    }
}

/// Asks the handle's statement for the value of a column (numbered from 1) in the
/// current row, converted for `target_type`: the error code where a check of
/// [`get_data_request`] fails or the back end fails, else the value.
pub fn get_data_value(handle: Option<&StatementHandle>, column: u16, target_type: i16) -> (r:
    Result<String, ReturnCode>)
    ensures
        get_data_request(handle, column, target_type) matches Some(e) ==> r == Err::<
            String,
            ReturnCode,
        >(e),
        get_data_request(handle, column, target_type) is None ==> exists|
            answer: Result<String, String>,
        |
            #[trigger] handle->0.active_statement->0.gives_data(
                (column - 1) as usize,
                c_data_type_of(target_type)->0,
                answer,
            ) && r == data_result(answer),
{
    let handle = match handle {
        Some(h) => h,
        None => {
            return Err(ReturnCode::InvalidHandle);
        },
    };
    if column == 0 {
        return Err(ReturnCode::Error);
    }
    let target_type = match decode_c_data_type(target_type) {
        Some(t) => t,
        None => {
            return Err(ReturnCode::Error);
        },
    };
    let stmt = match &handle.active_statement {
        Some(s) => s,
        None => {
            return Err(ReturnCode::Error);
        },
    };
    let fetched = stmt.get_data((column - 1) as usize, target_type);
    let ghost answer = fetched;
    assert(stmt.gives_data((column - 1) as usize, target_type, answer));
    data_or_error(fetched)
}

/// What `SQLGetData` makes of the back end's answer for a column: its value, or
/// `Error` where the back end failed.
pub open spec fn data_result(fetched: Result<String, String>) -> Result<String, ReturnCode> {
    match fetched {
        Ok(value) => Ok(value),
        Err(_) => Err(ReturnCode::Error),
    }
}

/// Returns what `SQLGetData` makes of the back end's answer for a column.
pub fn data_or_error(fetched: Result<String, String>) -> (r: Result<String, ReturnCode>)
    ensures
        r == data_result(fetched),
{
    match fetched {
        Ok(value) => Ok(value),
        Err(_) => Err(ReturnCode::Error),
    }
}

/// What `SQLGetData` reports for a value: its return code, the bytes it writes to
/// the target buffer (the value as a C string cut to fit), and the length it
/// writes to the indicator.
pub struct GetDataOutcome {
    /// The return code.
    pub ret: ReturnCode,
    /// What goes into the target buffer, if anything.
    pub bytes: Option<Vec<u8>>,
    /// What goes into the length-or-indicator pointer, if anything.
    pub indicator: Option<isize>,
}

/// Whether `SQLGetData` can write `value` into a buffer of `buffer_length` bytes:
/// a value that makes a C string needs a positive buffer length (with 0 there is
/// no room for the NUL, and a negative length names no buffer at all).
pub open spec fn get_data_response_defined(value: Seq<char>, buffer_length: isize) -> bool {
    c_string_bytes(value) is Some ==> buffer_length > 0
}

/// Returns whether `SQLGetData` can write `value` into a buffer of `buffer_length`
/// bytes.
pub fn can_write_data(value: &str, buffer_length: isize) -> (r: bool)
    ensures
        r == get_data_response_defined(value@, buffer_length),
{
    match c_string_of(value) {
        Some(_) => buffer_length > 0,
        None => true,
    }
}

/// Writes a column value as `SQLGetData` does: as a C string cut to fit the
/// target buffer of `buffer_length` bytes, with the number of bytes kept as the
/// indicator. A value holding a NUL byte is an error.
pub fn get_data_response(value: &str, buffer_length: isize) -> (r: GetDataOutcome)
    requires
        get_data_response_defined(value@, buffer_length),
    ensures
        c_string_bytes(value@) is None ==> r.ret == ReturnCode::Error && r.bytes is None
            && r.indicator is None,
        c_string_bytes(value@) matches Some(b) ==> {
            &&& r.ret == ReturnCode::Success
            &&& r.bytes matches Some(w) && w@ == c_copy(b, buffer_length as int)
            &&& r.indicator == Some(
                c_copy_len(b.len() as int, buffer_length as int) as isize,
            )
        },
{
    let bytes = match c_string_of(value) {
        Some(b) => b,
        None => {
            return GetDataOutcome { ret: ReturnCode::Error, bytes: None, indicator: None };
        },
    };
    assert(buffer_length > 0 ==> buffer_length as usize == buffer_length as int);
    let capacity = buffer_length as usize;
    let (written, kept) = copy_c_string(&bytes, capacity);
    GetDataOutcome { ret: ReturnCode::Success, bytes: Some(written), indicator: Some(kept as isize) }
}

} // verus!
