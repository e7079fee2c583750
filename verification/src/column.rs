//! Column metadata: `SQLColAttributeW` and `SQLDescribeColW`.
//!
//! Column names are returned as UTF-16; columns are numbered from 1.

use crate::codes::{column_attribute_of, decode_column_attribute, ColumnAttribute, ReturnCode};
use crate::handles::StatementHandle;
use crate::text::{encode_utf16, encode_utf16_units};
use vstd::prelude::*;

verus! {

/// A length as an `SQLSMALLINT`: cut to 16 bits, as an `as i16` conversion does.
pub open spec fn as_small(n: int) -> i16 {
    n as i16
}

/// Whether column `column_number` exists among `column_count` columns.
pub open spec fn column_in_range(column_count: usize, column_number: u16) -> bool {
    column_number != 0 && column_number <= column_count
}

/// What a string attribute of `SQLColAttributeW` reports.
pub struct StringAttributeView {
    /// The return code.
    pub ret: ReturnCode,
    /// The length, in bytes, written to the length pointer, if anything.
    pub string_length: Option<i16>,
    /// The UTF-16 code units written to the character buffer, if anything.
    pub chars: Option<Seq<u16>>,
}

/// How `SQLColAttributeW` returns the string `value`: its length in bytes goes to
/// the length pointer; as many whole code units as fit in `buffer_length` bytes go
/// to the character buffer (with no terminating NUL), and a value that did not fit
/// is reported with `SuccessWithInfo`.
pub open spec fn string_attribute_spec(
    value: Seq<char>,
    buffer_length: i16,
    chars_present: bool,
    string_length_present: bool,
) -> StringAttributeView {
    let units = encode_utf16(value);
    let copy_len = if units.len() < (buffer_length / 2) as int {
        units.len() as int
    } else {
        (buffer_length / 2) as int
    };
    StringAttributeView {
        ret: if chars_present && buffer_length > 0 && copy_len < units.len() {
            ReturnCode::SuccessWithInfo
        } else {
            ReturnCode::Success
        },
        string_length: if string_length_present {
            Some((as_small(units.len() as int) * 2) as i16)
        } else {
            None
        },
        chars: if chars_present && buffer_length > 0 {
            Some(units.take(copy_len))
        } else {
            None
        },
    }
}

/// A string attribute never overruns the character buffer: what is written takes
/// at most `buffer_length` bytes and is the start of the value's UTF-16 code units,
/// and the call reports `SuccessWithInfo` exactly when some of them were cut off.
pub proof fn lemma_string_attribute_fits(
    value: Seq<char>,
    buffer_length: i16,
    string_length_present: bool,
)
    requires
        buffer_length > 0,
    ensures
        ({
            let out = string_attribute_spec(value, buffer_length, true, string_length_present);
            out.chars matches Some(c) && {
                &&& 2 * c.len() <= buffer_length
                &&& c == encode_utf16(value).take(c.len() as int)
                &&& (out.ret == ReturnCode::SuccessWithInfo) == (c.len() < encode_utf16(value).len())
                &&& out.ret == ReturnCode::SuccessWithInfo || out.ret == ReturnCode::Success
            }
        }),
{
}

/// Whether the byte length of `value` can be computed: the UTF-16 length, cut to
/// 16 bits, doubled without overflowing an `SQLSMALLINT`.
pub open spec fn string_attribute_defined(value: Seq<char>, string_length_present: bool) -> bool {
    string_length_present ==> -16384 <= as_small(encode_utf16(value).len() as int) <= 16383
}

/// What `SQLColAttributeW` reports.
pub struct ColAttributeOutcome {
    /// The return code.
    pub ret: ReturnCode,
    /// What goes into the numeric attribute pointer, if anything.
    pub numeric: Option<isize>,
    /// What goes into the length pointer, if anything.
    pub string_length: Option<i16>,
    /// What goes into the character buffer, if anything.
    pub chars: Option<Vec<u16>>,
}

/// The mathematical content of a [`ColAttributeOutcome`].
pub struct ColAttributeView {
    /// The return code.
    pub ret: ReturnCode,
    /// What goes into the numeric attribute pointer, if anything.
    pub numeric: Option<isize>,
    /// What goes into the length pointer, if anything.
    pub string_length: Option<i16>,
    /// What goes into the character buffer, if anything.
    pub chars: Option<Seq<u16>>,
}

impl View for ColAttributeOutcome {
    type V = ColAttributeView;

    open spec fn view(&self) -> ColAttributeView {
        ColAttributeView {
            ret: self.ret,
            numeric: self.numeric,
            string_length: self.string_length,
            chars: match self.chars {
                Some(c) => Some(c@),
                None => None,
            },
        }
    }
}

/// An outcome that writes only `numeric` (where the numeric pointer is present).
pub open spec fn numeric_outcome(numeric_present: bool, value: isize) -> ColAttributeView {
    ColAttributeView {
        ret: ReturnCode::Success,
        numeric: if numeric_present {
            Some(value)
        } else {
            None
        },
        string_length: None,
        chars: None,
    }
}

/// An outcome that writes nothing and returns `ret`.
pub open spec fn plain_outcome(ret: ReturnCode) -> ColAttributeView {
    ColAttributeView { ret, numeric: None, string_length: None, chars: None }
}

/// Whether `SQLColAttributeW` asks the statement for the column's name: for the
/// name and the label, and for `SQL_DESC_UNNAMED` where there is a numeric pointer
/// to answer in.
pub open spec fn needs_column_name(
    column_count: usize,
    column_number: u16,
    field_identifier: u16,
    numeric_present: bool,
) -> bool {
    column_in_range(column_count, column_number) && match column_attribute_of(field_identifier) {
        Some(ColumnAttribute::Name) => true,
        Some(ColumnAttribute::Label) => true,
        Some(ColumnAttribute::Unnamed) => numeric_present,
        _ => false,
    }
}

/// A column's name or label is reported with its length in bytes, twice its
/// UTF-16 length, whenever the length pointer is present, whatever the character
/// buffer and its length: a length query with no buffer gets the same length as a
/// call that copies the name.
pub proof fn lemma_name_length_reported(
    column_count: usize,
    column_number: u16,
    field_identifier: u16,
    name: Seq<char>,
    buffer_length: i16,
    chars_present: bool,
    numeric_present: bool,
)
    requires
        column_in_range(column_count, column_number),
        column_attribute_of(field_identifier) == Some(ColumnAttribute::Name) || column_attribute_of(
            field_identifier,
        ) == Some(ColumnAttribute::Label),
        encode_utf16(name).len() <= 16383,
    ensures
        col_attribute_spec(
            column_count,
            column_number,
            field_identifier,
            Some(name),
            buffer_length,
            chars_present,
            true,
            numeric_present,
        ).string_length matches Some(n) && n as int == 2 * encode_utf16(name).len(),
{
    let len = encode_utf16(name).len();
    assert(as_small(len as int) as int == len);
}

/// What `SQLColAttributeW` reports for a statement of `column_count` columns, where
/// `name` is the column's name if the statement gave one. An unknown field
/// identifier answers 0; the type is `SQL_VARCHAR` (12), the length 255, the display
/// size 25, and every column nullable (1).
pub open spec fn col_attribute_spec(
    column_count: usize,
    column_number: u16,
    field_identifier: u16,
    name: Option<Seq<char>>,
    buffer_length: i16,
    chars_present: bool,
    string_length_present: bool,
    numeric_present: bool,
) -> ColAttributeView {
    if !column_in_range(column_count, column_number) {
        plain_outcome(ReturnCode::Error)
    } else {
        match column_attribute_of(field_identifier) {
            None => numeric_outcome(numeric_present, 0),
            Some(a) => match a {
                ColumnAttribute::Count => numeric_outcome(numeric_present, column_count as isize),
                ColumnAttribute::Name | ColumnAttribute::Label => match name {
                    Some(s) => {
                        let v = string_attribute_spec(
                            s,
                            buffer_length,
                            chars_present,
                            string_length_present,
                        );
                        ColAttributeView {
                            ret: v.ret,
                            numeric: None,
                            string_length: v.string_length,
                            chars: v.chars,
                        }
                    },
                    None => plain_outcome(ReturnCode::Error),
                },
                ColumnAttribute::Type | ColumnAttribute::ConciseType => numeric_outcome(
                    numeric_present,
                    12,
                ),
                ColumnAttribute::Length | ColumnAttribute::OctetLength => numeric_outcome(
                    numeric_present,
                    255,
                ),
                ColumnAttribute::DisplaySize => numeric_outcome(numeric_present, 25),
                ColumnAttribute::Nullable => numeric_outcome(numeric_present, 1),
                ColumnAttribute::Unnamed => numeric_outcome(
                    numeric_present,
                    if name is Some {
                        0
                    } else {
                        1
                    },
                ),
            },
        }
    }
}

/// The name that a `column_name` answer gives, if it succeeded.
pub open spec fn name_of(name: Option<Result<String, String>>) -> Option<Seq<char>> {
    match name {
        Some(Ok(s)) => Some(s@),
        _ => None,
    }
}

/// Whether `SQLColAttributeW` can report `name`: its byte length must be
/// computable where it is asked for.
pub open spec fn col_attribute_defined(
    name: Option<Seq<char>>,
    field_identifier: u16,
    string_length_present: bool,
) -> bool {
    (column_attribute_of(field_identifier) == Some(ColumnAttribute::Name) || column_attribute_of(
        field_identifier,
    ) == Some(ColumnAttribute::Label)) ==> match name {
        Some(s) => string_attribute_defined(s, string_length_present),
        None => true,
    }
}

/// Returns whether `SQLColAttributeW` can report `name`.
pub fn can_report_col_attribute(
    name: &Option<Result<String, String>>,
    field_identifier: u16,
    string_length_present: bool,
) -> (r: bool)
    ensures
        r == col_attribute_defined(name_of(*name), field_identifier, string_length_present),
{
    match decode_column_attribute(field_identifier) {
        Some(ColumnAttribute::Name) | Some(ColumnAttribute::Label) => match name {
            Some(Ok(s)) => {
                if !string_length_present {
                    return true;
                }
                let units = encode_utf16_units(s.as_str());
                let l = units.len() as i16;
                -16384 <= l && l <= 16383
            },
            _ => true,
        },
        _ => true,
    }
}

/// Asks the handle's statement what `SQLColAttributeW` needs: its column count,
/// and the column's name where [`needs_column_name`] says so (the column is
/// numbered from 1). Fails with `InvalidHandle` without a statement handle and with
/// `Error` without a statement.
pub fn col_attribute_inputs(
    handle: Option<&StatementHandle>,
    column_number: u16,
    field_identifier: u16,
    numeric_present: bool,
) -> (r: Result<(usize, Option<Result<String, String>>), ReturnCode>)
    ensures
        handle is None ==> r == Err::<(usize, Option<Result<String, String>>), ReturnCode>(
            ReturnCode::InvalidHandle,
        ),
        handle matches Some(h) && h.active_statement is None ==> r == Err::<
            (usize, Option<Result<String, String>>),
            ReturnCode,
        >(ReturnCode::Error),
        handle matches Some(h) && h.active_statement is Some ==> (r matches Ok((n, name)) && (name
            is Some <==> needs_column_name(n, column_number, field_identifier, numeric_present))),
        handle matches Some(h) && h.active_statement is Some ==> (r matches Ok((n, name)) && (name
            is Some ==> handle->0.active_statement->0.gives_column_name(
            (column_number - 1) as usize,
            name->0,
        ))),
        handle matches Some(h) && h.active_statement is Some ==> (r matches Ok((n, _))
            && handle->0.active_statement->0.gives_column_count(n)),
{
    let handle = match handle {
        Some(h) => h,
        None => {
            return Err(ReturnCode::InvalidHandle);
        },
    };
    let stmt = match &handle.active_statement {
        Some(s) => s,
        None => {
            return Err(ReturnCode::Error);
        },
    };
    let n = stmt.column_count();
    assert(stmt.gives_column_count(n));
    if column_number == 0 || column_number as usize > n {
        return Ok((n, None));
    }
    let needs_name = match decode_column_attribute(field_identifier) {
        Some(ColumnAttribute::Name) => true,
        Some(ColumnAttribute::Label) => true,
        Some(ColumnAttribute::Unnamed) => numeric_present,
        _ => false,
    };
    if needs_name {
        let answer = stmt.column_name((column_number - 1) as usize);
        let ghost asked = answer;
        assert(stmt.gives_column_name((column_number - 1) as usize, asked));
        Ok((n, Some(answer)))
    } else {
        Ok((n, None))
    }
}

/// Returns a string attribute as `SQLColAttributeW` does.
fn string_attribute(
    value: &str,
    buffer_length: i16,
    chars_present: bool,
    string_length_present: bool,
) -> (r: ColAttributeOutcome)
    requires
        string_attribute_defined(value@, string_length_present),
    ensures
        ({
            let v = string_attribute_spec(
                value@,
                buffer_length,
                chars_present,
                string_length_present,
            );
            r@ == ColAttributeView {
                ret: v.ret,
                numeric: None,
                string_length: v.string_length,
                chars: v.chars,
            }
        }),
{
    let units = encode_utf16_units(value);
    let len16 = units.len() as i16;
    let string_length = if string_length_present {
        Some(len16 * 2)
    } else {
        None
    };
    if chars_present && buffer_length > 0 {
        let max_chars = (buffer_length / 2) as usize;
        let copy_len = if units.len() < max_chars {
            units.len()
        } else {
            max_chars
        };
        let mut chars = units.clone();
        assert(chars@ == units@);
        chars.truncate(copy_len);
        let ret = if copy_len < units.len() {
            ReturnCode::SuccessWithInfo
        } else {
            ReturnCode::Success
        };
        ColAttributeOutcome { ret, numeric: None, string_length, chars: Some(chars) }
    } else {
        ColAttributeOutcome { ret: ReturnCode::Success, numeric: None, string_length, chars: None }
    }
}

/// Works out what `SQLColAttributeW` reports from the statement's answers.
pub fn col_attribute_response(
    column_count: usize,
    column_number: u16,
    field_identifier: u16,
    name: Option<Result<String, String>>,
    buffer_length: i16,
    chars_present: bool,
    string_length_present: bool,
    numeric_present: bool,
) -> (r: ColAttributeOutcome)
    requires
        col_attribute_defined(name_of(name), field_identifier, string_length_present),
    ensures
        r@ == col_attribute_spec(
            column_count,
            column_number,
            field_identifier,
            name_of(name),
            buffer_length,
            chars_present,
            string_length_present,
            numeric_present,
        ),
{
    let numeric = |v: isize| -> (o: ColAttributeOutcome)
        ensures
            o@ == numeric_outcome(numeric_present, v),
        {
            ColAttributeOutcome {
                ret: ReturnCode::Success,
                numeric: if numeric_present {
                    Some(v)
                } else {
                    None
                },
                string_length: None,
                chars: None,
            }
        };
    if column_number == 0 || column_number as usize > column_count {
        return ColAttributeOutcome {
            ret: ReturnCode::Error,
            numeric: None,
            string_length: None,
            chars: None,
        };
    }
    let attribute = match decode_column_attribute(field_identifier) {
        Some(a) => a,
        None => {
            return numeric(0);
        },
    };
    match attribute {
        ColumnAttribute::Count => numeric(column_count as isize),
        ColumnAttribute::Name | ColumnAttribute::Label => match name {
            Some(Ok(s)) => string_attribute(
                s.as_str(),
                buffer_length,
                chars_present,
                string_length_present,
            ),
            _ => ColAttributeOutcome {
                ret: ReturnCode::Error,
                numeric: None,
                string_length: None,
                chars: None,
            },
        },
        ColumnAttribute::Type | ColumnAttribute::ConciseType => numeric(12),
        ColumnAttribute::Length | ColumnAttribute::OctetLength => numeric(255),
        ColumnAttribute::DisplaySize => numeric(25),
        ColumnAttribute::Nullable => numeric(1),
        ColumnAttribute::Unnamed => {
            let named = match name {
                Some(Ok(_)) => true,
                _ => false,
            };
            numeric(
                if named {
                    0
                } else {
                    1
                },
            )
        },
    }
}

/// The fixed description that `SQLDescribeColW` gives of every column: type
/// `SQL_VARCHAR` (12), size 255, no decimal digits, nullable (1).
pub struct ColumnDescription {
    /// The SQL data type.
    pub data_type: i16,
    /// The column size.
    pub column_size: usize,
    /// The number of decimal digits.
    pub decimal_digits: i16,
    /// Whether the column accepts NULL.
    pub nullable: i16,
}

/// What `SQLDescribeColW` reports.
pub struct DescribeColOutcome {
    /// The return code.
    pub ret: ReturnCode,
    /// What goes into the name buffer (the kept code units and a NUL), if anything.
    pub name: Option<Vec<u16>>,
    /// What goes into the name-length pointer, if anything.
    pub name_length: Option<i16>,
    /// What goes into the type, size, digits and nullability pointers, if anything.
    pub description: Option<ColumnDescription>,
}

/// How many code units of a name of `len` units `SQLDescribeColW` keeps in a
/// buffer of `buffer_length` characters: all, or as many as leave room for a NUL.
pub open spec fn name_copy_len(len: int, buffer_length: i16) -> int {
    if len < buffer_length - 1 {
        len
    } else {
        buffer_length - 1
    }
}

/// The name that `SQLDescribeColW` copies never overruns the buffer: the kept code
/// units and their NUL fit in `buffer_length` characters, and they are the start
/// of the name, all of it where it fits.
pub proof fn lemma_name_copy_fits(units: Seq<u16>, buffer_length: i16)
    requires
        buffer_length > 0,
    ensures
        ({
            let kept = name_copy_len(units.len() as int, buffer_length);
            let written = units.take(kept).push(0u16);
            &&& 0 <= kept <= units.len()
            &&& written.len() <= buffer_length
            &&& written.last() == 0u16
            &&& written.drop_last() == units.take(kept)
            &&& units.len() < buffer_length ==> written.drop_last() == units
        }),
{
    let kept = name_copy_len(units.len() as int, buffer_length);
    assert(units.take(kept).push(0u16).drop_last() =~= units.take(kept));
    if units.len() < buffer_length {
        assert(units.take(units.len() as int) =~= units);
    }
}

/// Whether `r` reports `Error` and writes nothing.
pub open spec fn describe_col_error(r: DescribeColOutcome) -> bool {
    r.ret == ReturnCode::Error && r.name is None && r.name_length is None && r.description is None
}

/// Whether `r` is what `SQLDescribeColW` reports for a column named `name`: the
/// name's UTF-16 length (cut to 16 bits) where the length pointer is present, the
/// name copied with a terminating NUL as far as a buffer of `buffer_length`
/// characters allows, `SuccessWithInfo` for a cut name and `Success` otherwise,
/// and the fixed description.
pub open spec fn describes_named_column(
    r: DescribeColOutcome,
    name: Seq<char>,
    buffer_length: i16,
    name_present: bool,
    name_length_present: bool,
) -> bool {
    let units = encode_utf16(name);
    let copied = name_present && buffer_length > 0;
    &&& r.name_length == if name_length_present {
        Some(as_small(units.len() as int))
    } else {
        None
    }
    &&& copied ==> (r.name matches Some(w) && w@ == units.take(
        name_copy_len(units.len() as int, buffer_length),
    ).push(0u16))
    &&& !copied ==> r.name is None
    &&& r.ret == if copied && name_copy_len(units.len() as int, buffer_length) < units.len() {
        ReturnCode::SuccessWithInfo
    } else {
        ReturnCode::Success
    }
    &&& (r.description matches Some(d) && d.data_type == 12 && d.column_size == 255
        && d.decimal_digits == 0 && d.nullable == 1)
}

/// Whether `r` is what `SQLDescribeColW` reports for a statement of `column_count`
/// columns, given what the statement answered for the column's name: `Error` and
/// nothing written for a column out of range or without a name, else the named
/// column's description (see [`describes_named_column`]).
pub open spec fn describe_col_outcome(
    r: DescribeColOutcome,
    column_count: usize,
    column_number: u16,
    name: Option<Result<String, String>>,
    buffer_length: i16,
    name_present: bool,
    name_length_present: bool,
) -> bool {
    &&& !column_in_range(column_count, column_number) || !(name matches Some(Ok(_)))
        ==> describe_col_error(r)
    &&& name matches Some(Ok(s)) ==> column_in_range(column_count, column_number)
        ==> describes_named_column(r, s@, buffer_length, name_present, name_length_present)
}

/// `SQLDescribeColW` for a statement of `column_count` columns, given what the
/// statement answered for the column's name (the name, or `None` where it failed):
/// for a column in range with a name, the name's UTF-16 length (cut to 16 bits) is
/// reported, the name is copied with a terminating NUL as far as the buffer of
/// `buffer_length` characters allows, a cut name is reported with
/// `SuccessWithInfo`, and the fixed description is given.
pub fn describe_col_response(
    column_count: usize,
    column_number: u16,
    name: Option<Result<String, String>>,
    buffer_length: i16,
    name_present: bool,
    name_length_present: bool,
) -> (r: DescribeColOutcome)
    ensures
        describe_col_outcome(
            r,
            column_count,
            column_number,
            name,
            buffer_length,
            name_present,
            name_length_present,
        ),
{
    if column_number == 0 || column_number as usize > column_count {
        return DescribeColOutcome {
            ret: ReturnCode::Error,
            name: None,
            name_length: None,
            description: None,
        };
    }
    let value = match name {
        Some(Ok(s)) => s,
        _ => {
            return DescribeColOutcome {
                ret: ReturnCode::Error,
                name: None,
                name_length: None,
                description: None,
            };
        },
    };
    let units = encode_utf16_units(value.as_str());
    let name_length = if name_length_present {
        Some(units.len() as i16)
    } else {
        None
    };
    let mut ret = ReturnCode::Success;
    let mut written: Option<Vec<u16>> = None;
    if name_present && buffer_length > 0 {
        let max_chars = buffer_length as usize;
        let copy_len = if units.len() < max_chars - 1 {
            units.len()
        } else {
            max_chars - 1
        };
        let mut copy = units.clone();
        assert(copy@ == units@);
        copy.truncate(copy_len);
        copy.push(0u16);
        if copy_len < units.len() {
            ret = ReturnCode::SuccessWithInfo;
        }
        written = Some(copy);
    }
    DescribeColOutcome {
        ret,
        name: written,
        name_length,
        description: Some(
            ColumnDescription { data_type: 12, column_size: 255, decimal_digits: 0, nullable: 1 },
        ),
    }
}

/// `SQLDescribeColW`: describes a column (numbered from 1) of the handle's
/// statement. Without a statement handle it reports `InvalidHandle`, without a
/// statement `Error`; otherwise it asks the statement for its column count and,
/// for a column in range, the column's name, and reports as
/// [`describe_col_response`] says for those answers.
pub fn sql_describe_col(
    handle: Option<&StatementHandle>,
    column_number: u16,
    buffer_length: i16,
    name_present: bool,
    name_length_present: bool,
) -> (r: DescribeColOutcome)
    ensures
        handle is None ==> r.ret == ReturnCode::InvalidHandle && r.name is None
            && r.name_length is None && r.description is None,
        handle matches Some(h) && h.active_statement is None ==> describe_col_error(r),
        handle matches Some(h) && h.active_statement is Some ==> {
            &&& r.ret != ReturnCode::InvalidHandle
            &&& column_number == 0 ==> describe_col_error(r)
            &&& r.ret == ReturnCode::Error ==> describe_col_error(r)
            &&& r.ret != ReturnCode::Error ==> exists|answer: Result<String, String>|
                #[trigger] handle->0.active_statement->0.gives_column_name(
                    (column_number - 1) as usize,
                    answer,
                ) && answer is Ok && describes_named_column(
                    r,
                    answer->Ok_0@,
                    buffer_length,
                    name_present,
                    name_length_present,
                )
            &&& exists|n: usize|
                #[trigger] handle->0.active_statement->0.gives_column_count(n) && (!column_in_range(
                    n,
                    column_number,
                ) ==> describe_col_error(r)) && (column_in_range(n, column_number) ==> exists|
                    answer: Result<String, String>,
                |
                    #[trigger] handle->0.active_statement->0.gives_column_name(
                        (column_number - 1) as usize,
                        answer,
                    ) && describe_col_outcome(
                        r,
                        n,
                        column_number,
                        Some(answer),
                        buffer_length,
                        name_present,
                        name_length_present,
                    ))
        },
{
    let handle = match handle {
        Some(h) => h,
        None => {
            return DescribeColOutcome {
                ret: ReturnCode::InvalidHandle,
                name: None,
                name_length: None,
                description: None,
            };
        },
    };
    let stmt = match &handle.active_statement {
        Some(s) => s,
        None => {
            return DescribeColOutcome {
                ret: ReturnCode::Error,
                name: None,
                name_length: None,
                description: None,
            };
        },
    };
    let n = stmt.column_count();
    assert(stmt.gives_column_count(n));
    if column_number == 0 || column_number as usize > n {
        return describe_col_response(
            n,
            column_number,
            None,
            buffer_length,
            name_present,
            name_length_present,
        );
    }
    let answer = stmt.column_name((column_number - 1) as usize);
    let ghost asked = answer;
    assert(stmt.gives_column_name((column_number - 1) as usize, asked));
    describe_col_response(
        n,
        column_number,
        Some(answer),
        buffer_length,
        name_present,
        name_length_present,
    )
}

} // verus!
