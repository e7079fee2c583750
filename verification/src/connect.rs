//! Connecting: `SQLConnectW` (by data source name) and `SQLDriverConnectW` (by
//! connection string).

use crate::codes::ReturnCode;
use crate::handles::{ConnectionHandle, DbConnection, DbConnectionFactory, FactoryRegistry};
use crate::statement::{decode_text_argument, text_decodes};
use crate::text::{chars_of, decode_utf16, decode_utf16_units, string_of, trim, trim_bounds};
use std::sync::Arc;
use vstd::prelude::*;

verus! {

/// The key that names the database in a connection string.
pub open spec fn database_key() -> Seq<char> {
    seq!['D', 'a', 't', 'a', 'b', 'a', 's', 'e', '=']
}

/// The index of the first `;` in `s` at or after `i`, or the length of `s`.
pub open spec fn next_separator(s: Seq<char>, i: int) -> int
    decreases s.len() - i,
{
    if i >= s.len() {
        s.len() as int
    } else if s[i] == ';' {
        i
    } else {
        next_separator(s, i + 1)
    }
}

/// Whether `seg` starts with `Database=`.
pub open spec fn starts_with_database_key(seg: Seq<char>) -> bool {
    seg.len() >= database_key().len() && seg.take(database_key().len() as int) == database_key()
}

/// The database named by the `;`-separated segments of `s` from index `start` on:
/// the first segment that starts with `Database=`, without that key, trimmed.
pub open spec fn database_from(s: Seq<char>, start: int) -> Option<Seq<char>>
    decreases s.len() - start,
{
    if start < 0 || start > s.len() {
        None
    } else {
        proof {
            lemma_next_separator(s, start);
        }
        let end = next_separator(s, start);
        let seg = s.subrange(start, end);
        if starts_with_database_key(seg) {
            Some(trim(seg.skip(database_key().len() as int)))
        } else if end < s.len() {
            database_from(s, end + 1)
        } else {
            None
        }
    }
}

/// The database path that a connection string names: the value of its first
/// `Database=` segment, trimmed.
pub open spec fn database_path(s: Seq<char>) -> Option<Seq<char>> {
    database_from(s, 0)
}

/// `next_separator` finds the first separator at or after `i`.
pub proof fn lemma_next_separator(s: Seq<char>, i: int)
    requires
        0 <= i <= s.len(),
    ensures
        i <= next_separator(s, i) <= s.len(),
        next_separator(s, i) < s.len() ==> s[next_separator(s, i)] == ';',
        forall|k: int| i <= k < next_separator(s, i) ==> s[k] != ';',
    decreases s.len() - i,
{
    if i < s.len() && s[i] != ';' {
        lemma_next_separator(s, i + 1);
    }
}

/// `next_separator` from `i` is `j` where no `;` stands in `[i, j)` and `j` is the
/// end of `s` or a `;`.
proof fn lemma_next_separator_is(s: Seq<char>, i: int, j: int)
    requires
        0 <= i <= j <= s.len(),
        forall|k: int| i <= k < j ==> s[k] != ';',
        j == s.len() || s[j] == ';',
    ensures
        next_separator(s, i) == j,
    decreases j - i,
{
    if i < j {
        lemma_next_separator_is(s, i + 1, j);
    }
}

/// White space in front of `t` does not change `t` trimmed at the start.
proof fn lemma_trim_start_skips(pad: Seq<char>, t: Seq<char>)
    requires
        forall|k: int| 0 <= k < pad.len() ==> crate::text::is_unicode_whitespace(#[trigger] pad[k]),
    ensures
        crate::text::trim_start(pad + t) == crate::text::trim_start(t),
    decreases pad.len(),
{
    if pad.len() > 0 {
        assert((pad + t).skip(1) =~= pad.skip(1) + t);
        lemma_trim_start_skips(pad.skip(1), t);
    } else {
        assert(pad + t =~= t);
    }
}

/// White space after `t` does not change `t` trimmed at the end.
proof fn lemma_trim_end_skips(t: Seq<char>, pad: Seq<char>)
    requires
        forall|k: int| 0 <= k < pad.len() ==> crate::text::is_unicode_whitespace(#[trigger] pad[k]),
    ensures
        crate::text::trim_end(t + pad) == crate::text::trim_end(t),
    decreases pad.len(),
{
    if pad.len() > 0 {
        assert((t + pad).drop_last() =~= t + pad.drop_last());
        lemma_trim_end_skips(t, pad.drop_last());
    } else {
        assert(t + pad =~= t);
    }
}

/// Trimming removes white space at both ends and nothing inside: a value that does
/// not start or end with white space comes back whole, whatever white space pads it.
proof fn lemma_trim_keeps_inner(front: Seq<char>, p: Seq<char>, back: Seq<char>)
    requires
        p.len() > 0,
        !crate::text::is_unicode_whitespace(p[0]),
        !crate::text::is_unicode_whitespace(p.last()),
        forall|k: int| 0 <= k < front.len() ==> crate::text::is_unicode_whitespace(#[trigger] front[k]),
        forall|k: int| 0 <= k < back.len() ==> crate::text::is_unicode_whitespace(#[trigger] back[k]),
    ensures
        trim(front + p + back) == p,
{
    assert(front + p + back =~= front + (p + back));
    lemma_trim_start_skips(front, p + back);
    assert((p + back)[0] == p[0]);
    lemma_trim_end_skips(p, back);
}

/// A segment `Database=<v>` starting at `start` and ending at the end of `s` or at
/// a `;` names the database `v`, trimmed.
proof fn lemma_database_segment(s: Seq<char>, start: int, v: Seq<char>)
    requires
        0 <= start,
        start + 9 + v.len() <= s.len(),
        s.subrange(start, start + 9 + v.len()) == database_key() + v,
        !v.contains(';'),
        start + 9 + v.len() == s.len() || s[start + 9 + v.len()] == ';',
    ensures
        database_from(s, start) == Some(trim(v)),
{
    let end = start + 9 + v.len();
    assert forall|k: int| start <= k < end implies s[k] != ';' by {
        assert(s[k] == s.subrange(start, end)[k - start]);
        if k - start >= 9 {
            assert((database_key() + v)[k - start] == v[k - start - 9]);
        }
    }
    lemma_next_separator_is(s, start, end);
    let seg = s.subrange(start, end);
    assert(seg.take(9) =~= database_key());
    assert(seg.skip(9) =~= v);
}

/// A first segment `q` that does not name the database is passed over: the search
/// goes on after its `;`.
proof fn lemma_other_segment_skipped(s: Seq<char>, q: Seq<char>)
    requires
        q.len() < s.len(),
        s.subrange(0, q.len() as int) == q,
        s[q.len() as int] == ';',
        !q.contains(';'),
        !starts_with_database_key(q),
    ensures
        database_path(s) == database_from(s, q.len() as int + 1),
{
    assert forall|k: int| 0 <= k < q.len() implies s[k] != ';' by {
        assert(s[k] == q[k]);
    }
    lemma_next_separator_is(s, 0, q.len() as int);
}

/// The database of a connection string is the whole value after `Database=`,
/// trimmed at its two ends only: white space inside the value is kept, whether the
/// `Database=` segment comes first or after another segment, and whether other
/// segments follow it.
pub proof fn lemma_database_value_kept(
    q: Seq<char>,
    front: Seq<char>,
    p: Seq<char>,
    back: Seq<char>,
    rest: Seq<char>,
)
    requires
        !q.contains(';'),
        !starts_with_database_key(q),
        !p.contains(';'),
        p.len() > 0,
        !crate::text::is_unicode_whitespace(p[0]),
        !crate::text::is_unicode_whitespace(p.last()),
        forall|k: int| 0 <= k < front.len() ==> crate::text::is_unicode_whitespace(#[trigger] front[k]),
        forall|k: int| 0 <= k < back.len() ==> crate::text::is_unicode_whitespace(#[trigger] back[k]),
    ensures
        database_path(database_key() + front + p + back) == Some(p),
        database_path(database_key() + front + p + back + seq![';'] + rest) == Some(p),
        database_path(q + seq![';'] + database_key() + front + p + back) == Some(p),
        database_path(q + seq![';'] + database_key() + front + p + back + seq![';'] + rest)
            == Some(p),
{
    let v = front + p + back;
    let n = v.len() as int;
    let m = q.len() as int;
    lemma_trim_keeps_inner(front, p, back);
    assert forall|k: int| 0 <= k < v.len() implies v[k] != ';' by {
        if k < front.len() {
            assert(v[k] == front[k]);
            assert(crate::text::is_unicode_whitespace(front[k]));
        } else if k < front.len() + p.len() {
            assert(v[k] == p[k - front.len()]);
            if v[k] == ';' {
                assert(p.contains(';'));
            }
        } else {
            assert(v[k] == back[k - front.len() - p.len()]);
            assert(crate::text::is_unicode_whitespace(back[k - front.len() - p.len()]));
        }
    }
    assert(!v.contains(';'));
    let s1 = database_key() + front + p + back;
    assert(s1 =~= database_key() + v);
    assert(s1.subrange(0, 9 + n) =~= database_key() + v);
    lemma_database_segment(s1, 0, v);
    let s2 = database_key() + front + p + back + seq![';'] + rest;
    assert(s2.subrange(0, 9 + n) =~= database_key() + v);
    assert(s2[9 + n] == ';');
    lemma_database_segment(s2, 0, v);
    let s3 = q + seq![';'] + database_key() + front + p + back;
    assert(s3.subrange(0, m) =~= q);
    assert(s3[m] == ';');
    lemma_other_segment_skipped(s3, q);
    assert(s3.subrange(m + 1, m + 1 + 9 + n) =~= database_key() + v);
    lemma_database_segment(s3, m + 1, v);
    let s4 = q + seq![';'] + database_key() + front + p + back + seq![';'] + rest;
    assert(s4.subrange(0, m) =~= q);
    assert(s4[m] == ';');
    lemma_other_segment_skipped(s4, q);
    assert(s4.subrange(m + 1, m + 1 + 9 + n) =~= database_key() + v);
    assert(s4[m + 1 + 9 + n] == ';');
    lemma_database_segment(s4, m + 1, v);
}

/// Whether `chars[start..end]` starts with `Database=`.
fn has_database_key(chars: &Vec<char>, start: usize, end: usize) -> (r: bool)
    requires
        start <= end <= chars@.len(),
    ensures
        r == starts_with_database_key(chars@.subrange(start as int, end as int)),
{
    let key: [char; 9] = ['D', 'a', 't', 'a', 'b', 'a', 's', 'e', '='];
    assert(key@ =~= database_key());
    if end - start < 9 {
        return false;
    }
    let ghost seg = chars@.subrange(start as int, end as int);
    let mut i: usize = 0;
    while i < 9
        invariant
            start + 9 <= end <= chars@.len(),
            seg == chars@.subrange(start as int, end as int),
            key@ == database_key(),
            i <= 9,
            forall|k: int| 0 <= k < i ==> seg[k] == key@[k],
        decreases 9 - i,
    {
        if chars[start + i] != key[i] {
            assert(seg.take(9)[i as int] != database_key()[i as int]);
            return false;
        }
        i = i + 1;
    }
    assert(seg.take(9) =~= database_key());
    true
}

/// Finds the database path in a connection string, as `SQLDriverConnectW` reads
/// it: the first `;`-separated segment that starts with `Database=`, without the
/// key, trimmed of white space.
pub fn parse_database_path(connection_string: &str) -> (r: Option<String>)
    ensures
        r is Some <==> database_path(connection_string@) is Some,
        r matches Some(p) ==> database_path(connection_string@) == Some(p@),
{
    let chars = chars_of(connection_string);
    let n = chars.len();
    let mut start: usize = 0;
    while start <= n
        invariant
            chars@ == connection_string@,
            n == chars@.len(),
            start <= n + 1,
            database_path(chars@) == database_from(chars@, start as int),
        decreases n + 1 - start,
    {
        let mut end = start;
        while end < n && chars[end] != ';'
            invariant
                start <= end <= n,
                n == chars@.len(),
                next_separator(chars@, start as int) == next_separator(chars@, end as int),
            decreases n - end,
        {
            end = end + 1;
        }
        proof {
            lemma_next_separator(chars@, start as int);
        }
        assert(end == next_separator(chars@, start as int));
        if has_database_key(&chars, start, end) {
            let (a, b) = trim_bounds(&chars, start + 9, end);
            proof {
                let seg = chars@.subrange(start as int, end as int);
                assert(seg.skip(9) =~= chars@.subrange(start + 9, end as int));
            }
            return Some(string_of(&chars, a, b));
        }
        if end >= n {
            return None;
        }
        start = end + 1;
    }
    None
}

/// Whether the registered factory may give `answer` when asked to open `database`.
pub open spec fn factory_opens(
    registry: FactoryRegistry,
    database: Seq<char>,
    answer: Result<Box<dyn DbConnection>, String>,
) -> bool {
    registry.registered()->0.opens(database, answer)
}

/// Whether the factory's `answer` took the connection handle from `before` to
/// `after` with outcome `connected`: either it opened the database and `after`
/// holds that connection, or it refused and the handle is unchanged.
pub open spec fn connects_with(
    before: ConnectionHandle,
    after: ConnectionHandle,
    connected: bool,
    answer: Result<Box<dyn DbConnection>, String>,
) -> bool {
    &&& connected == answer is Ok
    &&& connected ==> (after.connection matches Some(c) && *c == answer->Ok_0)
    &&& !connected ==> after == before
}

/// Whether opening `database` took the connection handle from `before` to `after`
/// with outcome `connected`: the registered factory was asked for that database,
/// and its answer took the handle as [`connects_with`] says.
pub open spec fn connects_to(
    registry: FactoryRegistry,
    database: Seq<char>,
    before: ConnectionHandle,
    after: ConnectionHandle,
    connected: bool,
) -> bool {
    exists|answer: Result<Box<dyn DbConnection>, String>|
        #[trigger] factory_opens(registry, database, answer) && connects_with(
            before,
            after,
            connected,
            answer,
        )
}

/// Connecting depends on nothing but the handle and the factory's answer for the
/// database asked for: two connections of the same handle that got the same answer
/// end alike. In particular a user name or password, which the driver never hands
/// to the back end, cannot change the outcome.
pub proof fn lemma_connect_determined(
    before: ConnectionHandle,
    after1: ConnectionHandle,
    after2: ConnectionHandle,
    connected1: bool,
    connected2: bool,
    answer: Result<Box<dyn DbConnection>, String>,
)
    requires
        connects_with(before, after1, connected1, answer),
        connects_with(before, after2, connected2, answer),
    ensures
        connected1 == connected2,
        after1 == after2,
{
}

/// Opens the database at `database` with the registered factory and, where that
/// succeeds, makes it the handle's connection. Returns whether it succeeded;
/// on failure the handle is unchanged.
pub fn connect_database(
    handle: &mut ConnectionHandle,
    registry: &FactoryRegistry,
    database: &str,
) -> (r: bool)
    requires
        registry.registered() is Some,
    ensures
        connects_to(*registry, database@, *old(handle), *final(handle), r),
{
    let factory = registry.factory();
    let created = factory.create(database);
    let ghost answer = created;
    assert(factory_opens(*registry, database@, answer));
    install_connection(handle, created)
}

/// Makes the connection that the factory created the handle's connection: `true`
/// with the handle holding that connection, or `false` (the factory failed) with
/// the handle as it was.
pub fn install_connection(
    handle: &mut ConnectionHandle,
    created: Result<Box<dyn DbConnection>, String>,
) -> (r: bool)
    ensures
        r == created is Ok,
        created is Ok ==> (final(handle).connection matches Some(c) && *c == created->Ok_0),
        created is Err ==> *final(handle) == *old(handle),
{
    if created.is_ok() {
        let db = created.unwrap();
        let shared = Arc::new(db);
        assert(*shared == db);
        handle.connection = Some(shared);
        true
    } else {
        false
    }
}

/// The database path that `SQLDriverConnectW` connects to, or the error it returns
/// first: `InvalidHandle` for a null handle, `Error` for a handle that is not a
/// connection handle, a connection string that is absent or does not decode, or
/// one without a `Database=` segment.
pub open spec fn driver_connect_target(
    handle_present: bool,
    handle_valid: bool,
    connection_string: Option<Vec<u16>>,
) -> Result<Seq<char>, ReturnCode> {
    if !handle_present {
        Err(ReturnCode::InvalidHandle)
    } else if !handle_valid || !text_decodes(connection_string) {
        Err(ReturnCode::Error)
    } else {
        match database_path(decode_utf16(connection_string->0@)->0) {
            Some(p) => Ok(p),
            None => Err(ReturnCode::Error),
        }
    }
}

/// Works out which database `SQLDriverConnectW` connects to (see
/// [`driver_connect_target`]).
pub fn driver_connect_database(
    handle_present: bool,
    handle_valid: bool,
    connection_string: Option<Vec<u16>>,
) -> (r: Result<String, ReturnCode>)
    ensures
        match driver_connect_target(handle_present, handle_valid, connection_string) {
            Ok(p) => r matches Ok(s) && s@ == p,
            Err(e) => r == Err::<String, ReturnCode>(e),
        },
{
    if !handle_present {
        return Err(ReturnCode::InvalidHandle);
    }
    if !handle_valid {
        return Err(ReturnCode::Error);
    }
    let text = match decode_text_argument(&connection_string) {
        Some(t) => t,
        None => {
            return Err(ReturnCode::Error);
        },
    };
    match parse_database_path(text.as_str()) {
        Some(p) => Ok(p),
        None => Err(ReturnCode::Error),
    }
}

/// `SQLDriverConnectW` once the database is known: opens it with the registered
/// factory. Where it opens, the handle holds the connection and the call succeeds;
/// the output connection string is not filled in, and its length is reported as 0
/// where the application gave an output buffer, a positive buffer length and a
/// length pointer. Where the database cannot be opened, the call fails, writes
/// nothing and leaves the handle unchanged.
pub fn sql_driver_connect(
    handle: &mut ConnectionHandle,
    registry: &FactoryRegistry,
    database: &str,
    out_present: bool,
    buffer_length: i16,
    length_present: bool,
) -> (r: (ReturnCode, Option<i16>))
    requires
        registry.registered() is Some,
    ensures
        r.0 == ReturnCode::Success || r.0 == ReturnCode::Error,
        connects_to(*registry, database@, *old(handle), *final(handle), r.0 == ReturnCode::Success),
        r.1 == if r.0 == ReturnCode::Success && out_present && buffer_length > 0 && length_present {
            Some(0i16)
        } else {
            None
        },
{
    if !connect_database(handle, registry, database) {
        return (ReturnCode::Error, None);
    }
    if out_present && buffer_length > 0 && length_present {
        (ReturnCode::Success, Some(0))
    } else {
        (ReturnCode::Success, None)
    }
}

/// The data source name that `SQLConnectW` looks up, or its error: the handle
/// must be a connection handle (else `InvalidHandle`) and the server name must be
/// present and decode (else `Error`).
pub fn connect_server_name(handle_valid: bool, server_name: Option<Vec<u16>>) -> (r: Result<
    String,
    ReturnCode,
>)
    ensures
        !handle_valid ==> r == Err::<String, ReturnCode>(ReturnCode::InvalidHandle),
        handle_valid && !text_decodes(server_name) ==> r == Err::<String, ReturnCode>(
            ReturnCode::Error,
        ),
        handle_valid && text_decodes(server_name) ==> (r matches Ok(s) && decode_utf16(
            server_name->0@,
        ) == Some(s@)),
{
    if !handle_valid {
        return Err(ReturnCode::InvalidHandle);
    }
    match decode_text_argument(&server_name) {
        Some(s) => Ok(s),
        None => Err(ReturnCode::Error),
    }
}

/// `SQLConnectW` once the data source's `Database` setting was looked up: a
/// failed lookup or a missing setting is an error; otherwise the database named by
/// the setting is opened with the registered factory and becomes the handle's
/// connection, or the call fails with the handle unchanged.
pub fn sql_connect(
    handle: &mut ConnectionHandle,
    registry: &FactoryRegistry,
    database_setting: Result<Option<String>, String>,
) -> (r: ReturnCode)
    requires
        database_setting matches Ok(Some(_)) ==> registry.registered() is Some,
    ensures
        !(database_setting matches Ok(Some(_))) ==> r == ReturnCode::Error && *final(handle)
            == *old(handle),
        database_setting matches Ok(Some(db)) ==> (r == ReturnCode::Success || r
            == ReturnCode::Error) && connects_to(
            *registry,
            db@,
            *old(handle),
            *final(handle),
            r == ReturnCode::Success,
        ),
{
    let database = match database_setting {
        Ok(Some(db)) => db,
        _ => {
            return ReturnCode::Error;
        },
    };
    if connect_database(handle, registry, database.as_str()) {
        ReturnCode::Success
    } else {
        ReturnCode::Error
    }
}

/// The value of a data-source setting, read from the answer of the ODBC
/// installer's profile lookup: `count` is the number of characters it wrote into
/// `buffer` (negative on failure). A failure, a count beyond the buffer, or text
/// that does not decode is an error; no characters mean the setting is absent.
pub fn profile_setting(buffer: &[u16], count: i32) -> (r: Result<Option<String>, String>)
    ensures
        (count < 0 || count > buffer@.len()) ==> r is Err,
        count == 0 ==> r == Ok::<Option<String>, String>(None),
        0 < count <= buffer@.len() ==> match decode_utf16(buffer@.take(count as int)) {
            Some(v) => r matches Ok(Some(s)) && s@ == v,
            None => r is Err,
        },
{
    if count < 0 {
        return Err("the profile lookup failed".to_owned());
    }
    if count == 0 {
        return Ok(None);
    }
    let n = count as usize;
    if n > buffer.len() {
        return Err("the profile lookup reported more characters than its buffer holds".to_owned());
    }
    let mut units: Vec<u16> = Vec::new();
    let mut i: usize = 0;
    while i < n
        invariant
            n <= buffer@.len(),
            i <= n,
            units@ == buffer@.take(i as int),
        decreases n - i,
    {
        units.push(buffer[i]);
        assert(units@ =~= buffer@.take(i + 1));
        i = i + 1;
    }
    match decode_utf16_units(units.as_slice()) {
        Some(s) => Ok(Some(s)),
        None => Err("the profile setting is not valid UTF-16".to_owned()),
    }
}

} // verus!
