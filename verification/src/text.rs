//! Text as the ODBC interface carries it: UTF-16 code units in and out of the
//! wide-character entry points, and NUL-terminated byte strings.

use vstd::prelude::*;

verus! {

/// The UTF-16 code units of one character: itself below U+10000, a surrogate
/// pair above.
pub open spec fn utf16_of_char(c: char) -> Seq<u16> {
    let v = c as int;
    if v < 0x10000 {
        seq![v as u16]
    } else {
        let w = v - 0x10000;
        seq![(0xD800 + w / 0x400) as u16, (0xDC00 + w % 0x400) as u16]
    }
}

/// The UTF-16 encoding of a character sequence.
pub open spec fn encode_utf16(s: Seq<char>) -> Seq<u16>
    decreases s.len(),
{
    if s.len() == 0 {
        seq![]
    } else {
        encode_utf16(s.drop_last()) + utf16_of_char(s.last())
    }
}

/// Whether `u` is a high (leading) surrogate.
pub open spec fn is_high_surrogate(u: u16) -> bool {
    0xD800 <= u <= 0xDBFF
}

/// Whether `u` is a low (trailing) surrogate.
pub open spec fn is_low_surrogate(u: u16) -> bool {
    0xDC00 <= u <= 0xDFFF
}

/// The character that a surrogate pair stands for.
pub open spec fn pair_value(hi: u16, lo: u16) -> int {
    0x10000 + (hi - 0xD800) * 0x400 + (lo - 0xDC00)
}

/// The characters that the UTF-16 code units `units` encode, or `None` where they
/// hold a surrogate that is not part of a pair.
pub open spec fn decode_utf16(units: Seq<u16>) -> Option<Seq<char>>
    decreases units.len(),
{
    if units.len() == 0 {
        Some(seq![])
    } else if !is_high_surrogate(units[0]) && !is_low_surrogate(units[0]) {
        match decode_utf16(units.skip(1)) {
            Some(rest) => Some(seq![(units[0] as int) as char] + rest),
            None => None,
        }
    } else if is_high_surrogate(units[0]) && units.len() >= 2 && is_low_surrogate(units[1]) {
        match decode_utf16(units.skip(2)) {
            Some(rest) => Some(seq![pair_value(units[0], units[1]) as char] + rest),
            None => None,
        }
    } else {
        None
    }
}

/// Whether `v` is a Unicode scalar value, that is the number of some `char`.
pub open spec fn is_scalar_value(v: u32) -> bool {
    v <= 0x10FFFF && !(0xD800 <= v <= 0xDFFF)
}

/// Calls `char::from_u32`, which gives the character numbered `v` where `v` is
/// a Unicode scalar value and `None` otherwise.
#[verifier::external_body]
fn char_from_u32(v: u32) -> (r: Option<char>)
    ensures
        is_scalar_value(v) ==> r == Some(v as char),
        !is_scalar_value(v) ==> r is None,
{
    char::from_u32(v)
}

/// Calls `String::push`, which appends one character.
#[verifier::external_body]
pub(crate) fn push_char(s: &mut String, c: char)
    ensures
        final(s)@ == old(s)@.push(c),
{
    s.push(c)
}

/// The number of a character, as `u32`.
pub(crate) fn char_number(c: char) -> (v: u32)
    ensures
        v as int == c as int,
        v <= 0x10FFFF,
{
    c as u32
}

/// Encodes a string as UTF-16 code units, as `str::encode_utf16` does.
pub fn encode_utf16_units(s: &str) -> (r: Vec<u16>)
    ensures
        r@ == encode_utf16(s@),
{
    broadcast use vstd::string::axiom_spec_iter;

    let mut out: Vec<u16> = Vec::new();
    assert(s@.take(0) =~= seq![]);
    assert(s@.take(s@.len() as int) =~= s@);
    for c in it: s.chars()
        invariant
            it.seq() == s@,
            out@ == encode_utf16(s@.take(it.index() as int)),
    {
        let ghost done = s@.take(it.index() as int);
        let v = char_number(c);
        if v < 0x10000 {
            out.push(v as u16);
        } else {
            let w = v - 0x10000;
            out.push((0xD800 + w / 0x400) as u16);
            out.push((0xDC00 + w % 0x400) as u16);
        }
        proof {
            let next = s@.take(it.index() + 1);
            assert(next.drop_last() =~= done);
            assert(next.last() == c);
        }
    }
    out
}

/// `prefix` followed by the decoded `rest`, where `rest` decoded.
pub open spec fn after_prefix(prefix: Seq<char>, rest: Option<Seq<char>>) -> Option<Seq<char>> {
    match rest {
        Some(r) => Some(prefix + r),
        None => None,
    }
}

/// Decodes UTF-16 code units into a string, as `String::from_utf16` does:
/// `None` where the units hold an unpaired surrogate.
pub fn decode_utf16_units(units: &[u16]) -> (r: Option<String>)
    ensures
        r is Some <==> decode_utf16(units@) is Some,
        r matches Some(s) ==> decode_utf16(units@) == Some(s@),
{
    let n = units.len();
    let mut out = String::new();
    let mut i: usize = 0;
    assert(units@.skip(0) =~= units@);
    while i < n
        invariant
            n == units@.len(),
            i <= n,
            decode_utf16(units@) == after_prefix(out@, decode_utf16(units@.skip(i as int))),
        decreases n - i,
    {
        let ghost rest = units@.skip(i as int);
        let u = units[i];
        if u < 0xD800 || u > 0xDFFF {
            assert(rest.skip(1) =~= units@.skip(i + 1));
            let c = char_from_u32(u as u32);
            match c {
                Some(c) => {
                    let ghost before = out@;
                    push_char(&mut out, c);
                    assert(before + (seq![c] + decode_utf16(rest.skip(1))->0) =~= out@ + decode_utf16(
                        rest.skip(1),
                    )->0);
                },
                None => {
                    return None;
                },
            }
            i = i + 1;
        } else if u <= 0xDBFF && i + 1 < n && 0xDC00 <= units[i + 1] && units[i + 1] <= 0xDFFF {
            let lo = units[i + 1];
            assert(rest.skip(2) =~= units@.skip(i + 2));
            let v: u32 = 0x10000 + ((u - 0xD800) as u32) * 0x400 + ((lo - 0xDC00) as u32);
            assert(v as int == pair_value(u, lo));
            let c = char_from_u32(v);
            match c {
                Some(c) => {
                    let ghost before = out@;
                    push_char(&mut out, c);
                    assert(before + (seq![c] + decode_utf16(rest.skip(2))->0) =~= out@ + decode_utf16(
                        rest.skip(2),
                    )->0);
                },
                None => {
                    return None;
                },
            }
            i = i + 2;
        } else {
            return None;
        }
    }
    assert(units@.skip(n as int) =~= seq![]);
    assert(out@ + seq![] =~= out@);
    Some(out)
}

/// The UTF-16 code units of one character decode to that character, whatever
/// units follow them.
proof fn lemma_decode_char(c: char, rest: Seq<u16>)
    ensures
        decode_utf16(utf16_of_char(c) + rest) == after_prefix(seq![c], decode_utf16(rest)),
{
    let units = utf16_of_char(c) + rest;
    let v = c as int;
    if v < 0x10000 {
        assert(units.skip(1) =~= rest);
        assert(units[0] as int == v);
        assert((v as char) == c);
    } else {
        let w = v - 0x10000;
        assert(units.skip(2) =~= rest);
        assert(units[0] as int == 0xD800 + w / 0x400);
        assert(units[1] as int == 0xDC00 + w % 0x400);
        assert(pair_value(units[0], units[1]) == v);
        assert((v as char) == c);
    }
}

/// Decoding the UTF-16 encoding of `s` followed by `rest` gives `s` followed by
/// what `rest` decodes to.
proof fn lemma_decode_encoded(s: Seq<char>, rest: Seq<u16>)
    ensures
        decode_utf16(encode_utf16(s) + rest) == after_prefix(s, decode_utf16(rest)),
    decreases s.len(),
{
    if s.len() == 0 {
        assert(encode_utf16(s) + rest =~= rest);
        if let Some(r) = decode_utf16(rest) {
            assert(s + r =~= r);
        }
    } else {
        let init = s.drop_last();
        let last = s.last();
        let tail = utf16_of_char(last) + rest;
        assert(encode_utf16(s) + rest =~= encode_utf16(init) + tail);
        lemma_decode_encoded(init, tail);
        lemma_decode_char(last, rest);
        if let Some(r) = decode_utf16(rest) {
            assert(init + (seq![last] + r) =~= s + r);
        }
    }
}

/// Decoding what [`encode_utf16_units`] produces gives the string back: the UTF-16
/// decoding undoes the encoding, for every string.
pub proof fn lemma_utf16_round_trip(s: Seq<char>)
    ensures
        decode_utf16(encode_utf16(s)) == Some(s),
{
    lemma_decode_encoded(s, seq![]);
    assert(encode_utf16(s) + seq![] =~= encode_utf16(s));
    assert(s + seq![] =~= s);
}

/// The bytes that a C string made from `s` holds (its UTF-8 encoding), or `None`
/// where that encoding holds a NUL byte, on which `CString::new` fails.
pub open spec fn c_string_bytes(s: Seq<char>) -> Option<Seq<u8>> {
    let b = vstd::utf8::encode_utf8(s);
    if b.contains(0u8) {
        None
    } else {
        Some(b)
    }
}

/// The bytes of `s` for a C string, as `CString::new(s)` holds them without its
/// terminating NUL; `None` where `s` holds a NUL byte.
pub fn c_string_of(s: &str) -> (r: Option<Vec<u8>>)
    ensures
        r is Some <==> c_string_bytes(s@) is Some,
        r matches Some(b) ==> c_string_bytes(s@) == Some(b@),
{
    let bytes = s.as_bytes();
    let n = bytes.len();
    let mut out: Vec<u8> = Vec::new();
    let mut i: usize = 0;
    while i < n
        invariant
            n == bytes@.len(),
            bytes@ == vstd::utf8::encode_utf8(s@),
            i <= n,
            out@ == bytes@.take(i as int),
            forall|k: int| 0 <= k < i ==> bytes@[k] != 0u8,
        decreases n - i,
    {
        if bytes[i] == 0 {
            assert(bytes@.contains(0u8)) by {
                assert(bytes@[i as int] == 0u8);
            }
            return None;
        }
        out.push(bytes[i]);
        assert(out@ =~= bytes@.take(i + 1));
        i = i + 1;
    }
    assert(out@ =~= bytes@);
    assert(!bytes@.contains(0u8));
    Some(out)
}

/// How many bytes of a string of `len` bytes a C-string copy into a buffer of
/// `capacity` bytes keeps: all of them, or as many as leave room for the NUL.
pub open spec fn c_copy_len(len: int, capacity: int) -> int {
    if len < capacity - 1 {
        len
    } else {
        capacity - 1
    }
}

/// What a C-string copy of `bytes` writes into a buffer of `capacity` bytes: the
/// bytes it keeps, then a NUL.
pub open spec fn c_copy(bytes: Seq<u8>, capacity: int) -> Seq<u8> {
    bytes.take(c_copy_len(bytes.len() as int, capacity)).push(0u8)
}

/// Copies `bytes` as a C string into a buffer of `capacity` bytes: returns what is
/// written (the kept bytes and a NUL) and the number of bytes kept.
pub fn copy_c_string(bytes: &Vec<u8>, capacity: usize) -> (r: (Vec<u8>, usize))
    requires
        capacity > 0,
    ensures
        r.1 as int == c_copy_len(bytes@.len() as int, capacity as int),
        r.0@ == c_copy(bytes@, capacity as int),
{
    let keep = if bytes.len() < capacity - 1 {
        bytes.len()
    } else {
        capacity - 1
    };
    let mut out = bytes.clone();
    assert(out@ == bytes@);
    out.truncate(keep);
    out.push(0u8);
    (out, keep)
}

/// A C-string copy always ends in NUL, never writes past the buffer, keeps a
/// prefix of the string, and keeps all of it when the string and its NUL fit.
pub proof fn lemma_c_copy(bytes: Seq<u8>, capacity: int)
    requires
        capacity > 0,
    ensures
        c_copy(bytes, capacity).last() == 0u8,
        c_copy(bytes, capacity).len() <= capacity,
        c_copy(bytes, capacity).len() == c_copy_len(bytes.len() as int, capacity) + 1,
        c_copy(bytes, capacity).drop_last() == bytes.take(c_copy_len(bytes.len() as int, capacity)),
        bytes.len() < capacity ==> c_copy(bytes, capacity).drop_last() == bytes,
{
    assert(c_copy(bytes, capacity).drop_last() =~= bytes.take(c_copy_len(bytes.len() as int, capacity)));
    if bytes.len() < capacity {
        assert(bytes.take(bytes.len() as int) =~= bytes);
    }
}

/// The characters of a string, in order.
pub fn chars_of(s: &str) -> (r: Vec<char>)
    ensures
        r@ == s@,
{
    broadcast use vstd::string::axiom_spec_iter;

    let mut out: Vec<char> = Vec::new();
    assert(s@.take(0) =~= seq![]);
    assert(s@.take(s@.len() as int) =~= s@);
    for c in it: s.chars()
        invariant
            it.seq() == s@,
            out@ == s@.take(it.index() as int),
    {
        out.push(c);
        proof {
            assert(out@ =~= s@.take(it.index() + 1));
        }
    }
    out
}

/// The string made of the characters `chars[start..end]`.
pub fn string_of(chars: &Vec<char>, start: usize, end: usize) -> (r: String)
    requires
        start <= end <= chars@.len(),
    ensures
        r@ == chars@.subrange(start as int, end as int),
{
    let mut out = String::new();
    let mut i = start;
    while i < end
        invariant
            start <= i <= end <= chars@.len(),
            out@ == chars@.subrange(start as int, i as int),
        decreases end - i,
    {
        push_char(&mut out, chars[i]);
        assert(out@ =~= chars@.subrange(start as int, i + 1));
        i = i + 1;
    }
    out
}

/// Whether `c` is white space in the sense of Unicode's `White_Space` property,
/// which `char::is_whitespace` follows.
pub open spec fn is_unicode_whitespace(c: char) -> bool {
    let v = c as int;
    ||| 0x09 <= v <= 0x0D
    ||| v == 0x20
    ||| v == 0x85
    ||| v == 0xA0
    ||| v == 0x1680
    ||| 0x2000 <= v <= 0x200A
    ||| v == 0x2028
    ||| v == 0x2029
    ||| v == 0x202F
    ||| v == 0x205F
    ||| v == 0x3000
}

/// Returns whether `c` is Unicode white space, as `char::is_whitespace` does.
pub fn is_whitespace(c: char) -> (r: bool)
    ensures
        r == is_unicode_whitespace(c),
{
    let v = char_number(c);
    (0x09 <= v && v <= 0x0D) || v == 0x20 || v == 0x85 || v == 0xA0 || v == 0x1680 || (0x2000 <= v
        && v <= 0x200A) || v == 0x2028 || v == 0x2029 || v == 0x202F || v == 0x205F || v == 0x3000
}

/// `t` without its leading white space.
pub open spec fn trim_start(t: Seq<char>) -> Seq<char>
    decreases t.len(),
{
    if t.len() > 0 && is_unicode_whitespace(t[0]) {
        trim_start(t.skip(1))
    } else {
        t
    }
}

/// `t` without its trailing white space.
pub open spec fn trim_end(t: Seq<char>) -> Seq<char>
    decreases t.len(),
{
    if t.len() > 0 && is_unicode_whitespace(t.last()) {
        trim_end(t.drop_last())
    } else {
        t
    }
}

/// `t` without white space at either end, as `str::trim` gives it.
pub open spec fn trim(t: Seq<char>) -> Seq<char> {
    trim_end(trim_start(t))
}

/// The bounds `[a, b)` within `[start, end)` of `chars[start..end]` trimmed.
pub fn trim_bounds(chars: &Vec<char>, start: usize, end: usize) -> (r: (usize, usize))
    requires
        start <= end <= chars@.len(),
    ensures
        start <= r.0 <= r.1 <= end,
        chars@.subrange(r.0 as int, r.1 as int) == trim(chars@.subrange(start as int, end as int)),
{
    let ghost whole = chars@.subrange(start as int, end as int);
    let mut a = start;
    while a < end && is_whitespace(chars[a])
        invariant
            start <= a <= end <= chars@.len(),
            trim_start(whole) == trim_start(chars@.subrange(a as int, end as int)),
        decreases end - a,
    {
        proof {
            let t = chars@.subrange(a as int, end as int);
            assert(t.skip(1) =~= chars@.subrange(a + 1, end as int));
        }
        a = a + 1;
    }
    proof {
        let t = chars@.subrange(a as int, end as int);
        if a < end {
            assert(t[0] == chars@[a as int]);
        }
    }
    let mut b = end;
    while b > a && is_whitespace(chars[b - 1])
        invariant
            start <= a <= b <= end <= chars@.len(),
            trim(whole) == trim_end(chars@.subrange(a as int, b as int)),
        decreases b - a,
    {
        proof {
            let t = chars@.subrange(a as int, b as int);
            assert(t.drop_last() =~= chars@.subrange(a as int, b - 1));
        }
        b = b - 1;
    }
    proof {
        let t = chars@.subrange(a as int, b as int);
        if b > a {
            assert(t.last() == chars@[b - 1]);
        }
    }
    (a, b)
}

} // verus!
