//! Building blocks for the wire format: JSON string escaping, decimal
//! rendering of integers, boolean keywords, and comma-separated joining.
//! Every exec function is proved to append exactly the text that the
//! corresponding spec function describes.

use vstd::prelude::*;
use vstd::string::*;

verus! {

/// Appends one character to the output buffer.
///
/// Relies on `String::push`, which the standard library documents as
/// appending the given `char` to the end of the `String`.
#[verifier::external_body]
pub(crate) fn push_char(out: &mut String, c: char)
    ensures
        final(out)@ == old(out)@ + seq![c],
{
    out.push(c);
}

/// The sixteen lowercase hexadecimal digit characters.
pub open spec fn hex_digit(d: int) -> char {
    if d == 0 { '0' }
    else if d == 1 { '1' }
    else if d == 2 { '2' }
    else if d == 3 { '3' }
    else if d == 4 { '4' }
    else if d == 5 { '5' }
    else if d == 6 { '6' }
    else if d == 7 { '7' }
    else if d == 8 { '8' }
    else if d == 9 { '9' }
    else if d == 10 { 'a' }
    else if d == 11 { 'b' }
    else if d == 12 { 'c' }
    else if d == 13 { 'd' }
    else if d == 14 { 'e' }
    else { 'f' }
}

/// How a single character appears inside a JSON string literal: quotes and
/// backslashes get a backslash escape, the common control characters use
/// their short names, the remaining control characters use `\u00XX`, and
/// every other character stands for itself.
pub open spec fn escaped_char(c: char) -> Seq<char> {
    if c == '"' { seq!['\\', '"'] }
    else if c == '\\' { seq!['\\', '\\'] }
    else if c == '\u{08}' { seq!['\\', 'b'] }
    else if c == '\u{09}' { seq!['\\', 't'] }
    else if c == '\u{0a}' { seq!['\\', 'n'] }
    else if c == '\u{0c}' { seq!['\\', 'f'] }
    else if c == '\u{0d}' { seq!['\\', 'r'] }
    else if (c as u32) < 0x20 {
        seq!['\\', 'u', '0', '0', hex_digit(c as u32 as int / 16), hex_digit(c as u32 as int % 16)]
    } else {
        seq![c]
    }
}

/// A whole character sequence with every character escaped.
pub open spec fn escaped(s: Seq<char>) -> Seq<char>
    decreases s.len(),
{
    if s.len() == 0 {
        Seq::empty()
    } else {
        escaped(s.drop_last()) + escaped_char(s.last())
    }
}

/// A JSON string literal: the escaped contents between double quotes.
pub open spec fn quoted(s: Seq<char>) -> Seq<char> {
    seq!['"'] + escaped(s) + seq!['"']
}

/// Appends the lowercase hexadecimal digit for `d`.
fn push_hex_digit(out: &mut String, d: u32)
    requires
        d < 16,
    ensures
        final(out)@ == old(out)@ + seq![hex_digit(d as int)],
{
    let c: char = match d {
        0 => '0',
        1 => '1',
        2 => '2',
        3 => '3',
        4 => '4',
        5 => '5',
        6 => '6',
        7 => '7',
        8 => '8',
        9 => '9',
        10 => 'a',
        11 => 'b',
        12 => 'c',
        13 => 'd',
        14 => 'e',
        _ => 'f',
    };
    push_char(out, c);
}

/// Appends one character in its escaped form.
fn push_escaped_char(out: &mut String, c: char)
    ensures
        final(out)@ == old(out)@ + escaped_char(c),
{
    if c == '"' {
        out.append("\\\"");
        proof {
            reveal_strlit("\\\"");
            assert(out@ =~= old(out)@ + escaped_char(c));
        }
    } else if c == '\\' {
        out.append("\\\\");
        proof {
            reveal_strlit("\\\\");
            assert(out@ =~= old(out)@ + escaped_char(c));
        }
    } else if c == '\u{08}' {
        out.append("\\b");
        proof {
            reveal_strlit("\\b");
            assert(out@ =~= old(out)@ + escaped_char(c));
        }
    } else if c == '\u{09}' {
        out.append("\\t");
        proof {
            reveal_strlit("\\t");
            assert(out@ =~= old(out)@ + escaped_char(c));
        }
    } else if c == '\u{0a}' {
        out.append("\\n");
        proof {
            reveal_strlit("\\n");
            assert(out@ =~= old(out)@ + escaped_char(c));
        }
    } else if c == '\u{0c}' {
        out.append("\\f");
        proof {
            reveal_strlit("\\f");
            assert(out@ =~= old(out)@ + escaped_char(c));
        }
    } else if c == '\u{0d}' {
        out.append("\\r");
        proof {
            reveal_strlit("\\r");
            assert(out@ =~= old(out)@ + escaped_char(c));
        }
    } else if (c as u32) < 0x20 {
        out.append("\\u00");
        let code = c as u32;
        push_hex_digit(out, code / 16);
        push_hex_digit(out, code % 16);
        proof {
            reveal_strlit("\\u00");
            assert(out@ =~= old(out)@ + escaped_char(c));
        }
    } else {
        push_char(out, c);
    }
}

/// Appends `s` as a JSON string literal, quotes and escapes included.
pub(crate) fn push_quoted(out: &mut String, s: &str)
    ensures
        final(out)@ == old(out)@ + quoted(s@),
{
    push_char(out, '"');
    let n = s.unicode_len();
    let mut i: usize = 0;
    while i < n
        invariant
            n == s@.len(),
            i <= n,
            out@ == old(out)@ + seq!['"'] + escaped(s@.subrange(0, i as int)),
        decreases n - i,
    {
        let c = s.get_char(i);
        push_escaped_char(out, c);
        proof {
            assert(s@.subrange(0, i + 1).drop_last() =~= s@.subrange(0, i as int));
            assert(s@.subrange(0, i + 1).last() == c);
        }
        i = i + 1;
    }
    push_char(out, '"');
    proof {
        assert(s@.subrange(0, n as int) =~= s@);
        assert(out@ =~= old(out)@ + quoted(s@));
    }
}

/// The decimal digit characters.
pub open spec fn dec_digit(d: int) -> char {
    hex_digit(d)
}

/// The decimal rendering of a natural number, most significant digit first.
pub open spec fn decimal(n: nat) -> Seq<char>
    decreases n,
{
    if n < 10 {
        seq![dec_digit(n as int)]
    } else {
        decimal(n / 10) + seq![dec_digit(n as int % 10)]
    }
}

/// Appends the decimal rendering of `n`.
pub(crate) fn push_decimal(out: &mut String, n: u128)
    ensures
        final(out)@ == old(out)@ + decimal(n as nat),
    decreases n,
{
    if n >= 10 {
        push_decimal(out, n / 10);
    }
    let d: u32 = (n % 10) as u32;
    push_hex_digit(out, d);
    proof {
        if n < 10 {
            assert(out@ =~= old(out)@ + decimal(n as nat));
        } else {
            assert(out@ =~= old(out)@ + decimal(n as nat));
        }
    }
}

/// The JSON keyword for a boolean.
pub open spec fn bool_text(b: bool) -> Seq<char> {
    if b {
        "true"@
    } else {
        "false"@
    }
}

/// Appends `true` or `false`.
pub(crate) fn push_bool(out: &mut String, b: bool)
    ensures
        final(out)@ == old(out)@ + bool_text(b),
{
    if b {
        out.append("true");
    } else {
        out.append("false");
    }
}

/// A JSON object with one string-valued field.
pub open spec fn obj_str(key: Seq<char>, v: Seq<char>) -> Seq<char> {
    seq!['{', '"'] + key + "\":"@ + quoted(v) + seq!['}']
}

/// A JSON object with one boolean field.
pub open spec fn obj_bool(key: Seq<char>, v: bool) -> Seq<char> {
    seq!['{', '"'] + key + "\":"@ + bool_text(v) + seq!['}']
}

/// A JSON object with one unsigned-number field.
pub open spec fn obj_num(key: Seq<char>, v: nat) -> Seq<char> {
    seq!['{', '"'] + key + "\":"@ + decimal(v) + seq!['}']
}

/// A JSON object with one field whose value is itself JSON text.
pub open spec fn obj_raw(key: Seq<char>, v: Seq<char>) -> Seq<char> {
    seq!['{', '"'] + key + "\":"@ + v + seq!['}']
}

/// Appends `{"<key>":"<v, escaped>"}`.
pub(crate) fn push_obj_str(out: &mut String, key: &str, v: &str)
    ensures
        final(out)@ == old(out)@ + obj_str(key@, v@),
{
    push_char(out, '{');
    push_char(out, '"');
    out.append(key);
    out.append("\":");
    push_quoted(out, v);
    push_char(out, '}');
    proof {
        assert(out@ =~= old(out)@ + obj_str(key@, v@));
    }
}

/// Appends `{"<key>":true}` or `{"<key>":false}`.
pub(crate) fn push_obj_bool(out: &mut String, key: &str, v: bool)
    ensures
        final(out)@ == old(out)@ + obj_bool(key@, v),
{
    push_char(out, '{');
    push_char(out, '"');
    out.append(key);
    out.append("\":");
    push_bool(out, v);
    push_char(out, '}');
    proof {
        assert(out@ =~= old(out)@ + obj_bool(key@, v));
    }
}

/// Appends `{"<key>":<v>}` with `v` in decimal.
pub(crate) fn push_obj_num(out: &mut String, key: &str, v: u128)
    ensures
        final(out)@ == old(out)@ + obj_num(key@, v as nat),
{
    push_char(out, '{');
    push_char(out, '"');
    out.append(key);
    out.append("\":");
    push_decimal(out, v);
    push_char(out, '}');
    proof {
        assert(out@ =~= old(out)@ + obj_num(key@, v as nat));
    }
}

/// A sequence of parts joined with `", "`, the separator used when a
/// property holds several display values.
pub open spec fn joined(parts: Seq<Seq<char>>, from: int) -> Seq<char>
    decreases parts.len() - from,
{
    if from < 0 || from >= parts.len() {
        Seq::empty()
    } else if from == parts.len() - 1 {
        parts[from]
    } else {
        parts[from] + ", "@ + joined(parts, from + 1)
    }
}

/// The views of a sequence of strings.
pub open spec fn string_views(ss: Seq<String>) -> Seq<Seq<char>> {
    Seq::new(ss.len(), |i: int| ss[i]@)
}

/// Appends the entries of `values` from position `from` on, separated by
/// `", "`.
fn push_join(values: &Vec<String>, from: usize, out: &mut String)
    ensures
        final(out)@ == old(out)@ + joined(string_views(values@), from as int),
    decreases values@.len() - from,
{
    if from < values.len() {
        out.append(values[from].as_str());
        if from + 1 < values.len() {
            out.append(", ");
            push_join(values, from + 1, out);
        }
        proof {
            assert(out@ =~= old(out)@ + joined(string_views(values@), from as int));
        }
    }
}

/// The entries of `values` joined with `", "`.
pub(crate) fn join_comma(values: &Vec<String>) -> (r: String)
    ensures
        r@ == joined(string_views(values@), 0),
{
    let mut out = String::new();
    push_join(values, 0, &mut out);
    out
}

} // verus!
