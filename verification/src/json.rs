//! A verified JSON emitter for the fixed shapes the coordinator writes: the
//! request file handed to the UI, the structured reply a UI sends back, and
//! the durable pending record.  String escaping follows the JSON grammar:
//! quote, backslash, and the named control characters get a short escape,
//! the remaining control characters a `\u00XX` escape.

use vstd::prelude::*;

use crate::text::{chars_of, join_with, string_of};

verus! {

/// The lower-case hexadecimal digit for a value below sixteen.
pub open spec fn hex_digit(d: int) -> char {
    if d < 10 {
        ((d + 0x30) as u8) as char
    } else {
        ((d - 10 + 0x61) as u8) as char
    }
}

/// The escape sequence a character renders as inside a JSON string.
pub open spec fn json_escape_char(c: char) -> Seq<char> {
    if c == '"' {
        seq!['\\', '"']
    } else if c == '\\' {
        seq!['\\', '\\']
    } else if c == '\u{8}' {
        seq!['\\', 'b']
    } else if c == '\u{c}' {
        seq!['\\', 'f']
    } else if c == '\n' {
        seq!['\\', 'n']
    } else if c == '\r' {
        seq!['\\', 'r']
    } else if c == '\t' {
        seq!['\\', 't']
    } else if (c as u32) < 0x20 {
        seq!['\\', 'u', '0', '0', hex_digit((c as u32) as int / 16), hex_digit(
            (c as u32) as int % 16,
        )]
    } else {
        seq![c]
    }
}

/// A character sequence escaped for use inside a JSON string literal.
pub open spec fn json_escaped(s: Seq<char>) -> Seq<char>
    decreases s.len(),
{
    if s.len() == 0 {
        Seq::empty()
    } else {
        json_escaped(s.drop_last()) + json_escape_char(s.last())
    }
}

/// A character sequence as a JSON string literal, quotes included.
pub open spec fn json_quoted(s: Seq<char>) -> Seq<char> {
    seq!['"'] + json_escaped(s) + seq!['"']
}

/// An optional string as JSON: the quoted string, or `null`.
pub open spec fn json_opt_str(s: Option<Seq<char>>) -> Seq<char> {
    match s {
        Some(v) => json_quoted(v),
        None => "null"@,
    }
}

/// A list of strings as a JSON array.
pub open spec fn json_str_array(items: Seq<Seq<char>>) -> Seq<char> {
    "["@ + join_with(items.map_values(|s: Seq<char>| json_quoted(s)), ","@) + "]"@
}

/// A boolean as JSON.
pub open spec fn json_bool(b: bool) -> Seq<char> {
    if b {
        "true"@
    } else {
        "false"@
    }
}

fn push_hex_digit(out: &mut Vec<char>, d: u32)
    requires
        d < 16,
    ensures
        final(out)@ == old(out)@.push(hex_digit(d as int)),
{
    if d < 10 {
        out.push(((d as u8) + 0x30) as char);
    } else {
        out.push(((d as u8) - 10 + 0x61) as char);
    }
}

/// Escapes a string for use inside a JSON string literal.
pub fn escape_json(s: &str) -> (r: String)
    ensures
        r@ == json_escaped(s@),
{
    let v = chars_of(s);
    let n = v.len();
    let mut out: Vec<char> = Vec::new();
    let mut i: usize = 0;
    while i < n
        invariant
            n == v@.len(),
            v@ == s@,
            i <= n,
            out@ == json_escaped(s@.take(i as int)),
        decreases n - i,
    {
        let c = v[i];
        let ghost pre = out@;
        if c == '"' {
            out.push('\\');
            out.push('"');
        } else if c == '\\' {
            out.push('\\');
            out.push('\\');
        } else if c == '\u{8}' {
            out.push('\\');
            out.push('b');
        } else if c == '\u{c}' {
            out.push('\\');
            out.push('f');
        } else if c == '\n' {
            out.push('\\');
            out.push('n');
        } else if c == '\r' {
            out.push('\\');
            out.push('r');
        } else if c == '\t' {
            out.push('\\');
            out.push('t');
        } else if (c as u32) < 0x20 {
            let code = c as u32;
            out.push('\\');
            out.push('u');
            out.push('0');
            out.push('0');
            push_hex_digit(&mut out, code / 16);
            push_hex_digit(&mut out, code % 16);
        } else {
            out.push(c);
        }
        proof {
            assert(out@ =~= pre + json_escape_char(s@[i as int]));
            assert(s@.take(i + 1).drop_last() =~= s@.take(i as int));
            assert(s@.take(i + 1).last() == s@[i as int]);
        }
        i += 1;
    }
    proof {
        assert(s@.take(n as int) =~= s@);
    }
    string_of(&out)
}

/// Renders a string as a JSON string literal, quotes included.
pub fn quote_json(s: &str) -> (r: String)
    ensures
        r@ == json_quoted(s@),
{
    let mut out = String::from_str("\"");
    let escaped = escape_json(s);
    out.append(escaped.as_str());
    out.append("\"");
    proof {
        reveal_strlit("\"");
        assert(out@ =~= json_quoted(s@));
    }
    out
}

/// Renders an optional string as JSON.
pub fn quote_json_opt(s: &Option<String>) -> (r: String)
    ensures
        r@ == json_opt_str(match s {
            Some(v) => Some(v@),
            None => None,
        }),
{
    match s {
        Some(v) => quote_json(v.as_str()),
        None => String::from_str("null"),
    }
}

/// Renders a list of strings as a JSON array.
pub fn json_string_array(items: &Vec<String>) -> (r: String)
    ensures
        r@ == json_str_array(crate::text::seq_views(items@)),
{
    let mut quoted: Vec<String> = Vec::new();
    let n = items.len();
    let mut i: usize = 0;
    while i < n
        invariant
            n == items@.len(),
            i <= n,
            crate::text::seq_views(quoted@) == crate::text::seq_views(items@).take(
                i as int,
            ).map_values(|s: Seq<char>| json_quoted(s)),
        decreases n - i,
    {
        let ghost pre = crate::text::seq_views(quoted@);
        quoted.push(quote_json(items[i].as_str()));
        proof {
            assert(crate::text::seq_views(quoted@) =~= pre.push(json_quoted(items@[i as int]@)));
            assert(crate::text::seq_views(items@).take(i + 1).map_values(
                |s: Seq<char>| json_quoted(s),
            ) =~= pre.push(json_quoted(items@[i as int]@)));
        }
        i += 1;
    }
    proof {
        assert(crate::text::seq_views(items@).take(n as int) =~= crate::text::seq_views(items@));
    }
    let mut out = String::from_str("[");
    let joined = crate::text::join_strings(&quoted, ",");
    out.append(joined.as_str());
    out.append("]");
    proof {
        assert(out@ =~= json_str_array(crate::text::seq_views(items@)));
    }
    out
}

} // verus!
