//! Outbound wire text: the JSON object a command becomes.
//!
//! A command is sent as `{"id":N,"method":M,"params":P,"sessionId"?:S}`.
//! The id is written in decimal, method and session id are JSON-escaped
//! strings, and the params text is embedded as it was given (the caller
//! serializes its own params object).

use vstd::prelude::*;

use crate::text::{chars_to_string, to_char_vec};

verus! {

broadcast use vstd::utf8::char_is_scalar;

/// The decimal digit character for a value below ten.
pub open spec fn spec_digit(d: u64) -> char {
    ((d + 48) as u8) as char
}

/// The decimal digits of `n`, most significant first.
pub open spec fn spec_dec_digits(n: u64) -> Seq<char>
    decreases n,
{
    if n < 10 {
        seq![spec_digit(n)]
    } else {
        spec_dec_digits(n / 10) + seq![spec_digit(n % 10)]
    }
}

/// The decimal text of a signed 32-bit value.
pub open spec fn spec_dec_i32(n: i32) -> Seq<char> {
    if n >= 0 {
        spec_dec_digits(n as u64)
    } else {
        seq!['-'] + spec_dec_digits((-(n as int)) as u64)
    }
}

/// Append the decimal text of a signed 32-bit value.
pub fn push_dec_i32(n: i32, out: &mut Vec<char>)
    ensures
        final(out)@ == old(out)@ + spec_dec_i32(n),
{
    if n >= 0 {
        push_dec_digits(n as u64, out);
    } else {
        out.push('-');
        push_dec_digits((-(n as i64)) as u64, out);
    }
}

/// The JSON text of a boolean.
pub open spec fn spec_bool_text(b: bool) -> Seq<char> {
    if b {
        "true"@
    } else {
        "false"@
    }
}

/// Append the JSON text of a boolean.
pub fn push_bool_text(b: bool, out: &mut Vec<char>)
    ensures
        final(out)@ == old(out)@ + spec_bool_text(b),
{
    if b {
        push_str_chars("true", out);
    } else {
        push_str_chars("false", out);
    }
}

/// The lower-case hexadecimal digit for a value below sixteen.
pub open spec fn spec_hex_digit(d: u32) -> char {
    if d < 10 {
        ((48 + d) as u8) as char
    } else {
        ((87 + d) as u8) as char
    }
}

/// How one character is written inside a JSON string literal: the quote
/// and the backslash are escaped, the five named control characters get
/// their short escapes, every other control character below 0x20 is
/// written as `\u00xx`, and everything else stands as itself.
pub open spec fn spec_json_escape_char(c: char) -> Seq<char> {
    if c == '"' {
        seq!['\\', '"']
    } else if c == '\\' {
        seq!['\\', '\\']
    } else if c == '\u{8}' {
        seq!['\\', 'b']
    } else if c == '\t' {
        seq!['\\', 't']
    } else if c == '\n' {
        seq!['\\', 'n']
    } else if c == '\u{c}' {
        seq!['\\', 'f']
    } else if c == '\r' {
        seq!['\\', 'r']
    } else if (c as u32) < 32 {
        seq!['\\', 'u', '0', '0', spec_hex_digit((c as u32) / 16), spec_hex_digit(
            (c as u32) % 16,
        )]
    } else {
        seq![c]
    }
}

/// The lower-case hexadecimal digit for a value below sixteen.
fn hex_digit(d: u32) -> (r: char)
    requires
        d < 16,
    ensures
        r == spec_hex_digit(d),
{
    if d < 10 {
        ((48 + d) as u8) as char
    } else {
        ((87 + d) as u8) as char
    }
}

/// A whole string written inside a JSON string literal.
pub open spec fn spec_json_escape(s: Seq<char>) -> Seq<char>
    decreases s.len(),
{
    if s.len() == 0 {
        Seq::empty()
    } else {
        spec_json_escape(s.drop_last()) + spec_json_escape_char(s.last())
    }
}

/// The full command object: id, method, params, and the session id when
/// the command is stamped for a session.
pub open spec fn spec_command_json(
    id: u64,
    method: Seq<char>,
    params: Seq<char>,
    session_id: Option<Seq<char>>,
) -> Seq<char> {
    "{\"id\":"@ + spec_dec_digits(id) + ",\"method\":\""@ + spec_json_escape(method)
        + "\",\"params\":"@ + params + (match session_id {
        Option::None => Seq::empty(),
        Option::Some(s) => ",\"sessionId\":\""@ + spec_json_escape(s) + "\""@,
    }) + "}"@
}

/// Append the decimal digits of `n`.
pub fn push_dec_digits(n: u64, out: &mut Vec<char>)
    ensures
        final(out)@ == old(out)@ + spec_dec_digits(n),
    decreases n,
{
    if n < 10 {
        out.push(((n as u8) + 48) as char);
    } else {
        push_dec_digits(n / 10, out);
        out.push((((n % 10) as u8) + 48) as char);
    }
}

/// Append `s` as it reads inside a JSON string literal.
pub fn push_json_escaped(s: &str, out: &mut Vec<char>)
    ensures
        final(out)@ == old(out)@ + spec_json_escape(s@),
{
    let chars = to_char_vec(s);
    let n = chars.len();
    let mut i: usize = 0;
    while i < n
        invariant
            chars@ == s@,
            n == chars@.len(),
            i <= n,
            out@ == old(out)@ + spec_json_escape(s@.subrange(0, i as int)),
        decreases n - i,
    {
        let c = chars[i];
        assert(s@.subrange(0, i + 1).drop_last() =~= s@.subrange(0, i as int));
        assert(s@.subrange(0, i + 1).last() == s@[i as int]);
        if c == '"' {
            out.push('\\');
            out.push('"');
        } else if c == '\\' {
            out.push('\\');
            out.push('\\');
        } else if c == '\u{8}' {
            out.push('\\');
            out.push('b');
        } else if c == '\t' {
            out.push('\\');
            out.push('t');
        } else if c == '\n' {
            out.push('\\');
            out.push('n');
        } else if c == '\u{c}' {
            out.push('\\');
            out.push('f');
        } else if c == '\r' {
            out.push('\\');
            out.push('r');
        } else if (c as u32) < 32 {
            out.push('\\');
            out.push('u');
            out.push('0');
            out.push('0');
            out.push(hex_digit((c as u32) / 16));
            out.push(hex_digit((c as u32) % 16));
        } else {
            out.push(c);
        }
        i += 1;
    }
    assert(s@.subrange(0, n as int) =~= s@);
}

/// Append every character of a string slice.
pub fn push_str_chars(s: &str, out: &mut Vec<char>)
    ensures
        final(out)@ == old(out)@ + s@,
{
    let chars = to_char_vec(s);
    let n = chars.len();
    let mut i: usize = 0;
    while i < n
        invariant
            chars@ == s@,
            n == chars@.len(),
            i <= n,
            out@ == old(out)@ + s@.subrange(0, i as int),
        decreases n - i,
    {
        out.push(chars[i]);
        assert(s@.subrange(0, i + 1) =~= s@.subrange(0, i as int) + seq![s@[i as int]]);
        i += 1;
    }
    assert(s@.subrange(0, n as int) =~= s@);
}

/// Build the outbound JSON text for one command.
pub fn build_command_json(
    id: u64,
    method: &str,
    params_json: &str,
    session_id: Option<&str>,
) -> (r: String)
    ensures
        r@ == spec_command_json(
            id,
            method@,
            params_json@,
            match session_id {
                Option::None => Option::None,
                Option::Some(s) => Option::Some(s@),
            },
        ),
{
    let mut out: Vec<char> = Vec::new();
    push_str_chars("{\"id\":", &mut out);
    push_dec_digits(id, &mut out);
    push_str_chars(",\"method\":\"", &mut out);
    push_json_escaped(method, &mut out);
    push_str_chars("\",\"params\":", &mut out);
    push_str_chars(params_json, &mut out);
    match session_id {
        Option::None => {},
        Option::Some(s) => {
            push_str_chars(",\"sessionId\":\"", &mut out);
            push_json_escaped(s, &mut out);
            push_str_chars("\"", &mut out);
        },
    }
    push_str_chars("}", &mut out);
    let r = chars_to_string(&out);
    proof {
        assert(r@ =~= spec_command_json(
            id,
            method@,
            params_json@,
            match session_id {
                Option::None => Option::None,
                Option::Some(s) => Option::Some(s@),
            },
        ));
    }
    r
}

} // verus!
