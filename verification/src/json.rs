//! Rendering of JSON text fragments: string escaping and quoting exactly as
//! the result envelopes need them, and decimal rendering of signed integers.
//! The escaping follows the JSON rules for control characters, quotes and
//! backslashes; all other characters pass through unchanged.

use vstd::prelude::*;
use crate::text::{dec_digits, string_of_chars};

verus! {

/// The character for one hexadecimal digit, lower case.
pub open spec fn hex_digit_char(d: nat) -> char {
    if d < 10 {
        (48 + d) as char
    } else {
        (87 + d) as char
    }
}

/// How one character appears inside a JSON string literal.
pub open spec fn json_escape_char(c: char) -> Seq<char> {
    if c == '"' {
        seq!['\\', '"']
    } else if c == '\\' {
        seq!['\\', '\\']
    } else if c == '\u{8}' {
        seq!['\\', 'b']
    } else if c == '\t' {
        seq!['\\', 't']
    } else if c == '\n' {
        seq!['\\', 'n']
    } else if c == '\u{c}' {
        seq!['\\', 'f']
    } else if c == '\r' {
        seq!['\\', 'r']
    } else if (c as int) < 32 {
        seq!['\\', 'u', '0', '0', hex_digit_char((c as nat) / 16), hex_digit_char((c as nat) % 16)]
    } else {
        seq![c]
    }
}

/// The body of a JSON string literal holding the characters of `s`.
pub open spec fn json_escaped(s: Seq<char>) -> Seq<char>
    decreases s.len(),
{
    if s.len() == 0 {
        Seq::empty()
    } else {
        json_escape_char(s[0]) + json_escaped(s.drop_first())
    }
}

/// The JSON string literal holding the characters of `s`, quotes included.
pub open spec fn json_quoted(s: Seq<char>) -> Seq<char> {
    seq!['"'] + json_escaped(s) + seq!['"']
}

fn hex_digit_exec(d: u32) -> (c: char)
    requires
        d < 16,
    ensures
        c == hex_digit_char(d as nat),
{
    if d < 10 {
        (48 + d as u8) as char
    } else {
        (87 + d as u8) as char
    }
}

fn push_escaped(out: &mut Vec<char>, c: char)
    ensures
        final(out)@ == old(out)@ + json_escape_char(c),
{
    if c == '"' {
        out.push('\\');
        out.push('"');
    } else if c == '\\' {
        out.push('\\');
        out.push('\\');
    } else if c == '\u{8}' {
        out.push('\\');
        out.push('b');
    } else if c == '\t' {
        out.push('\\');
        out.push('t');
    } else if c == '\n' {
        out.push('\\');
        out.push('n');
    } else if c == '\u{c}' {
        out.push('\\');
        out.push('f');
    } else if c == '\r' {
        out.push('\\');
        out.push('r');
    } else if (c as u32) < 32 {
        out.push('\\');
        out.push('u');
        out.push('0');
        out.push('0');
        out.push(hex_digit_exec((c as u32) / 16));
        out.push(hex_digit_exec((c as u32) % 16));
    } else {
        out.push(c);
    }
    proof {
        assert(final(out)@ =~= old(out)@ + json_escape_char(c));
    }
}

/// The characters of `s`, escaped for use inside a JSON string literal.
pub fn escape_chars(s: &Vec<char>) -> (out: Vec<char>)
    ensures
        out@ == json_escaped(s@),
{
    let mut out: Vec<char> = Vec::new();
    let mut i: usize = 0;
    proof {
        assert(s@.skip(0) =~= s@);
        assert(out@ + json_escaped(s@) =~= json_escaped(s@));
    }
    while i < s.len()
        invariant
            i <= s@.len(),
            out@ + json_escaped(s@.skip(i as int)) == json_escaped(s@),
        decreases s@.len() - i,
    {
        proof {
            assert(s@.skip(i as int).len() > 0);
            assert(s@.skip(i as int)[0] == s@[i as int]);
            assert(s@.skip(i as int).drop_first() =~= s@.skip(i + 1));
        }
        push_escaped(&mut out, s[i]);
        i = i + 1;
    }
    proof {
        assert(s@.skip(s@.len() as int) =~= Seq::<char>::empty());
        assert(out@ =~= out@ + json_escaped(s@.skip(s@.len() as int)));
    }
    out
}

/// The JSON string literal for `s`: quoted and escaped.
pub fn json_quote(s: &str) -> (r: String)
    ensures
        r@ == json_quoted(s@),
{
    let chars = crate::text::chars_of(s);
    let escaped = escape_chars(&chars);
    let mut out: Vec<char> = Vec::new();
    out.push('"');
    let mut i: usize = 0;
    while i < escaped.len()
        invariant
            i <= escaped@.len(),
            out@ == seq!['"'] + escaped@.subrange(0, i as int),
        decreases escaped@.len() - i,
    {
        out.push(escaped[i]);
        proof {
            assert(out@ =~= seq!['"'] + escaped@.subrange(0, i + 1));
        }
        i = i + 1;
    }
    out.push('"');
    proof {
        assert(escaped@.subrange(0, escaped@.len() as int) =~= escaped@);
        assert(out@ =~= json_quoted(s@));
    }
    string_of_chars(&out)
}

/// Decimal rendering of a signed integer: a minus sign for negative values,
/// then the digits, no padding.
pub open spec fn dec_int(n: int) -> Seq<char> {
    if n < 0 {
        seq!['-'] + dec_digits((-n) as nat)
    } else {
        dec_digits(n as nat)
    }
}

/// Renders an `i64` in decimal.
pub fn i64_to_decimal(n: i64) -> (s: String)
    ensures
        s@ == dec_int(n as int),
{
    if n >= 0 {
        let s = crate::text::u64_to_decimal(n as u64);
        s
    } else {
        // Negate via a widening-safe path: -(n + 1) fits in i64 even for the
        // smallest value, then add the 1 back as a u64.
        let mag: u64 = (-(n + 1)) as u64 + 1;
        let digits = crate::text::u64_to_decimal(mag);
        let mut out: Vec<char> = Vec::new();
        out.push('-');
        let dchars = crate::text::chars_of(digits.as_str());
        let mut i: usize = 0;
        while i < dchars.len()
            invariant
                i <= dchars@.len(),
                out@ == seq!['-'] + dchars@.subrange(0, i as int),
            decreases dchars@.len() - i,
        {
            out.push(dchars[i]);
            proof {
                assert(out@ =~= seq!['-'] + dchars@.subrange(0, i + 1));
            }
            i = i + 1;
        }
        proof {
            assert(dchars@.subrange(0, dchars@.len() as int) =~= dchars@);
            assert(out@ =~= dec_int(n as int));
        }
        string_of_chars(&out)
    }
}

} // verus!
