//! The JSON text of a string: how a string is quoted and escaped, and what
//! JSON's escape rules read back from such text.

use vstd::prelude::*;

verus! {

/// The lower-case hexadecimal digit for `d` (for `d < 16`).
pub open spec fn hex_digit(d: nat) -> char {
    if d < 10 {
        ('0' as int + d) as char
    } else {
        ('a' as int + d - 10) as char
    }
}

/// How one character is written inside a JSON string: `"` and `\` and the
/// control characters with a short escape get it, the other control
/// characters are written `\u00XX`, and every other character stands for
/// itself.
pub open spec fn escape_char(c: char) -> Seq<char> {
    if c == '"' {
        seq!['\\', '"']
    } else if c == '\\' {
        seq!['\\', '\\']
    } else if c as int == 0x08 {
        seq!['\\', 'b']
    } else if c as int == 0x09 {
        seq!['\\', 't']
    } else if c as int == 0x0a {
        seq!['\\', 'n']
    } else if c as int == 0x0c {
        seq!['\\', 'f']
    } else if c as int == 0x0d {
        seq!['\\', 'r']
    } else if (c as int) < 0x20 {
        seq!['\\', 'u', '0', '0', hex_digit((c as nat) / 16), hex_digit((c as nat) % 16)]
    } else {
        seq![c]
    }
}

/// The escaped characters of `text`, character by character.
pub open spec fn escape_text(text: Seq<char>) -> Seq<char>
    decreases text.len(),
{
    if text.len() == 0 {
        seq![]
    } else {
        escape_char(text[0]) + escape_text(text.drop_first())
    }
}

/// The JSON text of the string `text`: quoted and escaped.
pub open spec fn json_string_literal(text: Seq<char>) -> Seq<char> {
    seq!['"'] + escape_text(text) + seq!['"']
}

/// The value of a hexadecimal digit, either case.
pub open spec fn hex_value(c: char) -> Option<nat> {
    if '0' <= c && c <= '9' {
        Some((c as int - '0' as int) as nat)
    } else if 'a' <= c && c <= 'f' {
        Some((c as int - 'a' as int + 10) as nat)
    } else if 'A' <= c && c <= 'F' {
        Some((c as int - 'A' as int + 10) as nat)
    } else {
        None
    }
}

/// The code unit written by four hexadecimal digits.
pub open spec fn hex4_value(s: Seq<char>) -> Option<nat> {
    match (hex_value(s[0]), hex_value(s[1]), hex_value(s[2]), hex_value(s[3])) {
        (Some(a), Some(b), Some(c), Some(d)) => Some(((a * 16 + b) * 16 + c) * 16 + d),
        _ => None,
    }
}

/// The character that a two-character escape `\e` stands for, under JSON's rules.
pub open spec fn short_escape(e: char) -> Option<char> {
    if e == '"' || e == '\\' || e == '/' {
        Some(e)
    } else if e == 'b' {
        Some(0x08 as char)
    } else if e == 'f' {
        Some(0x0c as char)
    } else if e == 'n' {
        Some(0x0a as char)
    } else if e == 'r' {
        Some(0x0d as char)
    } else if e == 't' {
        Some(0x09 as char)
    } else {
        None
    }
}

/// The characters that the inside of a JSON string stands for, under JSON's
/// escape rules (escapes of surrogate halves are not read); none when the
/// text is not the inside of a JSON string.
pub open spec fn unescape(s: Seq<char>) -> Option<Seq<char>>
    decreases s.len(),
{
    if s.len() == 0 {
        Some(seq![])
    } else if s[0] == '\\' {
        if s.len() < 2 {
            None
        } else if s[1] == 'u' {
            if s.len() < 6 {
                None
            } else {
                match hex4_value(s.subrange(2, 6)) {
                    Some(v) => if v < 0xd800 || 0xe000 <= v {
                        match unescape(s.skip(6)) {
                            Some(rest) => Some(seq![v as char] + rest),
                            None => None,
                        }
                    } else {
                        None
                    },
                    None => None,
                }
            }
        } else {
            match short_escape(s[1]) {
                Some(c) => match unescape(s.skip(2)) {
                    Some(rest) => Some(seq![c] + rest),
                    None => None,
                },
                None => None,
            }
        }
    } else if s[0] == '"' || (s[0] as int) < 0x20 {
        None
    } else {
        match unescape(s.drop_first()) {
            Some(rest) => Some(seq![s[0]] + rest),
            None => None,
        }
    }
}

/// Hex digits read back as what they were written for.
proof fn lemma_hex_digit_value(d: nat)
    requires
        d < 16,
    ensures
        hex_value(hex_digit(d)) == Some(d),
{
}

/// Reading back one escaped character followed by more escaped text.
proof fn lemma_unescape_char(c: char, rest: Seq<char>)
    ensures
        unescape(escape_char(c) + rest) == match unescape(rest) {
            Some(r) => Some(seq![c] + r),
            None => None::<Seq<char>>,
        },
{
    let s = escape_char(c) + rest;
    if c == '"' || c == '\\' || c as int == 0x08 || c as int == 0x09 || c as int == 0x0a || c as int
        == 0x0c || c as int == 0x0d {
        assert(s.skip(2) =~= rest);
        assert(s[0] == '\\');
    } else if (c as int) < 0x20 {
        let n = c as nat;
        lemma_hex_digit_value(n / 16);
        lemma_hex_digit_value(n % 16);
        assert(s.skip(6) =~= rest);
        assert(s.subrange(2, 6) =~= seq!['0', '0', hex_digit(n / 16), hex_digit(n % 16)]);
        assert(hex4_value(s.subrange(2, 6)) == Some(n));
        assert((n as char) == c);
        assert(s[0] == '\\');
        assert(s[1] == 'u');
    } else {
        assert(s.drop_first() =~= rest);
        assert(s[0] == c);
    }
}

/// The JSON text written for a string reads back, under JSON's escape
/// rules, as that very string.
pub proof fn lemma_unescape_escape(text: Seq<char>)
    ensures
        unescape(escape_text(text)) == Some(text),
    decreases text.len(),
{
    if text.len() > 0 {
        lemma_unescape_escape(text.drop_first());
        lemma_unescape_char(text[0], escape_text(text.drop_first()));
        assert(seq![text[0]] + text.drop_first() =~= text);
    } else {
        assert(escape_text(text) =~= Seq::<char>::empty());
    }
}

} // verus!
