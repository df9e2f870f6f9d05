//! JSON string literals: how a string is written as one (the escaping that
//! `serde_json` applies), which texts are well-formed string contents, and
//! what such contents read back as.
use vstd::prelude::*;

verus! {

/// The lower-case hexadecimal digit of `d` (below 16).
pub open spec fn hex_digit(d: int) -> char {
    if d == 0 {
        '0'
    } else if d == 1 {
        '1'
    } else if d == 2 {
        '2'
    } else if d == 3 {
        '3'
    } else if d == 4 {
        '4'
    } else if d == 5 {
        '5'
    } else if d == 6 {
        '6'
    } else if d == 7 {
        '7'
    } else if d == 8 {
        '8'
    } else if d == 9 {
        '9'
    } else if d == 10 {
        'a'
    } else if d == 11 {
        'b'
    } else if d == 12 {
        'c'
    } else if d == 13 {
        'd'
    } else if d == 14 {
        'e'
    } else {
        'f'
    }
}

/// The value of a hexadecimal digit (either case), or nothing.
pub open spec fn hex_value(c: char) -> Option<int> {
    if '0' <= c && c <= '9' {
        Some(c as int - '0' as int)
    } else if 'a' <= c && c <= 'f' {
        Some(c as int - 'a' as int + 10)
    } else if 'A' <= c && c <= 'F' {
        Some(c as int - 'A' as int + 10)
    } else {
        None
    }
}

/// How one character is written inside a JSON string by `serde_json`: `"`
/// and `\` get a backslash, the control characters below U+0020 get a short
/// escape (`\b \t \n \f \r`) or `\u00XX`, every other character stays.
pub open spec fn json_escape_char(c: char) -> Seq<char> {
    if c == '"' {
        seq!['\\', '"']
    } else if c == '\\' {
        seq!['\\', '\\']
    } else if c == '\u{8}' {
        seq!['\\', 'b']
    } else if c == '\t' {
        seq!['\\', 't']
    } else if c == '\n' {
        seq!['\\', 'n']
    } else if c == '\u{c}' {
        seq!['\\', 'f']
    } else if c == '\r' {
        seq!['\\', 'r']
    } else if (c as int) < 0x20 {
        seq!['\\', 'u', '0', '0', hex_digit((c as int) / 16), hex_digit((c as int) % 16)]
    } else {
        seq![c]
    }
}

/// The contents of the JSON string literal of `s`: each character escaped.
pub open spec fn json_escape(s: Seq<char>) -> Seq<char>
    decreases s.len(),
{
    if s.len() == 0 {
        Seq::empty()
    } else {
        json_escape_char(s[0]) + json_escape(s.drop_first())
    }
}

/// The JSON string literal of `s`, as `serde_json::to_string` writes a
/// string: the escaped characters between two double quotes.
pub open spec fn json_string_literal(s: Seq<char>) -> Seq<char> {
    seq!['"'] + json_escape(s) + seq!['"']
}

/// What the escape `\` + `e` stands for, where `e` is one of the short
/// escapes of JSON.
pub open spec fn short_escape(e: char) -> Option<char> {
    if e == '"' {
        Some('"')
    } else if e == '\\' {
        Some('\\')
    } else if e == '/' {
        Some('/')
    } else if e == 'b' {
        Some('\u{8}')
    } else if e == 'f' {
        Some('\u{c}')
    } else if e == 'n' {
        Some('\n')
    } else if e == 'r' {
        Some('\r')
    } else if e == 't' {
        Some('\t')
    } else {
        None
    }
}

/// The value of the four hexadecimal digits at the start of `t`, if they are
/// four hexadecimal digits.
pub open spec fn hex4(t: Seq<char>) -> Option<int> {
    if t.len() >= 4 && hex_value(t[0]) is Some && hex_value(t[1]) is Some && hex_value(t[2]) is Some
        && hex_value(t[3]) is Some {
        Some(
            hex_value(t[0])->0 * 4096 + hex_value(t[1])->0 * 256 + hex_value(t[2])->0 * 16
                + hex_value(t[3])->0,
        )
    } else {
        None
    }
}

/// What the contents `t` of a JSON string literal read back as: nothing if
/// `t` is not well-formed (a bare `"`, a bare control character, a `\` that
/// starts no valid escape, or a `\u` escape of a surrogate half), the
/// characters that it denotes otherwise.
pub open spec fn json_unescape(t: Seq<char>) -> Option<Seq<char>>
    decreases t.len(),
{
    if t.len() == 0 {
        Some(Seq::empty())
    } else if t[0] == '\\' {
        if t.len() < 2 {
            None
        } else if t[1] == 'u' {
            match hex4(t.skip(2)) {
                Some(v) => if 0xd800 <= v <= 0xdfff {
                    None
                } else {
                    match json_unescape(t.skip(6)) {
                        Some(rest) => Some(seq![v as char] + rest),
                        None => None,
                    }
                },
                None => None,
            }
        } else {
            match (short_escape(t[1]), json_unescape(t.skip(2))) {
                (Some(c), Some(rest)) => Some(seq![c] + rest),
                _ => None,
            }
        }
    } else if t[0] == '"' || (t[0] as int) < 0x20 {
        None
    } else {
        match json_unescape(t.skip(1)) {
            Some(rest) => Some(seq![t[0]] + rest),
            None => None,
        }
    }
}

proof fn lemma_hex_digit_value(d: int)
    requires
        0 <= d < 16,
    ensures
        hex_value(hex_digit(d)) == Some(d),
{
}

proof fn lemma_escape_char_reads_back(c: char, rest: Seq<char>, back: Seq<char>)
    requires
        json_unescape(rest) == Some(back),
    ensures
        json_unescape(json_escape_char(c) + rest) == Some(seq![c] + back),
{
    let e = json_escape_char(c);
    let t = e + rest;
    assert(t.skip(e.len() as int) =~= rest);
    if c == '"' || c == '\\' || c == '\u{8}' || c == '\t' || c == '\n' || c == '\u{c}' || c
        == '\r' {
        assert(t.skip(2) =~= rest);
    } else if (c as int) < 0x20 {
        let v = c as int;
        lemma_hex_digit_value(v / 16);
        lemma_hex_digit_value(v % 16);
        assert(t.skip(2).skip(0) =~= t.skip(2));
        assert(t.skip(2)[0] == '0' && t.skip(2)[1] == '0');
        assert(t.skip(2)[2] == hex_digit(v / 16) && t.skip(2)[3] == hex_digit(v % 16));
        assert(hex4(t.skip(2)) == Some(v));
        assert(t.skip(6) =~= rest);
        assert((v as char) == c);
    } else {
        assert(t.skip(1) =~= rest);
    }
}

/// The escaped text of any string reads back as that string: it is
/// well-formed contents of a JSON string literal, with no bare `"` that
/// would end the literal early and no bare control character.
pub proof fn lemma_json_escape_reads_back(s: Seq<char>)
    ensures
        json_unescape(json_escape(s)) == Some(s),
    decreases s.len(),
{
    if s.len() > 0 {
        lemma_json_escape_reads_back(s.drop_first());
        lemma_escape_char_reads_back(s[0], json_escape(s.drop_first()), s.drop_first());
        assert(seq![s[0]] + s.drop_first() =~= s);
    } else {
        assert(json_escape(s) =~= Seq::<char>::empty());
        assert(Seq::<char>::empty() =~= s);
    }
}

} // verus!
