//! JSON text as `serde_json` writes it: strings with their escapes, objects and arrays in
//! the compact form.
use vstd::prelude::*;

verus! {

/// The lower-case hexadecimal digits.
pub open spec fn hex_digits() -> Seq<char> {
    seq!['0', '1', '2', '3', '4', '5', '6', '7', '8', '9', 'a', 'b', 'c', 'd', 'e', 'f']
}

/// How a JSON string written by `serde_json` holds character `c`: a quote and a backslash
/// behind a backslash, backspace, tab, line feed, form feed and carriage return by their
/// short escapes, the other control characters as `\u00` and two lower-case hex digits,
/// everything else as itself.
pub open spec fn json_escape_char(c: char) -> Seq<char> {
    if c == '"' {
        seq!['\\', '"']
    } else if c == '\\' {
        seq!['\\', '\\']
    } else if c == '\u{8}' {
        seq!['\\', 'b']
    } else if c == '\t' {
        seq!['\\', 't']
    } else if c == '\n' {
        seq!['\\', 'n']
    } else if c == '\u{c}' {
        seq!['\\', 'f']
    } else if c == '\r' {
        seq!['\\', 'r']
    } else if (c as u32) < 0x20 {
        seq!['\\', 'u', '0', '0', hex_digits()[((c as u32) / 16) as int], hex_digits()[((c as u32) % 16) as int]]
    } else {
        seq![c]
    }
}

/// The characters of `s`, each escaped.
pub open spec fn json_escaped(s: Seq<char>) -> Seq<char>
    decreases s.len(),
{
    if s.len() == 0 {
        Seq::empty()
    } else {
        json_escaped(s.drop_last()) + json_escape_char(s.last())
    }
}

/// `s` as a JSON string.
pub open spec fn json_string(s: Seq<char>) -> Seq<char> {
    seq!['"'] + json_escaped(s) + seq!['"']
}

/// The member `key: value` of a JSON object, `value` already written as JSON.
pub open spec fn json_member(key: Seq<char>, value: Seq<char>) -> Seq<char> {
    json_string(key) + seq![':'] + value
}

/// The members `m`, separated by commas.
pub open spec fn joined_members(m: Seq<Seq<char>>) -> Seq<char>
    decreases m.len(),
{
    if m.len() == 0 {
        Seq::empty()
    } else if m.len() == 1 {
        m[0]
    } else {
        joined_members(m.drop_last()) + seq![','] + m.last()
    }
}

/// The JSON object of members `m`.
pub open spec fn json_object(m: Seq<Seq<char>>) -> Seq<char> {
    seq!['{'] + joined_members(m) + seq!['}']
}

/// `true` or `false`.
pub open spec fn json_bool(b: bool) -> Seq<char> {
    if b {
        seq!['t', 'r', 'u', 'e']
    } else {
        seq!['f', 'a', 'l', 's', 'e']
    }
}

/// The JSON array of elements `e`, each already written as JSON.
pub open spec fn json_array(e: Seq<Seq<char>>) -> Seq<char> {
    seq!['['] + joined_members(e) + seq![']']
}

/// The JSON array of the strings `items`.
pub open spec fn json_string_array(items: Seq<Seq<char>>) -> Seq<char> {
    json_array(items.map_values(|x: Seq<char>| json_string(x)))
}

} // verus!
