//! Pieces of the compact JSON text that gateway events are sent as.

use vstd::prelude::*;
use crate::text::{push_char, push_decimal, decimal};

verus! {

/// The lowercase hexadecimal digit for `d`, which is below sixteen.
pub open spec fn hex_char(d: nat) -> char {
    if d < 10 {
        crate::text::digit_char(d)
    } else if d == 10 { 'a' }
    else if d == 11 { 'b' }
    else if d == 12 { 'c' }
    else if d == 13 { 'd' }
    else if d == 14 { 'e' }
    else { 'f' }
}

/// How one character stands inside a JSON string literal: quote and backslash
/// are escaped, control characters below U+0020 take their short escape or a
/// `\u00xx` form, every other character stands for itself.
pub open spec fn escape_char(c: char) -> Seq<char> {
    if c == '"' {
        seq!['\\', '"']
    } else if c == '\\' {
        seq!['\\', '\\']
    } else if c == '\u{8}' {
        seq!['\\', 'b']
    } else if c == '\t' {
        seq!['\\', 't']
    } else if c == '\n' {
        seq!['\\', 'n']
    } else if c == '\u{c}' {
        seq!['\\', 'f']
    } else if c == '\r' {
        seq!['\\', 'r']
    } else if (c as u32) < 0x20 {
        seq!['\\', 'u', '0', '0', hex_char((c as u32 / 16) as nat), hex_char((c as u32 % 16) as nat)]
    } else {
        seq![c]
    }
}

/// The escaped characters of `s`, one piece per character, in order.
pub open spec fn escape(s: Seq<char>) -> Seq<char>
    decreases s.len(),
{
    if s.len() == 0 {
        Seq::empty()
    } else {
        escape(s.drop_last()) + escape_char(s.last())
    }
}

/// `s` as a JSON string literal.
pub open spec fn json_string(s: Seq<char>) -> Seq<char> {
    seq!['"'] + escape(s) + seq!['"']
}

/// `n` as a JSON number.
pub open spec fn json_number(n: nat) -> Seq<char> {
    decimal(n)
}

/// Relies on `serde_json::to_string` applied to a string slice: it writes the
/// literal in quotes, escapes the bytes that its escape table marks (quote,
/// backslash, the controls below U+0020) and copies every other character.
/// Serialising a `str` into memory does not fail.
#[verifier::external_body]
fn quoted(s: &str) -> (r: String)
    ensures
        r@ == json_string(s@),
{
    match serde_json::to_string(s) {
        Ok(t) => t,
        Err(_) => String::new(),
    }
}

/// Appends `value` as a JSON string literal.
pub fn push_json_string(out: &mut String, value: &str)
    ensures
        final(out)@ == old(out)@ + json_string(value@),
{
    let q = quoted(value);
    out.append(q.as_str());
}

/// Appends `n` as a JSON number.
pub fn push_json_number(out: &mut String, n: u64)
    ensures
        final(out)@ == old(out)@ + json_number(n as nat),
{
    push_decimal(out, n);
}


/// The comma-separated string literals of `items`.
pub open spec fn string_elements(items: Seq<Seq<char>>) -> Seq<char>
    decreases items.len(),
{
    if items.len() == 0 {
        Seq::empty()
    } else if items.len() == 1 {
        json_string(items[0])
    } else {
        string_elements(items.drop_last()) + seq![','] + json_string(items.last())
    }
}

/// `items` as a JSON array of strings.
pub open spec fn json_string_array(items: Seq<Seq<char>>) -> Seq<char> {
    seq!['['] + string_elements(items) + seq![']']
}

/// The views of a vector of strings.
pub open spec fn string_views(v: Seq<String>) -> Seq<Seq<char>> {
    v.map_values(|s: String| s@)
}

/// `value` as a JSON string literal, or `null` when absent.
pub open spec fn json_optional_string(value: Option<String>) -> Seq<char> {
    match value {
        Some(s) => json_string(s@),
        None => "null"@,
    }
}

/// Appends `items` as a JSON array of strings.
pub fn push_json_string_array(out: &mut String, items: &Vec<String>)
    ensures
        final(out)@ == old(out)@ + json_string_array(string_views(items@)),
{
    push_char(out, '[');
    let ghost start = out@;
    let mut i: usize = 0;
    while i < items.len()
        invariant
            i <= items.len(),
            out@ == start + string_elements(string_views(items@.take(i as int))),
            start == old(out)@.push('['),
        decreases items.len() - i,
    {
        proof {
            let views = string_views(items@.take(i as int + 1));
            assert(views.drop_last() =~= string_views(items@.take(i as int)));
            assert(views.last() == items@[i as int]@);
        }
        if i > 0 {
            push_char(out, ',');
        }
        push_json_string(out, items[i].as_str());
        i = i + 1;
        proof {
            let views = string_views(items@.take(i as int));
            if i == 1 {
                assert(string_views(items@.take(0)) =~= Seq::<Seq<char>>::empty());
            }
            assert(out@ =~= start + string_elements(views));
        }
    }
    push_char(out, ']');
    assert(items@.take(items.len() as int) =~= items@);
    assert(out@ =~= old(out)@ + json_string_array(string_views(items@)));
}

/// Appends `value` as a JSON string literal, or `null` when absent.
pub fn push_json_optional_string(out: &mut String, value: &Option<String>)
    ensures
        final(out)@ == old(out)@ + json_optional_string(*value),
{
    match value {
        Some(s) => push_json_string(out, s.as_str()),
        None => out.append("null"),
    }
}

} // verus!
