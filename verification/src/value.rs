//! The JSON value tree and the mathematical model of its textual rendering.
//!
//! The spec functions here define, character by character, the text that the
//! generator in [`crate::codegen`] emits for a given tree, in both the pretty
//! and the minified mode. The generator's contracts are stated against them.

use vstd::prelude::*;

verus! {

/// An in-memory JSON value tree.
///
/// `Number` carries the number's canonical decimal text, produced ahead of
/// time by the numeric type that owns the value; the generator emits it
/// verbatim and introduces no rounding of its own. `Object` keeps its entries
/// in insertion order and does not deduplicate keys.
pub enum Value {
    String(String),
    Number(String),
    Boolean(bool),
    Null,
    Array(Vec<Value>),
    Object(Vec<(String, Value)>),
}

/// The escape sequence emitted for one character of a JSON string: backslash,
/// forward slash and double-quote gain a leading backslash; newline, carriage
/// return, horizontal tab, form-feed and backspace become their two-character
/// escapes; every other character passes through unchanged.
pub open spec fn escaped_char(c: char) -> Seq<char> {
    if c == '\\' || c == '/' || c == '"' {
        seq!['\\', c]
    } else if c == '\n' {
        seq!['\\', 'n']
    } else if c == '\r' {
        seq!['\\', 'r']
    } else if c == '\t' {
        seq!['\\', 't']
    } else if c == '\u{000C}' {
        seq!['\\', 'f']
    } else if c == '\u{0008}' {
        seq!['\\', 'b']
    } else {
        seq![c]
    }
}

/// The body of a JSON string: every character replaced by its escape sequence.
pub open spec fn escaped(s: Seq<char>) -> Seq<char>
    decreases s.len(),
{
    if s.len() == 0 {
        Seq::empty()
    } else {
        escaped(s.drop_last()) + escaped_char(s.last())
    }
}

/// A JSON string: the escaped body between double-quotes.
pub open spec fn quoted(s: Seq<char>) -> Seq<char> {
    seq!['"'] + escaped(s) + seq!['"']
}

/// A line break in pretty mode: a newline followed by four spaces per level
/// of indentation depth.
pub open spec fn line_break(dent: nat) -> Seq<char>
    decreases dent,
{
    if dent == 0 {
        seq!['\n']
    } else {
        line_break((dent - 1) as nat) + seq![' ', ' ', ' ', ' ']
    }
}

/// The separator between array elements: `", "` pretty, `","` minified.
pub open spec fn item_sep(minify: bool) -> Seq<char> {
    if minify {
        seq![',']
    } else {
        seq![',', ' ']
    }
}

/// The separator between a key and its value: `": "` pretty, `":"` minified.
pub open spec fn key_sep(minify: bool) -> Seq<char> {
    if minify {
        seq![':']
    } else {
        seq![':', ' ']
    }
}

/// The separator between object entries: a comma, followed in pretty mode by
/// a line break at the body's indentation depth (one entry per line).
pub open spec fn entry_sep(minify: bool, dent: nat) -> Seq<char> {
    if minify {
        seq![',']
    } else {
        seq![','] + line_break(dent)
    }
}

/// The line break that opens or closes a non-empty object body in pretty
/// mode; nothing in minified mode.
pub open spec fn body_break(minify: bool, dent: nat) -> Seq<char> {
    if minify {
        Seq::empty()
    } else {
        line_break(dent)
    }
}

/// The text emitted for a value tree at a given indentation depth.
///
/// Arrays are rendered inline in both modes: their elements neither start new
/// lines nor change the indentation depth. A non-empty object opens its body
/// with a line break one level deeper, holds one entry per line, and closes
/// with a line break at the outer depth; empty arrays and objects render as
/// `[]` and `{}` with no interior whitespace in either mode.
pub open spec fn rendered(v: Value, minify: bool, dent: nat) -> Seq<char>
    decreases v, 1int, 0nat,
{
    match v {
        Value::String(s) => quoted(s@),
        Value::Number(n) => n@,
        Value::Boolean(b) => if b {
            seq!['t', 'r', 'u', 'e']
        } else {
            seq!['f', 'a', 'l', 's', 'e']
        },
        Value::Null => seq!['n', 'u', 'l', 'l'],
        Value::Array(items) => seq!['['] + rendered_items(items@, items@.len(), minify, dent)
            + seq![']'],
        Value::Object(entries) => if entries@.len() == 0 {
            seq!['{', '}']
        } else {
            seq!['{'] + body_break(minify, dent + 1) + rendered_entries(
                entries@,
                entries@.len(),
                minify,
                dent + 1,
            ) + body_break(minify, dent) + seq!['}']
        },
    }
}

/// The text emitted for the first `n` elements of an array body, separated by
/// [`item_sep`].
pub open spec fn rendered_items(items: Seq<Value>, n: nat, minify: bool, dent: nat) -> Seq<char>
    decreases items, 0int, n,
{
    if n == 0 || items.len() < n {
        Seq::empty()
    } else if n == 1 {
        rendered(items[0], minify, dent)
    } else {
        rendered_items(items, (n - 1) as nat, minify, dent) + item_sep(minify) + rendered(
            items[n - 1],
            minify,
            dent,
        )
    }
}

/// The text emitted for the first `n` entries of an object body: each entry
/// is its quoted key, the key separator and its value, rendered at the body's
/// indentation depth; entries are separated by [`entry_sep`].
pub open spec fn rendered_entries(
    entries: Seq<(String, Value)>,
    n: nat,
    minify: bool,
    dent: nat,
) -> Seq<char>
    decreases entries, 0int, n,
{
    if n == 0 || entries.len() < n {
        Seq::empty()
    } else if n == 1 {
        quoted(entries[0].0@) + key_sep(minify) + rendered(entries[0].1, minify, dent)
    } else {
        rendered_entries(entries, (n - 1) as nat, minify, dent) + entry_sep(minify, dent) + quoted(
            entries[n - 1].0@,
        ) + key_sep(minify) + rendered(entries[n - 1].1, minify, dent)
    }
}

/// How many levels of indentation rendering a value can open at once: one per
/// nested object level. Arrays add none, since their elements stay at the
/// depth of the array itself.
pub open spec fn nest_depth(v: Value) -> nat
    decreases v, 1int, 0nat,
{
    match v {
        Value::Array(items) => nest_depth_items(items@, items@.len()),
        Value::Object(entries) => 1 + nest_depth_entries(entries@, entries@.len()),
        _ => 0,
    }
}

/// The largest [`nest_depth`] among the first `n` elements.
pub open spec fn nest_depth_items(items: Seq<Value>, n: nat) -> nat
    decreases items, 0int, n,
{
    if n == 0 || items.len() < n {
        0
    } else if nest_depth_items(items, (n - 1) as nat) >= nest_depth(items[n - 1]) {
        nest_depth_items(items, (n - 1) as nat)
    } else {
        nest_depth(items[n - 1])
    }
}

/// The largest [`nest_depth`] among the values of the first `n` entries.
pub open spec fn nest_depth_entries(entries: Seq<(String, Value)>, n: nat) -> nat
    decreases entries, 0int, n,
{
    if n == 0 || entries.len() < n {
        0
    } else if nest_depth_entries(entries, (n - 1) as nat) >= nest_depth(entries[n - 1].1) {
        nest_depth_entries(entries, (n - 1) as nat)
    } else {
        nest_depth(entries[n - 1].1)
    }
}

/// Each of the first `n` elements nests no deeper than their maximum.
pub proof fn lemma_nest_depth_items_bound(items: Seq<Value>, n: nat, i: int)
    requires
        0 <= i < n,
        n <= items.len(),
    ensures
        nest_depth(items[i]) <= nest_depth_items(items, n),
    decreases n,
{
    if i + 1 < n {
        lemma_nest_depth_items_bound(items, (n - 1) as nat, i);
    }
}

/// Each value among the first `n` entries nests no deeper than their maximum.
pub proof fn lemma_nest_depth_entries_bound(entries: Seq<(String, Value)>, n: nat, i: int)
    requires
        0 <= i < n,
        n <= entries.len(),
    ensures
        nest_depth(entries[i].1) <= nest_depth_entries(entries, n),
    decreases n,
{
    if i + 1 < n {
        lemma_nest_depth_entries_bound(entries, (n - 1) as nat, i);
    }
}

} // verus!
