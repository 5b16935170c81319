//! Properties of the rendering model that hold for every value tree.

use crate::value::{
    escaped, escaped_char, line_break, quoted, rendered, rendered_entries, rendered_items, Value,
};
use vstd::prelude::*;

verus! {

/// An empty array renders to exactly `[]` and an empty object to exactly
/// `{}`, in both modes, with no interior whitespace.
pub proof fn lemma_empty_containers(
    items: Vec<Value>,
    entries: Vec<(String, Value)>,
    minify: bool,
    dent: nat,
)
    requires
        items@.len() == 0,
        entries@.len() == 0,
    ensures
        rendered(Value::Array(items), minify, dent) == seq!['[', ']'],
        rendered(Value::Object(entries), minify, dent) == seq!['{', '}'],
{
    assert(rendered(Value::Array(items), minify, dent) =~= seq!['[', ']']);
}

/// Holds when no character of the sequence is a space.
pub open spec fn space_free(s: Seq<char>) -> bool {
    forall|i: int| 0 <= i < s.len() ==> s[i] != ' '
}

/// Holds when no character of the sequence is a space or a newline.
pub open spec fn whitespace_free(s: Seq<char>) -> bool {
    forall|i: int| 0 <= i < s.len() ==> s[i] != ' ' && s[i] != '\n'
}

/// Holds when no string, key or number text in the tree carries a space, and
/// no number text carries a newline. A newline inside a string does not
/// matter: escaping turns it into the two characters `\n`.
pub open spec fn plain_content(v: Value) -> bool
    decreases v, 1int, 0nat,
{
    match v {
        Value::String(s) => space_free(s@),
        Value::Number(n) => whitespace_free(n@),
        Value::Boolean(_) => true,
        Value::Null => true,
        Value::Array(items) => plain_content_items(items@, items@.len()),
        Value::Object(entries) => plain_content_entries(entries@, entries@.len()),
    }
}

/// [`plain_content`] for the first `n` elements of an array.
pub open spec fn plain_content_items(items: Seq<Value>, n: nat) -> bool
    decreases items, 0int, n,
{
    if n == 0 || items.len() < n {
        true
    } else {
        plain_content_items(items, (n - 1) as nat) && plain_content(items[n - 1])
    }
}

/// [`plain_content`] for the first `n` entries of an object.
pub open spec fn plain_content_entries(entries: Seq<(String, Value)>, n: nat) -> bool
    decreases entries, 0int, n,
{
    if n == 0 || entries.len() < n {
        true
    } else {
        plain_content_entries(entries, (n - 1) as nat) && space_free(entries[n - 1].0@)
            && plain_content(entries[n - 1].1)
    }
}

proof fn lemma_whitespace_free_concat(a: Seq<char>, b: Seq<char>)
    requires
        whitespace_free(a),
        whitespace_free(b),
    ensures
        whitespace_free(a + b),
{
    assert forall|i: int| 0 <= i < (a + b).len() implies (a + b)[i] != ' ' && (a + b)[i] != '\n' by {
        if i < a.len() {
            assert((a + b)[i] == a[i]);
        } else {
            assert((a + b)[i] == b[i - a.len()]);
        }
    }
}

/// Escaping a string without spaces yields text without spaces or newlines:
/// the only whitespace that could survive escaping verbatim is a space.
proof fn lemma_escaped_whitespace_free(s: Seq<char>)
    requires
        space_free(s),
    ensures
        whitespace_free(escaped(s)),
    decreases s.len(),
{
    if s.len() > 0 {
        assert(space_free(s.drop_last()));
        lemma_escaped_whitespace_free(s.drop_last());
        assert(s.last() != ' ');
        assert(whitespace_free(escaped_char(s.last())));
        lemma_whitespace_free_concat(escaped(s.drop_last()), escaped_char(s.last()));
    }
}

proof fn lemma_minified_items_whitespace_free(items: Seq<Value>, n: nat, dent: nat)
    requires
        n <= items.len(),
        plain_content_items(items, n),
    ensures
        whitespace_free(rendered_items(items, n, true, dent)),
    decreases items, 0int, n,
{
    if n == 0 {
    } else if n == 1 {
        lemma_minified_whitespace_free(items[0], dent);
    } else {
        lemma_minified_items_whitespace_free(items, (n - 1) as nat, dent);
        lemma_minified_whitespace_free(items[n - 1], dent);
        lemma_whitespace_free_concat(rendered_items(items, (n - 1) as nat, true, dent), seq![',']);
        lemma_whitespace_free_concat(
            rendered_items(items, (n - 1) as nat, true, dent) + seq![','],
            rendered(items[n - 1], true, dent),
        );
    }
}

proof fn lemma_minified_entries_whitespace_free(
    entries: Seq<(String, Value)>,
    n: nat,
    dent: nat,
)
    requires
        n <= entries.len(),
        plain_content_entries(entries, n),
    ensures
        whitespace_free(rendered_entries(entries, n, true, dent)),
    decreases entries, 0int, n,
{
    if n == 0 {
    } else {
        lemma_escaped_whitespace_free(entries[n - 1].0@);
        lemma_minified_whitespace_free(entries[n - 1].1, dent);
        lemma_whitespace_free_concat(seq!['"'] + escaped(entries[n - 1].0@), seq!['"']);
        lemma_whitespace_free_concat(seq!['"'], escaped(entries[n - 1].0@));
        lemma_whitespace_free_concat(quoted(entries[n - 1].0@), seq![':']);
        lemma_whitespace_free_concat(
            quoted(entries[n - 1].0@) + seq![':'],
            rendered(entries[n - 1].1, true, dent),
        );
        if n > 1 {
            lemma_minified_entries_whitespace_free(entries, (n - 1) as nat, dent);
            lemma_whitespace_free_concat(
                rendered_entries(entries, (n - 1) as nat, true, dent),
                seq![','],
            );
            lemma_whitespace_free_concat(
                rendered_entries(entries, (n - 1) as nat, true, dent) + seq![','],
                quoted(entries[n - 1].0@),
            );
            lemma_whitespace_free_concat(
                rendered_entries(entries, (n - 1) as nat, true, dent) + seq![','] + quoted(
                    entries[n - 1].0@,
                ),
                seq![':'],
            );
            lemma_whitespace_free_concat(
                rendered_entries(entries, (n - 1) as nat, true, dent) + seq![','] + quoted(
                    entries[n - 1].0@,
                ) + seq![':'],
                rendered(entries[n - 1].1, true, dent),
            );
        }
    }
}

/// Separator density of minified output: as long as the strings, keys and
/// numbers in the tree carry no whitespace of their own, the minified
/// rendering holds no space and no newline at all — so in particular the
/// two-character separators `", "` and `": "` never occur, only their
/// single-character forms.
pub proof fn lemma_minified_whitespace_free(v: Value, dent: nat)
    requires
        plain_content(v),
    ensures
        whitespace_free(rendered(v, true, dent)),
    decreases v, 1int, 1nat,
{
    match v {
        Value::String(s) => {
            lemma_escaped_whitespace_free(s@);
            lemma_whitespace_free_concat(seq!['"'], escaped(s@));
            lemma_whitespace_free_concat(seq!['"'] + escaped(s@), seq!['"']);
        },
        Value::Number(n) => {
        },
        Value::Boolean(b) => {
        },
        Value::Null => {
        },
        Value::Array(items) => {
            lemma_minified_items_whitespace_free(items@, items@.len(), dent);
            lemma_whitespace_free_concat(
                seq!['['],
                rendered_items(items@, items@.len(), true, dent),
            );
            lemma_whitespace_free_concat(
                seq!['['] + rendered_items(items@, items@.len(), true, dent),
                seq![']'],
            );
        },
        Value::Object(entries) => {
            if entries@.len() > 0 {
                lemma_minified_entries_whitespace_free(entries@, entries@.len(), dent + 1);
                lemma_whitespace_free_concat(
                    seq!['{'],
                    rendered_entries(entries@, entries@.len(), true, dent + 1),
                );
                lemma_whitespace_free_concat(
                    seq!['{'] + rendered_entries(entries@, entries@.len(), true, dent + 1),
                    seq!['}'],
                );
                assert(rendered(v, true, dent) =~= seq!['{'] + rendered_entries(
                    entries@,
                    entries@.len(),
                    true,
                    dent + 1,
                ) + seq!['}']);
            }
        },
    }
}

/// The sequence with every space and newline removed.
pub open spec fn squeezed(s: Seq<char>) -> Seq<char>
    decreases s.len(),
{
    if s.len() == 0 {
        Seq::empty()
    } else if s.last() == ' ' || s.last() == '\n' {
        squeezed(s.drop_last())
    } else {
        squeezed(s.drop_last()).push(s.last())
    }
}

proof fn lemma_squeezed_concat(a: Seq<char>, b: Seq<char>)
    ensures
        squeezed(a + b) == squeezed(a) + squeezed(b),
    decreases b.len(),
{
    if b.len() == 0 {
        assert(a + b =~= a);
        assert(squeezed(a) + Seq::<char>::empty() =~= squeezed(a));
    } else {
        assert((a + b).drop_last() =~= a + b.drop_last());
        assert((a + b).last() == b.last());
        lemma_squeezed_concat(a, b.drop_last());
        if b.last() == ' ' || b.last() == '\n' {
        } else {
            assert((squeezed(a) + squeezed(b.drop_last())).push(b.last()) =~= squeezed(a)
                + squeezed(b.drop_last()).push(b.last()));
        }
    }
}

proof fn lemma_squeezed_id(s: Seq<char>)
    requires
        whitespace_free(s),
    ensures
        squeezed(s) == s,
    decreases s.len(),
{
    if s.len() > 0 {
        assert(whitespace_free(s.drop_last()));
        lemma_squeezed_id(s.drop_last());
        assert(s.drop_last().push(s.last()) =~= s);
    }
}

proof fn lemma_squeezed_singleton(c: char)
    requires
        c != ' ',
        c != '\n',
    ensures
        squeezed(seq![c]) == seq![c],
{
    assert(seq![c].drop_last() =~= Seq::<char>::empty());
    assert(squeezed(Seq::<char>::empty()) == Seq::<char>::empty());
    assert(squeezed(seq![c]) =~= seq![c]);
}

proof fn lemma_squeezed_spaces()
    ensures
        squeezed(seq![' ', ' ', ' ', ' ']) == Seq::<char>::empty(),
        squeezed(seq![',', ' ']) == seq![','],
        squeezed(seq![':', ' ']) == seq![':'],
{
    assert(squeezed(Seq::<char>::empty()) == Seq::<char>::empty());
    assert(seq![' '].drop_last() =~= Seq::<char>::empty());
    assert(squeezed(seq![' ']) == Seq::<char>::empty());
    assert(seq![' ', ' '].drop_last() =~= seq![' ']);
    assert(squeezed(seq![' ', ' ']) == Seq::<char>::empty());
    assert(seq![' ', ' ', ' '].drop_last() =~= seq![' ', ' ']);
    assert(squeezed(seq![' ', ' ', ' ']) == Seq::<char>::empty());
    assert(seq![' ', ' ', ' ', ' '].drop_last() =~= seq![' ', ' ', ' ']);
    lemma_squeezed_singleton(',');
    assert(seq![',', ' '].drop_last() =~= seq![',']);
    lemma_squeezed_singleton(':');
    assert(seq![':', ' '].drop_last() =~= seq![':']);
}

proof fn lemma_squeezed_line_break(dent: nat)
    ensures
        squeezed(line_break(dent)) == Seq::<char>::empty(),
    decreases dent,
{
    if dent == 0 {
        assert(seq!['\n'].drop_last() =~= Seq::<char>::empty());
        assert(squeezed(Seq::<char>::empty()) == Seq::<char>::empty());
    } else {
        lemma_squeezed_line_break((dent - 1) as nat);
        lemma_squeezed_concat(line_break((dent - 1) as nat), seq![' ', ' ', ' ', ' ']);
        lemma_squeezed_spaces();
        assert(Seq::<char>::empty() + Seq::<char>::empty() =~= Seq::<char>::empty());
    }
}

proof fn lemma_quoted_whitespace_free(s: Seq<char>)
    requires
        space_free(s),
    ensures
        whitespace_free(quoted(s)),
{
    lemma_escaped_whitespace_free(s);
    lemma_whitespace_free_concat(seq!['"'], escaped(s));
    lemma_whitespace_free_concat(seq!['"'] + escaped(s), seq!['"']);
}

proof fn lemma_modes_agree_items(items: Seq<Value>, n: nat, dent: nat)
    requires
        n <= items.len(),
        plain_content_items(items, n),
    ensures
        squeezed(rendered_items(items, n, false, dent)) == rendered_items(items, n, true, dent),
    decreases items, 0int, n,
{
    if n == 0 {
    } else if n == 1 {
        lemma_modes_agree(items[0], dent);
    } else {
        let prefix = rendered_items(items, (n - 1) as nat, false, dent);
        let last = rendered(items[n - 1], false, dent);
        lemma_modes_agree_items(items, (n - 1) as nat, dent);
        lemma_modes_agree(items[n - 1], dent);
        lemma_squeezed_concat(prefix + seq![',', ' '], last);
        lemma_squeezed_concat(prefix, seq![',', ' ']);
        lemma_squeezed_spaces();
    }
}

proof fn lemma_modes_agree_entries(entries: Seq<(String, Value)>, n: nat, dent: nat)
    requires
        n <= entries.len(),
        plain_content_entries(entries, n),
    ensures
        squeezed(rendered_entries(entries, n, false, dent)) == rendered_entries(
            entries,
            n,
            true,
            dent,
        ),
    decreases entries, 0int, n,
{
    if n == 0 {
    } else {
        let key = quoted(entries[n - 1].0@);
        let val = rendered(entries[n - 1].1, false, dent);
        lemma_quoted_whitespace_free(entries[n - 1].0@);
        lemma_squeezed_id(key);
        lemma_modes_agree(entries[n - 1].1, dent);
        lemma_squeezed_spaces();
        lemma_squeezed_concat(key, seq![':', ' ']);
        lemma_squeezed_concat(key + seq![':', ' '], val);
        if n > 1 {
            let prefix = rendered_entries(entries, (n - 1) as nat, false, dent);
            lemma_modes_agree_entries(entries, (n - 1) as nat, dent);
            lemma_squeezed_line_break(dent);
            lemma_squeezed_concat(prefix, seq![','] + line_break(dent));
            lemma_squeezed_concat(seq![','], line_break(dent));
            lemma_squeezed_concat(prefix + (seq![','] + line_break(dent)), key);
            lemma_squeezed_concat(prefix + (seq![','] + line_break(dent)) + key, seq![':', ' ']);
            lemma_squeezed_concat(
                prefix + (seq![','] + line_break(dent)) + key + seq![':', ' '],
                val,
            );
            lemma_squeezed_singleton(',');
            assert(rendered_entries(entries, n, false, dent) =~= prefix + (seq![','] + line_break(
                dent,
            )) + key + seq![':', ' '] + val);
            assert(squeezed(rendered_entries(entries, n, false, dent)) =~= rendered_entries(
                entries,
                n,
                true,
                dent,
            ));
        }
    }
}

/// Mode agreement, the textual half of the round-trip property: for a tree
/// whose strings, keys and numbers carry no whitespace of their own, the
/// pretty rendering differs from the minified one only by the whitespace the
/// generator inserts — removing every space and newline from the pretty text
/// yields exactly the minified text, so both denote the same tree.
pub proof fn lemma_modes_agree(v: Value, dent: nat)
    requires
        plain_content(v),
    ensures
        squeezed(rendered(v, false, dent)) == rendered(v, true, dent),
    decreases v, 1int, 1nat,
{
    match v {
        Value::String(s) => {
            lemma_quoted_whitespace_free(s@);
            lemma_squeezed_id(quoted(s@));
        },
        Value::Number(n) => {
            lemma_squeezed_id(n@);
        },
        Value::Boolean(b) => {
            if b {
                lemma_squeezed_id(seq!['t', 'r', 'u', 'e']);
            } else {
                lemma_squeezed_id(seq!['f', 'a', 'l', 's', 'e']);
            }
        },
        Value::Null => {
            lemma_squeezed_id(seq!['n', 'u', 'l', 'l']);
        },
        Value::Array(items) => {
            let body = rendered_items(items@, items@.len(), false, dent);
            lemma_modes_agree_items(items@, items@.len(), dent);
            lemma_squeezed_concat(seq!['['], body);
            lemma_squeezed_concat(seq!['['] + body, seq![']']);
            lemma_squeezed_singleton('[');
            lemma_squeezed_singleton(']');
        },
        Value::Object(entries) => {
            if entries@.len() == 0 {
                lemma_squeezed_singleton('{');
                assert(seq!['{', '}'].drop_last() =~= seq!['{']);
                assert(squeezed(seq!['{', '}']) =~= seq!['{', '}']);
            } else {
                let body = rendered_entries(entries@, entries@.len(), false, dent + 1);
                lemma_modes_agree_entries(entries@, entries@.len(), dent + 1);
                lemma_squeezed_line_break(dent + 1);
                lemma_squeezed_line_break(dent);
                lemma_squeezed_concat(seq!['{'], line_break(dent + 1));
                lemma_squeezed_concat(seq!['{'] + line_break(dent + 1), body);
                lemma_squeezed_concat(seq!['{'] + line_break(dent + 1) + body, line_break(dent));
                lemma_squeezed_concat(
                    seq!['{'] + line_break(dent + 1) + body + line_break(dent),
                    seq!['}'],
                );
                lemma_squeezed_singleton('{');
                lemma_squeezed_singleton('}');
                assert(squeezed(rendered(v, false, dent)) =~= seq!['{'] + rendered_entries(
                    entries@,
                    entries@.len(),
                    true,
                    dent + 1,
                ) + seq!['}']);
            }
        },
    }
}

} // verus!
