//! The verified JSON generator: an output buffer plus an indentation depth,
//! driven over a [`Value`] tree by [`Generator::write_json`].

use crate::value::{
    body_break, escaped, lemma_nest_depth_entries_bound, lemma_nest_depth_items_bound, line_break,
    nest_depth, quoted, rendered, rendered_entries, rendered_items, Value,
};
use vstd::prelude::*;
use vstd::string::StrSliceExecFns;

verus! {

/// Relies on `std::string::String::push`: appends the given character to
/// the end of the string.
pub assume_specification[ std::string::String::push ](s: &mut String, ch: char)
    ensures
        final(s)@ == old(s)@.push(ch),
;

/// Relies on `std::string::String::push_str`: appends the given string
/// slice to the end of the string.
pub assume_specification[ std::string::String::push_str ](s: &mut String, string: &str)
    ensures
        final(s)@ == old(s)@ + string@,
;

/// Renders a [`Value`] tree into an output buffer it owns, either minified
/// or pretty-printed, tracking the current object-nesting indentation depth.
/// A generator is created fresh for one rendering and consumed once for its
/// text.
pub struct Generator {
    pub minify: bool,
    code: String,
    dent: u16,
}

impl Generator {
    /// Whether the generator is in minified mode.
    pub closed spec fn spec_minify(self) -> bool {
        self.minify
    }

    /// The text accumulated in the output buffer so far.
    pub closed spec fn text(self) -> Seq<char> {
        self.code@
    }

    /// The current indentation depth: the number of object levels open.
    pub closed spec fn depth(self) -> nat {
        self.dent as nat
    }

    /// A fresh generator for one rendering: empty buffer, depth zero.
    pub fn new(minify: bool) -> (g: Generator)
        ensures
            g.spec_minify() == minify,
            g.text() == Seq::<char>::empty(),
            g.depth() == 0,
    {
        Generator { minify, code: String::new(), dent: 0 }
    }

    /// Appends a slice to the buffer verbatim.
    pub fn write(&mut self, slice: &str)
        ensures
            final(self).spec_minify() == old(self).spec_minify(),
            final(self).depth() == old(self).depth(),
            final(self).text() == old(self).text() + slice@,
    {
        self.code.push_str(slice);
    }

    /// Appends `slice` in pretty mode and `minslice` in minified mode.
    pub fn write_min(&mut self, slice: &str, minslice: &str)
        ensures
            final(self).spec_minify() == old(self).spec_minify(),
            final(self).depth() == old(self).depth(),
            final(self).text() == old(self).text() + (if old(self).spec_minify() {
                minslice@
            } else {
                slice@
            }),
    {
        if self.minify {
            self.write(minslice);
        } else {
            self.write(slice);
        }
    }

    /// Appends one character to the buffer verbatim.
    pub fn write_char(&mut self, ch: char)
        ensures
            final(self).spec_minify() == old(self).spec_minify(),
            final(self).depth() == old(self).depth(),
            final(self).text() == old(self).text() + seq![ch],
    {
        self.code.push(ch);
    }

    /// Starts a new line in pretty mode: a newline and four spaces per level
    /// of indentation depth. In minified mode this appends nothing.
    pub fn new_line(&mut self)
        ensures
            final(self).spec_minify() == old(self).spec_minify(),
            final(self).depth() == old(self).depth(),
            final(self).text() == old(self).text() + (if old(self).spec_minify() {
                Seq::<char>::empty()
            } else {
                line_break(old(self).depth())
            }),
    {
        if !self.minify {
            self.code.push('\n');
            let mut i: u16 = 0;
            while i < self.dent
                invariant
                    i <= self.dent,
                    self.code@ == old(self).code@ + line_break(i as nat),
                    self.minify == old(self).spec_minify(),
                    self.dent == old(self).dent,
                decreases self.dent - i,
            {
                self.code.push(' ');
                self.code.push(' ');
                self.code.push(' ');
                self.code.push(' ');
                proof {
                    assert(old(self).code@ + line_break((i + 1) as nat) =~= self.code@);
                }
                i = i + 1;
            }
        }
    }

    /// Opens one level of indentation.
    pub fn indent(&mut self)
        requires
            old(self).depth() < u16::MAX,
        ensures
            final(self).spec_minify() == old(self).spec_minify(),
            final(self).text() == old(self).text(),
            final(self).depth() == old(self).depth() + 1,
    {
        self.dent += 1;
    }

    /// Closes one level of indentation. Every call is paired with an earlier
    /// [`Generator::indent`], so the depth never drops below zero.
    pub fn dedent(&mut self)
        requires
            old(self).depth() > 0,
        ensures
            final(self).spec_minify() == old(self).spec_minify(),
            final(self).text() == old(self).text(),
            final(self).depth() == old(self).depth() - 1,
    {
        self.dent -= 1;
    }

    /// Appends a quoted JSON string: the slice's characters between
    /// double-quotes, each escaped as [`crate::value::escaped_char`] prescribes.
    fn write_string(&mut self, s: &str)
        ensures
            final(self).spec_minify() == old(self).spec_minify(),
            final(self).depth() == old(self).depth(),
            final(self).text() == old(self).text() + quoted(s@),
    {
        self.write_char('"');
        let len: usize = s.unicode_len();
        let mut i: usize = 0;
        while i < len
            invariant
                i <= len,
                len == s@.len(),
                self.spec_minify() == old(self).spec_minify(),
                self.depth() == old(self).depth(),
                self.text() == old(self).text() + seq!['"'] + escaped(s@.take(i as int)),
            decreases len - i,
        {
            let ch = s.get_char(i);
            if ch == '\\' || ch == '/' || ch == '"' {
                self.write_char('\\');
                self.write_char(ch);
            } else if ch == '\n' {
                self.write_char('\\');
                self.write_char('n');
            } else if ch == '\r' {
                self.write_char('\\');
                self.write_char('r');
            } else if ch == '\t' {
                self.write_char('\\');
                self.write_char('t');
            } else if ch == '\u{000C}' {
                self.write_char('\\');
                self.write_char('f');
            } else if ch == '\u{0008}' {
                self.write_char('\\');
                self.write_char('b');
            } else {
                self.write_char(ch);
            }
            proof {
                assert(s@.take(i + 1).drop_last() =~= s@.take(i as int));
                assert(s@.take(i + 1).last() == s@[i as int]);
                assert(self.text() =~= old(self).text() + seq!['"'] + escaped(s@.take(i + 1)));
            }
            i = i + 1;
        }
        self.write_char('"');
        proof {
            assert(s@.take(len as int) =~= s@);
            assert(self.text() =~= old(self).text() + quoted(s@));
        }
    }

    /// Renders a value tree into the buffer: the text appended is exactly
    /// [`rendered`] for the tree, in the generator's mode, at its current
    /// indentation depth, which is restored by the time the call returns.
    #[verifier::loop_isolation(false)]
    #[verifier::rlimit(60)]
    pub fn write_json(&mut self, json: &Value)
        requires
            old(self).depth() + nest_depth(*json) <= u16::MAX,
        ensures
            final(self).spec_minify() == old(self).spec_minify(),
            final(self).depth() == old(self).depth(),
            final(self).text() == old(self).text() + rendered(
                *json,
                old(self).spec_minify(),
                old(self).depth(),
            ),
        decreases *json,
    {
        match json {
            Value::String(string) => {
                self.write_string(string.as_str());
            },
            Value::Number(number) => {
                self.write(number.as_str());
            },
            Value::Boolean(value) => {
                if *value {
                    self.write("true");
                } else {
                    self.write("false");
                }
                proof {
                    reveal_strlit("true");
                    reveal_strlit("false");
                    assert("true"@ =~= seq!['t', 'r', 'u', 'e']);
                    assert("false"@ =~= seq!['f', 'a', 'l', 's', 'e']);
                }
            },
            Value::Null => {
                self.write("null");
                proof {
                    reveal_strlit("null");
                    assert("null"@ =~= seq!['n', 'u', 'l', 'l']);
                }
            },
            Value::Array(array) => {
                self.write_char('[');
                let n: usize = array.len();
                let mut i: usize = 0;
                while i < n
                    invariant
                        i <= n,
                        self.spec_minify() == old(self).spec_minify(),
                        self.depth() == old(self).depth(),
                        self.text() == old(self).text() + seq!['['] + rendered_items(
                            array@,
                            i as nat,
                            old(self).spec_minify(),
                            old(self).depth(),
                        ),
                    decreases n - i,
                {
                    if i > 0 {
                        self.write_min(", ", ",");
                        proof {
                            reveal_strlit(", ");
                            reveal_strlit(",");
                            assert(", "@ =~= seq![',', ' ']);
                            assert(","@ =~= seq![',']);
                        }
                    }
                    proof {
                        lemma_nest_depth_items_bound(array@, n as nat, i as int);
                    }
                    self.write_json(&array[i]);
                    proof {
                        assert(self.text() =~= old(self).text() + seq!['['] + rendered_items(
                            array@,
                            (i + 1) as nat,
                            old(self).spec_minify(),
                            old(self).depth(),
                        ));
                    }
                    i = i + 1;
                }
                self.write_char(']');
                proof {
                    assert(self.text() =~= old(self).text() + rendered(
                        *json,
                        old(self).spec_minify(),
                        old(self).depth(),
                    ));
                }
            },
            Value::Object(object) => {
                self.write_char('{');
                let n: usize = object.len();
                if n > 0 {
                    self.indent();
                    self.new_line();
                    let mut i: usize = 0;
                    while i < n
                        invariant
                            i <= n,
                            self.spec_minify() == old(self).spec_minify(),
                            self.depth() == old(self).depth() + 1,
                            self.text() == old(self).text() + seq!['{'] + body_break(
                                old(self).spec_minify(),
                                old(self).depth() + 1,
                            ) + rendered_entries(
                                object@,
                                i as nat,
                                old(self).spec_minify(),
                                old(self).depth() + 1,
                            ),
                        decreases n - i,
                    {
                        if i > 0 {
                            self.write(",");
                            self.new_line();
                            proof {
                                reveal_strlit(",");
                                assert(","@ =~= seq![',']);
                            }
                        }
                        let entry = &object[i];
                        self.write_string(entry.0.as_str());
                        self.write_min(": ", ":");
                        proof {
                            reveal_strlit(": ");
                            reveal_strlit(":");
                            assert(": "@ =~= seq![':', ' ']);
                            assert(":"@ =~= seq![':']);
                            lemma_nest_depth_entries_bound(object@, n as nat, i as int);
                            assert(decreases_to!(*json => object@[i as int].1));
                        }
                        self.write_json(&entry.1);
                        proof {
                            assert(self.text() =~= old(self).text() + seq!['{'] + body_break(
                                old(self).spec_minify(),
                                old(self).depth() + 1,
                            ) + rendered_entries(
                                object@,
                                (i + 1) as nat,
                                old(self).spec_minify(),
                                old(self).depth() + 1,
                            ));
                        }
                        i = i + 1;
                    }
                    self.dedent();
                    self.new_line();
                }
                self.write_char('}');
                proof {
                    assert(self.text() =~= old(self).text() + rendered(
                        *json,
                        old(self).spec_minify(),
                        old(self).depth(),
                    ));
                }
            },
        }
    }

    /// Consumes the generator and yields the accumulated text.
    pub fn consume(self) -> (r: String)
        ensures
            r@ == self.text(),
    {
        self.code
    }
}

} // verus!
