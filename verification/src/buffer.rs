//! The document: an ordered sequence of lines, with loading from text
//! content and the three structural edits (insert a character, break a line,
//! delete forward).

use vstd::prelude::*;
use vstd::string::StrSliceExecFns;
use crate::line::{Line, text_with_insert};
use crate::screen::Location;
use crate::unicode::push_char;

verus! {

/// A document as a sequence of lines.
pub struct Buffer {
    pub lines: Vec<Line>,
}

/// The index of the first line feed in `s`, or `s.len()` when there is none.
pub open spec fn first_newline(s: Seq<char>) -> int
    decreases s.len(),
{
    if s.len() == 0 {
        0
    } else if s[0] == '\n' {
        0
    } else {
        1 + first_newline(s.drop_first())
    }
}

/// The rows of a text: the segments between line feeds, with no extra empty
/// row for a trailing line feed.
pub open spec fn split_lines(s: Seq<char>) -> Seq<Seq<char>>
    decreases s.len(),
{
    if s.len() == 0 {
        Seq::empty()
    } else {
        let k = first_newline(s);
        if 0 <= k < s.len() {
            seq![s.take(k)] + split_lines(s.skip(k + 1))
        } else {
            seq![s]
        }
    }
}

/// `first_newline` finds exactly the position of the first line feed.
proof fn lemma_first_newline_at(s: Seq<char>, k: int)
    requires
        0 <= k <= s.len(),
        forall|m: int| 0 <= m < k ==> s[m] != '\n',
        k < s.len() ==> s[k] == '\n',
    ensures
        first_newline(s) == k,
    decreases k,
{
    if s.len() != 0 && s[0] != '\n' {
        lemma_first_newline_at(s.drop_first(), k - 1);
    }
}

/// `i`, or `len` when `i` lies beyond it.
pub open spec fn clamp_to(i: int, len: int) -> int {
    if i <= len {
        i
    } else {
        len
    }
}

/// The line texts after inserting character `c` at a location: within an
/// existing line the character lands between that line's clusters (the
/// grapheme index clamped to the cluster count); one line past the end a new
/// one-character line appears; farther out nothing changes.
pub open spec fn spec_texts_after_insert(b: Buffer, c: char, at: Location) -> Seq<Seq<char>> {
    let li = at.line_index as int;
    if li < b.lines@.len() {
        b.texts().update(
            li,
            text_with_insert(
                b.lines@[li].grapheme_seq(),
                c,
                clamp_to(at.grapheme_index as int, b.lines@[li].spec_grapheme_count() as int),
            ),
        )
    } else if li == b.lines@.len() {
        b.texts().push(seq![c])
    } else {
        b.texts()
    }
}

/// The line texts after breaking a line at a location: the line splits at
/// the grapheme index (clamped to its cluster count), the tail becoming the
/// next line; one line past the end an empty line appears; farther out
/// nothing changes.
pub open spec fn spec_texts_after_newline(b: Buffer, at: Location) -> Seq<Seq<char>> {
    let li = at.line_index as int;
    if li < b.lines@.len() {
        let cut = clamp_to(at.grapheme_index as int, b.lines@[li].spec_grapheme_count() as int);
        b.texts().update(li, b.lines@[li].grapheme_seq().take(cut).flatten()).insert(
            li + 1,
            b.lines@[li].grapheme_seq().skip(cut).flatten(),
        )
    } else if li == b.lines@.len() {
        b.texts().push(Seq::empty())
    } else {
        b.texts()
    }
}

/// The line texts after deleting forward at a location: within a line the
/// addressed cluster disappears; at end of line the next line joins on; at
/// or past the very end of the document nothing changes.
pub open spec fn spec_texts_after_delete(b: Buffer, at: Location) -> Seq<Seq<char>> {
    let li = at.line_index as int;
    if li < b.lines@.len() {
        if (at.grapheme_index as int) < b.lines@[li].spec_grapheme_count() {
            b.texts().update(li, b.lines@[li].grapheme_seq().remove(at.grapheme_index as int).flatten())
        } else if li + 1 < b.lines@.len() {
            b.texts().update(li, b.lines@[li].text() + b.lines@[li + 1].text()).remove(li + 1)
        } else {
            b.texts()
        }
    } else {
        b.texts()
    }
}

impl Buffer {
    /// Every line of the buffer is well formed.
    pub open spec fn wf(&self) -> bool {
        forall|i: int| 0 <= i < self.lines@.len() ==> (#[trigger] self.lines@[i]).wf()
    }

    /// The text of each line, in order.
    pub open spec fn texts(&self) -> Seq<Seq<char>> {
        self.lines@.map_values(|l: Line| l.text())
    }

    /// The number of lines.
    pub open spec fn spec_height(&self) -> nat {
        self.lines@.len()
    }

    /// An empty document.
    pub fn new() -> (b: Buffer)
        ensures
            b.wf(),
            b.spec_height() == 0,
    {
        let b = Buffer { lines: Vec::new() };
        proof {
            assert(b.texts() =~= Seq::<Seq<char>>::empty());
        }
        b
    }

    /// Builds a buffer from text content: one line per row of the content,
    /// split at line feeds, with no extra empty line for a trailing line
    /// feed.  Line endings other than a bare line feed get no special
    /// treatment: a carriage return stays part of its row's text.
    pub fn load(contents: &str) -> (b: Buffer)
        ensures
            b.wf(),
            b.texts() == split_lines(contents@),
    {
        let ghost s = contents@;
        let len = contents.unicode_len();
        let mut lines: Vec<Line> = Vec::new();
        let mut cur = String::new();
        let mut i: usize = 0;
        let ghost mut j: int = 0;
        proof {
            assert(s.skip(0) =~= s);
            assert(cur@ =~= s.subrange(0, 0));
            assert(lines@.map_values(|l: Line| l.text()) =~= Seq::<Seq<char>>::empty());
        }
        while i < len
            invariant
                0 <= j <= i <= len,
                len == s.len(),
                s == contents@,
                cur@ == s.subrange(j, i as int),
                forall|m: int| j <= m < i ==> s[m] != '\n',
                forall|k: int| 0 <= k < lines@.len() ==> (#[trigger] lines@[k]).wf(),
                split_lines(s) == lines@.map_values(|l: Line| l.text()) + split_lines(s.skip(j)),
            decreases len - i,
        {
            let c = contents.get_char(i);
            if c == '\n' {
                proof {
                    let u = s.skip(j);
                    assert(forall|m: int| 0 <= m < i - j ==> u[m] == s[m + j] && u[m] != '\n');
                    assert(u[i - j] == '\n');
                    lemma_first_newline_at(u, i - j);
                    assert(u.take(i - j) =~= s.subrange(j, i as int));
                    assert(u.skip(i - j + 1) =~= s.skip(i + 1));
                }
                let ghost old_lines = lines@;
                let line = Line::from(cur.as_str());
                lines.push(line);
                cur = String::new();
                proof {
                    assert(lines@.map_values(|l: Line| l.text()) =~= old_lines.map_values(
                        |l: Line| l.text(),
                    ).push(line.text()));
                    assert(old_lines.map_values(|l: Line| l.text()).push(line.text())
                        + split_lines(s.skip(i + 1)) =~= old_lines.map_values(|l: Line| l.text())
                        + (seq![line.text()] + split_lines(s.skip(i + 1))));
                    j = i + 1;
                    assert(cur@ =~= s.subrange(j, i + 1));
                }
            } else {
                push_char(&mut cur, c);
                proof {
                    assert(cur@ =~= s.subrange(j, i + 1));
                }
            }
            i += 1;
        }
        proof {
            if j == len {
                assert(s.skip(j).len() == 0);
                assert(cur@.len() == 0);
            } else {
                let u = s.skip(j);
                assert(forall|m: int| 0 <= m < u.len() ==> u[m] == s[m + j] && u[m] != '\n');
                lemma_first_newline_at(u, u.len() as int);
                assert(u.take(u.len() as int) =~= u);
                assert(u =~= s.subrange(j, len as int));
                assert(cur@.len() > 0);
            }
        }
        if !cur.as_str().is_empty() {
            let ghost old_lines = lines@;
            let line = Line::from(cur.as_str());
            lines.push(line);
            proof {
                assert(lines@.map_values(|l: Line| l.text()) =~= old_lines.map_values(
                    |l: Line| l.text(),
                ).push(line.text()));
                assert(old_lines.map_values(|l: Line| l.text()).push(line.text())
                    =~= old_lines.map_values(|l: Line| l.text()) + seq![line.text()]);
            }
        }
        let b = Buffer { lines };
        proof {
            assert(b.texts() =~= split_lines(s));
        }
        b
    }

    /// True exactly when the document has no lines.
    pub fn is_empty(&self) -> (r: bool)
        ensures
            r == (self.spec_height() == 0),
    {
        self.lines.is_empty()
    }

    /// The number of lines of the document.
    pub fn height(&self) -> (h: usize)
        ensures
            h == self.spec_height(),
    {
        self.lines.len()
    }

    /// Inserts one character at a logical location.  Within an existing line
    /// the line is edited; at the line index just past the last line a new
    /// line holding the character is appended (so typing into an empty
    /// document works); past that the buffer is unchanged.  Never panics.
    pub fn insert_char(&mut self, character: char, at: Location)
        requires
            old(self).wf(),
        ensures
            final(self).wf(),
            final(self).texts() == spec_texts_after_insert(*old(self), character, at),
    {
        let height = self.lines.len();
        if at.line_index < height {
            let line = &mut self.lines[at.line_index];
            line.insert_char(character, at.grapheme_index);
            proof {
                assert(self.texts() =~= old(self).texts().update(
                    at.line_index as int,
                    self.lines@[at.line_index as int].text(),
                ));
            }
        } else if at.line_index == height {
            let mut s = String::new();
            push_char(&mut s, character);
            proof {
                assert(s@ =~= seq![character]);
            }
            let line = Line::from(s.as_str());
            self.lines.push(line);
            proof {
                assert(self.texts() =~= old(self).texts().push(seq![character]));
            }
        } else {
            proof {
                assert(self.texts() =~= old(self).texts());
            }
        }
    }

    /// Breaks the line at the location in two at the grapheme index (clamped
    /// to the line's cluster count), the tail becoming a new line right after
    /// it.  At the line index just past the last line an empty line is
    /// appended; past that the buffer is unchanged.  Never panics.
    pub fn insert_newline(&mut self, at: Location)
        requires
            old(self).wf(),
        ensures
            final(self).wf(),
            final(self).texts() == spec_texts_after_newline(*old(self), at),
    {
        let height = self.lines.len();
        if at.line_index < height {
            let line = &mut self.lines[at.line_index];
            let rest = line.split_off(at.grapheme_index);
            self.lines.insert(at.line_index + 1, rest);
            proof {
                assert(self.texts() =~= old(self).texts().update(
                    at.line_index as int,
                    self.lines@[at.line_index as int].text(),
                ).insert(at.line_index + 1, self.lines@[at.line_index + 1].text()));
            }
        } else if at.line_index == height {
            let line = Line::from("");
            proof {
                reveal_strlit("");
                assert(""@ =~= Seq::<char>::empty());
            }
            self.lines.push(line);
            proof {
                assert(self.texts() =~= old(self).texts().push(Seq::empty()));
            }
        } else {
            proof {
                assert(self.texts() =~= old(self).texts());
            }
        }
    }

    /// Deletes forward at a logical location: within a line the addressed
    /// cluster is removed; at end of line the next line is joined onto it; at
    /// the very end of the document, or past it, nothing changes.  Never
    /// panics.
    pub fn delete(&mut self, at: Location)
        requires
            old(self).wf(),
        ensures
            final(self).wf(),
            final(self).texts() == spec_texts_after_delete(*old(self), at),
    {
        let height = self.lines.len();
        if at.line_index < height {
            let count = self.lines[at.line_index].grapheme_count();
            if at.grapheme_index < count {
                let line = &mut self.lines[at.line_index];
                line.remove_grapheme(at.grapheme_index);
                proof {
                    assert(self.texts() =~= old(self).texts().update(
                        at.line_index as int,
                        self.lines@[at.line_index as int].text(),
                    ));
                }
            } else if at.line_index + 1 < height {
                let next = self.lines.remove(at.line_index + 1);
                let line = &mut self.lines[at.line_index];
                line.append_line(&next);
                proof {
                    assert(self.texts() =~= old(self).texts().update(
                        at.line_index as int,
                        old(self).lines@[at.line_index as int].text() + old(self).lines@[
                            at.line_index + 1
                        ].text(),
                    ).remove(at.line_index + 1));
                }
            } else {
                proof {
                    assert(self.texts() =~= old(self).texts());
                }
            }
        } else {
            proof {
                assert(self.texts() =~= old(self).texts());
            }
        }
    }
}

} // verus!
