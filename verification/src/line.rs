//! One line of text, held as its sequence of grapheme clusters, each
//! classified by display width and optional display substitution.

use vstd::prelude::*;
use vstd::string::StrSliceExecFns;
use crate::unicode::{
    graphemes_of, display_width_of, is_whitespace_char, is_control_char,
    split_graphemes, display_width, char_is_whitespace, char_is_control, push_char,
};

verus! {

/// How many terminal columns a grapheme cluster occupies when drawn.
#[derive(Clone, Copy, PartialEq, Eq, Structural, Debug)]
pub enum GraphemeWidth {
    Half,
    Full,
}

/// One grapheme cluster as it will be displayed: the original cluster, its
/// width class, and an optional substitute character shown in its place.
pub struct TextFragment {
    pub grapheme: String,
    pub rendered_width: GraphemeWidth,
    pub replacement: Option<char>,
}

/// A line of the document: an ordered sequence of text fragments whose
/// graphemes concatenate back to the line's text.
pub struct Line {
    pub fragments: Vec<TextFragment>,
}

/// True when every character of the cluster has the White_Space property.
pub open spec fn all_whitespace(g: Seq<char>) -> bool {
    forall|i: int| 0 <= i < g.len() ==> is_whitespace_char(#[trigger] g[i])
}

/// The substitute character displayed instead of a cluster, if any: a tab
/// shows as a space, zero-width whitespace as an underscore, a lone control
/// character as a placeholder box, and other zero-width content as a middle
/// dot.
pub open spec fn replacement_of(g: Seq<char>) -> Option<char> {
    if g == seq![' '] {
        None
    } else if g == seq!['\t'] {
        Some(' ')
    } else if display_width_of(g) > 0 && all_whitespace(g) {
        Some('_')
    } else if display_width_of(g) == 0 {
        if g.len() == 1 && is_control_char(g[0]) {
            Some('\u{25af}')
        } else {
            Some('\u{00b7}')
        }
    } else {
        None
    }
}

/// The width class of a cluster: any substituted cluster is Half, otherwise
/// the Unicode width decides (0 or 1 columns is Half, 2 or more is Full).
pub open spec fn width_class_of(g: Seq<char>) -> GraphemeWidth {
    if replacement_of(g) is Some {
        GraphemeWidth::Half
    } else if display_width_of(g) <= 1 {
        GraphemeWidth::Half
    } else {
        GraphemeWidth::Full
    }
}

impl TextFragment {
    /// The fragment's fields agree with the classification of its cluster.
    pub open spec fn wf(&self) -> bool {
        &&& self.grapheme@.len() > 0
        &&& self.replacement == replacement_of(self.grapheme@)
        &&& self.rendered_width == width_class_of(self.grapheme@)
    }

    /// Columns this fragment occupies: Half is one, Full is two.
    pub open spec fn width_cols(&self) -> nat {
        match self.rendered_width {
            GraphemeWidth::Half => 1,
            GraphemeWidth::Full => 2,
        }
    }
}

/// The sum of the column widths of a sequence of fragments.
pub open spec fn sum_widths(fs: Seq<TextFragment>) -> nat
    decreases fs.len(),
{
    if fs.len() == 0 {
        0
    } else {
        fs[0].width_cols() + sum_widths(fs.drop_first())
    }
}

/// The sum of widths of a prefix grows by the next fragment's width.
pub proof fn lemma_sum_widths_take_succ(fs: Seq<TextFragment>, i: int)
    requires
        0 <= i < fs.len(),
    ensures
        sum_widths(fs.take(i + 1)) == sum_widths(fs.take(i)) + fs[i].width_cols(),
    decreases i,
{
    if i == 0 {
        assert(fs.take(1).drop_first() =~= fs.take(0));
        assert(fs.take(0).len() == 0);
    } else {
        assert(fs.take(i + 1).drop_first() =~= fs.drop_first().take(i));
        assert(fs.take(i).drop_first() =~= fs.drop_first().take(i - 1));
        lemma_sum_widths_take_succ(fs.drop_first(), i - 1);
        assert(fs.take(i + 1)[0] == fs[0]);
        assert(fs.take(i)[0] == fs[0]);
    }
}

impl Line {
    /// The clusters of this line, in order.
    pub open spec fn grapheme_seq(&self) -> Seq<Seq<char>> {
        self.fragments@.map_values(|f: TextFragment| f.grapheme@)
    }

    /// The text of the line: its clusters concatenated.
    pub open spec fn text(&self) -> Seq<char> {
        self.grapheme_seq().flatten()
    }

    /// Every fragment is classified correctly and the fragments are exactly
    /// the grapheme segmentation of the line's text.
    pub open spec fn wf(&self) -> bool {
        &&& forall|i: int|
            0 <= i < self.fragments@.len() ==> (#[trigger] self.fragments@[i]).wf()
        &&& self.grapheme_seq() == graphemes_of(self.text())
    }

    /// The number of grapheme clusters in the line.
    pub open spec fn spec_grapheme_count(&self) -> nat {
        self.fragments@.len()
    }

    /// The display width of the first `k` clusters (all of them when `k`
    /// exceeds the cluster count).
    pub open spec fn spec_width_until(&self, k: int) -> nat {
        if k <= self.fragments@.len() as int {
            if k >= 0 {
                sum_widths(self.fragments@.take(k))
            } else {
                0
            }
        } else {
            sum_widths(self.fragments@)
        }
    }

    /// Builds a line from a string by segmenting it into grapheme clusters
    /// and classifying each one.  The clusters concatenate back to the input.
    pub fn from(line_str: &str) -> (l: Line)
        ensures
            l.wf(),
            l.text() == line_str@,
            l.grapheme_seq() == graphemes_of(line_str@),
    {
        let gs = split_graphemes(line_str);
        let mut fragments: Vec<TextFragment> = Vec::new();
        let mut i: usize = 0;
        while i < gs.len()
            invariant
                i <= gs.len(),
                gs.deep_view() == graphemes_of(line_str@),
                graphemes_of(line_str@).flatten() == line_str@,
                forall|j: int|
                    0 <= j < graphemes_of(line_str@).len()
                        ==> graphemes_of(line_str@)[j].len() > 0,
                fragments@.len() == i,
                forall|j: int| 0 <= j < i ==> (#[trigger] fragments@[j]).wf(),
                forall|j: int| 0 <= j < i ==> (#[trigger] fragments@[j]).grapheme@ == gs.deep_view()[j],
            decreases gs.len() - i,
        {
            let g: String = gs[i].clone();
            assert(g@ == gs.deep_view()[i as int]);
            let (replacement, rendered_width) = classify_grapheme(g.as_str());
            fragments.push(TextFragment { grapheme: g, rendered_width, replacement });
            i += 1;
        }
        let l = Line { fragments };
        assert(l.grapheme_seq() =~= graphemes_of(line_str@));
        l
    }

    /// The number of grapheme clusters.
    pub fn grapheme_count(&self) -> (n: usize)
        ensures
            n == self.spec_grapheme_count(),
    {
        self.fragments.len()
    }

    /// The display width of the first `grapheme_index` clusters, saturating
    /// at the machine limit.
    pub fn width_until(&self, grapheme_index: usize) -> (w: usize)
        ensures
            self.spec_width_until(grapheme_index as int) <= usize::MAX
                ==> w == self.spec_width_until(grapheme_index as int),
            self.spec_width_until(grapheme_index as int) > usize::MAX ==> w == usize::MAX,
    {
        let len = self.fragments.len();
        let upto = if grapheme_index < len {
            grapheme_index
        } else {
            len
        };
        let mut w: usize = 0;
        let mut i: usize = 0;
        proof {
            assert(self.fragments@.take(0).len() == 0);
        }
        while i < upto
            invariant
                i <= upto <= self.fragments@.len(),
                sum_widths(self.fragments@.take(i as int)) <= usize::MAX
                    ==> w == sum_widths(self.fragments@.take(i as int)),
                sum_widths(self.fragments@.take(i as int)) > usize::MAX ==> w == usize::MAX,
            decreases upto - i,
        {
            let step: usize = match self.fragments[i].rendered_width {
                GraphemeWidth::Half => 1,
                GraphemeWidth::Full => 2,
            };
            proof {
                lemma_sum_widths_take_succ(self.fragments@, i as int);
            }
            w = w.saturating_add(step);
            i += 1;
        }
        proof {
            if grapheme_index >= self.fragments@.len() {
                assert(self.fragments@.take(self.fragments@.len() as int) =~= self.fragments@);
            }
        }
        w
    }
}

/// The display substitution or clipping of one fragment whose left column is
/// `pos`, against the visible column range `[start, end)`: nothing when the
/// fragment ends at or before `start`, a single ellipsis marker when it
/// straddles either range boundary, otherwise its substitute character or its
/// whole cluster.
pub open spec fn fragment_piece(f: TextFragment, pos: nat, start: nat, end: nat) -> Seq<char> {
    let fe = pos + f.width_cols();
    if fe <= start {
        Seq::empty()
    } else if pos < start || fe > end {
        seq!['\u{2026}']
    } else {
        match f.replacement {
            Some(c) => seq![c],
            None => f.grapheme@,
        }
    }
}

/// The concatenation of the pieces of the fragments, walking left to right
/// from column `pos` and stopping once the walk reaches column `end`.
pub open spec fn visible_from(fs: Seq<TextFragment>, pos: nat, start: nat, end: nat) -> Seq<char>
    decreases fs.len(),
{
    if fs.len() == 0 || pos >= end {
        Seq::empty()
    } else {
        fragment_piece(fs[0], pos, start, end) + visible_from(
            fs.drop_first(),
            pos + fs[0].width_cols(),
            start,
            end,
        )
    }
}

/// What the visible column range `[start, end)` of a fragment sequence shows:
/// empty when the range is, otherwise the walk from column zero.
pub open spec fn visible_text(fs: Seq<TextFragment>, start: nat, end: nat) -> Seq<char> {
    if start >= end {
        Seq::empty()
    } else {
        visible_from(fs, 0, start, end)
    }
}

/// A grapheme cluster that straddles either edge of the visible range shows
/// as the single ellipsis marker: its own characters never appear cut in
/// half.
pub proof fn lemma_straddling_fragment_is_ellipsis(
    f: TextFragment,
    pos: nat,
    start: nat,
    end: nat,
)
    requires
        start <= end,
        (pos < start && pos + f.width_cols() > start) || (pos < end && pos + f.width_cols()
            > end),
    ensures
        fragment_piece(f, pos, start, end) == seq!['\u{2026}'],
{
}

/// The width of a prefix of the clusters never shrinks as the prefix grows.
pub proof fn lemma_width_until_monotone(l: &Line, i: int, j: int)
    requires
        0 <= i <= j,
    ensures
        l.spec_width_until(i) <= l.spec_width_until(j),
    decreases j - i,
{
    if i < j && j <= l.fragments@.len() {
        lemma_sum_widths_take_succ(l.fragments@, j - 1);
        lemma_width_until_monotone(l, i, j - 1);
    } else if i < j && i < l.fragments@.len() {
        assert(l.fragments@.take(l.fragments@.len() as int) =~= l.fragments@);
        lemma_width_until_monotone(l, i, l.fragments@.len() as int);
    } else if i < j {
        assert(l.fragments@.take(l.fragments@.len() as int) =~= l.fragments@);
    }
}

/// The text that results from inserting one character between the clusters
/// at position `i` of a cluster sequence.
pub open spec fn text_with_insert(gs: Seq<Seq<char>>, c: char, i: int) -> Seq<char> {
    gs.take(i).flatten() + seq![c] + gs.skip(i).flatten()
}

impl Line {
    /// The concatenation of the clusters with indices in `[from, to)`.
    fn graphemes_concat(&self, from: usize, to: usize) -> (s: String)
        requires
            from <= to <= self.fragments@.len(),
        ensures
            s@ == self.grapheme_seq().subrange(from as int, to as int).flatten(),
    {
        let mut s = String::new();
        let mut i: usize = from;
        proof {
            assert(self.grapheme_seq().subrange(from as int, from as int) =~= Seq::empty());
        }
        while i < to
            invariant
                from <= i <= to <= self.fragments@.len(),
                self.grapheme_seq().len() == self.fragments@.len(),
                s@ == self.grapheme_seq().subrange(from as int, i as int).flatten(),
            decreases to - i,
        {
            proof {
                assert(self.grapheme_seq().subrange(from as int, i + 1 as int)
                    =~= self.grapheme_seq().subrange(from as int, i as int).push(
                    self.grapheme_seq()[i as int],
                ));
                self.grapheme_seq().subrange(from as int, i as int).lemma_flatten_push(
                    self.grapheme_seq()[i as int],
                );
            }
            s.append(self.fragments[i].grapheme.as_str());
            i += 1;
        }
        s
    }

    /// The line's text as a string.
    pub fn text_string(&self) -> (s: String)
        ensures
            s@ == self.text(),
    {
        let s = self.graphemes_concat(0, self.fragments.len());
        proof {
            assert(self.grapheme_seq().subrange(0, self.fragments@.len() as int)
                =~= self.grapheme_seq());
        }
        s
    }

    /// The string shown for the visible column range `[start, end)`: clusters
    /// entirely left of the range are skipped, a cluster straddling a range
    /// boundary shows as a single ellipsis marker, and the rest show as their
    /// substitute character or their whole cluster.
    pub fn get_visible_graphemes(&self, start: usize, end: usize) -> (r: String)
        ensures
            r@ == visible_text(self.fragments@, start as nat, end as nat),
    {
        let mut result = String::new();
        if start >= end {
            return result;
        }
        let ghost fs = self.fragments@;
        let ghost mut gpos: nat = 0;
        let mut current_pos: usize = 0;
        let mut i: usize = 0;
        let len = self.fragments.len();
        proof {
            assert(fs.skip(0) =~= fs);
        }
        while i < len && current_pos < end
            invariant
                i <= len,
                len == fs.len(),
                fs == self.fragments@,
                start < end,
                gpos <= usize::MAX ==> current_pos == gpos,
                gpos > usize::MAX ==> current_pos == usize::MAX,
                visible_from(fs, 0, start as nat, end as nat) == result@ + visible_from(
                    fs.skip(i as int),
                    gpos,
                    start as nat,
                    end as nat,
                ),
            decreases len - i,
        {
            assert(gpos == current_pos);
            let f = &self.fragments[i];
            let fwidth: usize = match f.rendered_width {
                GraphemeWidth::Half => 1,
                GraphemeWidth::Full => 2,
            };
            proof {
                assert(fs.skip(i as int)[0] == fs[i as int]);
                assert(fs.skip(i as int).drop_first() =~= fs.skip(i + 1));
                assert(visible_from(fs.skip(i as int), gpos, start as nat, end as nat)
                    == fragment_piece(fs[i as int], gpos, start as nat, end as nat)
                    + visible_from(
                    fs.skip(i + 1),
                    gpos + fs[i as int].width_cols(),
                    start as nat,
                    end as nat,
                ));
            }
            if fwidth > usize::MAX - current_pos {
                // The true fragment end exceeds every possible range end, so
                // the fragment straddles the right edge of the range.
                push_char(&mut result, '\u{2026}');
                current_pos = usize::MAX;
            } else {
                let fragment_end = current_pos + fwidth;
                if fragment_end <= start {
                    assert(fragment_piece(fs[i as int], gpos, start as nat, end as nat)
                        =~= Seq::<char>::empty());
                } else if current_pos < start || fragment_end > end {
                    push_char(&mut result, '\u{2026}');
                } else {
                    match f.replacement {
                        Some(ch) => push_char(&mut result, ch),
                        None => result.append(f.grapheme.as_str()),
                    }
                }
                current_pos = fragment_end;
            }
            proof {
                gpos = gpos + fs[i as int].width_cols();
            }
            i += 1;
        }
        proof {
            if i == len {
                assert(fs.skip(len as int) =~= Seq::<TextFragment>::empty());
            } else {
                assert(current_pos >= end);
                assert(gpos >= end);
            }
            assert(result@ + Seq::<char>::empty() =~= result@);
        }
        result
    }

    /// Inserts one character between the clusters at `grapheme_index` (at the
    /// end when the index is at or past the cluster count), then re-segments
    /// and re-classifies the whole line.
    pub fn insert_char(&mut self, character: char, grapheme_index: usize)
        ensures
            final(self).wf(),
            final(self).text() == text_with_insert(
                old(self).grapheme_seq(),
                character,
                if grapheme_index <= old(self).spec_grapheme_count() {
                    grapheme_index as int
                } else {
                    old(self).spec_grapheme_count() as int
                },
            ),
            grapheme_index >= old(self).spec_grapheme_count() ==> final(self).text() == old(
                self,
            ).text().push(character),
            grapheme_index == 0 ==> final(self).text() == seq![character] + old(self).text(),
    {
        let count = self.fragments.len();
        let at = if grapheme_index < count {
            grapheme_index
        } else {
            count
        };
        let ghost gs = self.grapheme_seq();
        let mut result = self.graphemes_concat(0, at);
        push_char(&mut result, character);
        let rest = self.graphemes_concat(at, count);
        result.append(rest.as_str());
        proof {
            assert(gs.subrange(0, at as int) =~= gs.take(at as int));
            assert(gs.subrange(at as int, count as int) =~= gs.skip(at as int));
            assert(result@ =~= text_with_insert(gs, character, at as int));
            if grapheme_index >= count {
                assert(gs.take(count as int) =~= gs);
                assert(gs.skip(count as int) =~= Seq::<Seq<char>>::empty());
                assert(text_with_insert(gs, character, count as int) =~= gs.flatten().push(
                    character,
                ));
            }
            if grapheme_index == 0 {
                assert(gs.take(0) =~= Seq::<Seq<char>>::empty());
                assert(gs.skip(0) =~= gs);
                assert(text_with_insert(gs, character, 0) =~= seq![character] + gs.flatten());
            }
        }
        *self = Line::from(result.as_str());
    }

    /// Removes the cluster at `grapheme_index`, then re-segments and
    /// re-classifies the whole line.
    pub fn remove_grapheme(&mut self, grapheme_index: usize)
        requires
            grapheme_index < old(self).spec_grapheme_count(),
        ensures
            final(self).wf(),
            final(self).text() == old(self).grapheme_seq().remove(
                grapheme_index as int,
            ).flatten(),
    {
        let count = self.fragments.len();
        let ghost gs = self.grapheme_seq();
        let mut result = self.graphemes_concat(0, grapheme_index);
        let rest = self.graphemes_concat(grapheme_index + 1, count);
        result.append(rest.as_str());
        proof {
            assert(gs.remove(grapheme_index as int) =~= gs.subrange(0, grapheme_index as int)
                + gs.subrange(grapheme_index + 1, count as int));
            vstd::seq_lib::lemma_flatten_concat(
                gs.subrange(0, grapheme_index as int),
                gs.subrange(grapheme_index + 1, count as int),
            );
        }
        *self = Line::from(result.as_str());
    }

    /// Cuts the line at `grapheme_index` (clamped to the cluster count): the
    /// line keeps the clusters before the cut and the returned line holds the
    /// clusters from the cut onward, both re-segmented.
    pub fn split_off(&mut self, grapheme_index: usize) -> (rest: Line)
        ensures
            final(self).wf(),
            rest.wf(),
            final(self).text() == old(self).grapheme_seq().take(
                if grapheme_index <= old(self).spec_grapheme_count() {
                    grapheme_index as int
                } else {
                    old(self).spec_grapheme_count() as int
                },
            ).flatten(),
            rest.text() == old(self).grapheme_seq().skip(
                if grapheme_index <= old(self).spec_grapheme_count() {
                    grapheme_index as int
                } else {
                    old(self).spec_grapheme_count() as int
                },
            ).flatten(),
    {
        let count = self.fragments.len();
        let at = if grapheme_index < count {
            grapheme_index
        } else {
            count
        };
        let ghost gs = self.grapheme_seq();
        let head = self.graphemes_concat(0, at);
        let tail = self.graphemes_concat(at, count);
        proof {
            assert(gs.subrange(0, at as int) =~= gs.take(at as int));
            assert(gs.subrange(at as int, count as int) =~= gs.skip(at as int));
        }
        let rest = Line::from(tail.as_str());
        *self = Line::from(head.as_str());
        rest
    }

    /// Appends the other line's text to this line, re-segmenting the result
    /// (a cluster can span the join point).
    pub fn append_line(&mut self, other: &Line)
        ensures
            final(self).wf(),
            final(self).text() == old(self).text() + other.text(),
    {
        let mut combined = self.text_string();
        let tail = other.text_string();
        combined.append(tail.as_str());
        *self = Line::from(combined.as_str());
    }
}

/// Inserting one character between a line's clusters and then removing the
/// cluster at that position restores the original text, and re-segmenting
/// that text restores the original cluster sequence — whenever the inserted
/// character segments as a cluster of its own there, rather than merging
/// into a neighbouring cluster.
pub proof fn lemma_insert_then_remove_round_trip(l: Line, c: char, i: int)
    requires
        l.wf(),
        0 <= i <= l.spec_grapheme_count(),
        graphemes_of(text_with_insert(l.grapheme_seq(), c, i)) == l.grapheme_seq().insert(
            i,
            seq![c],
        ),
    ensures
        l.grapheme_seq().insert(i, seq![c]).remove(i).flatten() == l.text(),
        graphemes_of(l.grapheme_seq().insert(i, seq![c]).remove(i).flatten())
            == l.grapheme_seq(),
{
    assert(l.grapheme_seq().insert(i, seq![c]).remove(i) =~= l.grapheme_seq());
}

/// True exactly when every character of the string is whitespace.
fn str_all_whitespace(g: &str) -> (r: bool)
    ensures
        r == all_whitespace(g@),
{
    let len = g.unicode_len();
    let mut i: usize = 0;
    while i < len
        invariant
            i <= len,
            len == g@.len(),
            forall|j: int| 0 <= j < i ==> is_whitespace_char(#[trigger] g@[j]),
        decreases len - i,
    {
        if !char_is_whitespace(g.get_char(i)) {
            return false;
        }
        i += 1;
    }
    true
}

/// Classifies one grapheme cluster: its optional substitute character and
/// its width class.
fn classify_grapheme(g: &str) -> (r: (Option<char>, GraphemeWidth))
    requires
        g@.len() > 0,
    ensures
        r.0 == replacement_of(g@),
        r.1 == width_class_of(g@),
{
    let len = g.unicode_len();
    let w = display_width(g);
    if len == 1 && g.get_char(0) == ' ' {
        proof {
            assert(g@ =~= seq![' ']);
        }
        (None, if w <= 1 { GraphemeWidth::Half } else { GraphemeWidth::Full })
    } else if len == 1 && g.get_char(0) == '\t' {
        proof {
            assert(g@ =~= seq!['\t']);
            assert(g@ != seq![' ']) by {
                assert(g@[0] == '\t');
                assert(seq![' '][0] == ' ');
            }
        }
        (Some(' '), GraphemeWidth::Half)
    } else if w > 0 && str_all_whitespace(g) {
        proof {
            lemma_not_space_or_tab(g@, len, w);
        }
        (Some('_'), GraphemeWidth::Half)
    } else if w == 0 {
        proof {
            lemma_not_space_or_tab(g@, len, w);
        }
        if len == 1 && char_is_control(g.get_char(0)) {
            (Some('\u{25af}'), GraphemeWidth::Half)
        } else {
            (Some('\u{00b7}'), GraphemeWidth::Half)
        }
    } else {
        proof {
            lemma_not_space_or_tab(g@, len, w);
        }
        (None, if w <= 1 { GraphemeWidth::Half } else { GraphemeWidth::Full })
    }
}

/// In the branches after the first two, the cluster is neither a lone space
/// nor a lone tab, so the spec classification falls through those cases too.
proof fn lemma_not_space_or_tab(g: Seq<char>, len: usize, w: usize)
    requires
        g.len() == len,
        w as nat == display_width_of(g),
        !(len == 1 && g[0] == ' '),
        !(len == 1 && g[0] == '\t'),
    ensures
        g != seq![' '],
        g != seq!['\t'],
{
    if g == seq![' '] {
        assert(g.len() == 1 && g[0] == ' ');
    }
    if g == seq!['\t'] {
        assert(g.len() == 1 && g[0] == '\t');
    }
}

} // verus!
