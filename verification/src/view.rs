//! The view engine: the cursor's logical location, the scroll offset and the
//! viewport size, the mapping from logical positions to screen coordinates,
//! and the rendering of the visible slice of the buffer into row strings.

use vstd::prelude::*;
use crate::buffer::{
    Buffer, spec_texts_after_insert, spec_texts_after_newline, spec_texts_after_delete,
    split_lines,
};
use crate::line::visible_text;
use crate::screen::{Location, Position, Size, cap_add, floor_sub};
use crate::editorcommand::{Direction, EditorCommand};
use crate::unicode::push_char;
use vstd::string::StringExecFns;
use vstd::view::View as _;

verus! {

/// The grapheme-cluster count of line `li` of a buffer, zero for a line
/// index outside the document.
pub open spec fn spec_count(b: Buffer, li: int) -> nat {
    if 0 <= li < b.lines@.len() {
        b.lines@[li].spec_grapheme_count()
    } else {
        0
    }
}

/// The display column of the cursor: the width of the clusters left of it,
/// capped at the machine word (zero for a line index outside the document).
pub open spec fn spec_caret_col(b: Buffer, loc: Location) -> int {
    if (loc.line_index as int) < b.lines@.len() {
        let w = b.lines@[loc.line_index as int].spec_width_until(loc.grapheme_index as int);
        if w > usize::MAX {
            usize::MAX as int
        } else {
            w as int
        }
    } else {
        0
    }
}

/// Where one scroll coordinate lands so that the target `to` is visible in a
/// window of `extent` cells starting at `off`: unchanged when already
/// visible, else the nearest offset that shows it.
pub open spec fn spec_scrolled(off: int, extent: int, to: int) -> int {
    if to < off {
        to
    } else if to >= cap_add(off, extent) {
        if extent == 0 {
            to
        } else {
            cap_add(floor_sub(to, extent), 1)
        }
    } else {
        off
    }
}

/// Recomputing a scroll coordinate for the same window and target a second
/// time changes nothing: one recomputation already shows the target as well
/// as the window can, so redundant recomputations are idempotent.
pub proof fn lemma_scrolled_idempotent(off: int, extent: int, to: int)
    requires
        0 <= off <= usize::MAX,
        0 <= to <= usize::MAX,
        0 <= extent <= usize::MAX,
    ensures
        spec_scrolled(spec_scrolled(off, extent, to), extent, to) == spec_scrolled(
            off,
            extent,
            to,
        ),
{
}

/// Whether the target `to` lies outside the window of `extent` cells at
/// `off`, so that following it moves the scroll coordinate.
pub open spec fn spec_scroll_hit(off: int, extent: int, to: int) -> bool {
    to < off || to >= cap_add(off, extent)
}

/// Whether following the cursor at `loc` moves either scroll coordinate.
pub open spec fn spec_follow_hit(b: Buffer, loc: Location, off: Position, size: Size) -> bool {
    spec_scroll_hit(off.row as int, size.height as int, loc.line_index as int)
        || spec_scroll_hit(off.col as int, size.width as int, spec_caret_col(b, loc))
}

/// Following a target with a window of positive extent always shows it: the
/// recomputed offset is at most the target, and the target lies fewer than
/// `extent` cells past it.  Applied to both axes, the viewport always holds
/// the cursor after a scroll recomputation.
pub proof fn lemma_follow_shows_target(off: int, extent: int, to: int)
    requires
        0 <= off,
        0 <= to <= usize::MAX,
        1 <= extent <= usize::MAX,
    ensures
        spec_scrolled(off, extent, to) <= to,
        to - spec_scrolled(off, extent, to) < extent,
{
}

/// The scroll offset after following the cursor at `loc`, row and column
/// independently.
pub open spec fn spec_follow(b: Buffer, loc: Location, off: Position, size: Size) -> Position {
    Position {
        row: spec_scrolled(off.row as int, size.height as int, loc.line_index as int) as usize,
        col: spec_scrolled(off.col as int, size.width as int, spec_caret_col(b, loc)) as usize,
    }
}

/// The location with its grapheme index snapped to its line's cluster count.
pub open spec fn spec_snap_grapheme(b: Buffer, gi: int, li: int) -> Location {
    let g = if gi <= spec_count(b, li) {
        gi
    } else {
        spec_count(b, li) as int
    };
    Location { grapheme_index: g as usize, line_index: li as usize }
}

/// The location after moving up `step` lines: the line index drops
/// (saturating at the first line) and the grapheme index snaps to the new
/// line's cluster count.
pub open spec fn spec_move_up(b: Buffer, loc: Location, step: int) -> Location {
    let li = floor_sub(loc.line_index as int, step);
    spec_snap_grapheme(b, loc.grapheme_index as int, li)
}

/// The location after moving down `step` lines: the line index grows, the
/// grapheme index snaps to the new line's cluster count, and the line index
/// then snaps to one past the last line.
pub open spec fn spec_move_down(b: Buffer, loc: Location, step: int) -> Location {
    let li = cap_add(loc.line_index as int, step);
    let snapped = spec_snap_grapheme(b, loc.grapheme_index as int, li);
    let l = if li <= b.lines@.len() {
        li
    } else {
        b.lines@.len() as int
    };
    Location { grapheme_index: snapped.grapheme_index, line_index: l as usize }
}

/// The location after moving right: one cluster over, or — from end of line
/// — the start of the next line (one past the last line at the document's
/// end, where the move is a no-op).
pub open spec fn spec_move_right(b: Buffer, loc: Location) -> Location {
    if (loc.grapheme_index as int) < spec_count(b, loc.line_index as int) {
        Location { grapheme_index: (loc.grapheme_index + 1) as usize, line_index: loc.line_index }
    } else {
        spec_move_down(b, Location { grapheme_index: 0, line_index: loc.line_index }, 1)
    }
}

/// The location after moving left: one cluster back, or — from the start of
/// a line — the end of the previous line (a no-op at the document start).
pub open spec fn spec_move_left(b: Buffer, loc: Location) -> Location {
    if loc.grapheme_index > 0 {
        Location { grapheme_index: (loc.grapheme_index - 1) as usize, line_index: loc.line_index }
    } else if loc.line_index > 0 {
        Location {
            grapheme_index: spec_count(b, loc.line_index - 1) as usize,
            line_index: (loc.line_index - 1) as usize,
        }
    } else {
        loc
    }
}

/// The location a motion command moves the cursor to.
pub open spec fn spec_moved_loc(b: Buffer, loc: Location, size: Size, d: Direction) -> Location {
    match d {
        Direction::Up => spec_move_up(b, loc, 1),
        Direction::Down => spec_move_down(b, loc, 1),
        Direction::Left => spec_move_left(b, loc),
        Direction::Right => spec_move_right(b, loc),
        Direction::PageUp => spec_move_up(b, loc, floor_sub(size.height as int, 1)),
        Direction::PageDown => spec_move_down(b, loc, floor_sub(size.height as int, 1)),
        Direction::Home => Location { grapheme_index: 0, line_index: loc.line_index },
        Direction::End => Location {
            grapheme_index: spec_count(b, loc.line_index as int) as usize,
            line_index: loc.line_index,
        },
    }
}

/// The cursor stops left to walk from line `li` to the end of the document:
/// each line contributes its cluster count plus one end-of-line stop.
pub open spec fn sum_stops_from(b: Buffer, li: int) -> nat
    decreases b.lines@.len() - li,
{
    if 0 <= li < b.lines@.len() {
        spec_count(b, li) + 1 + sum_stops_from(b, li + 1)
    } else {
        0
    }
}

/// Whether the cursor stands at the very end of the document (one line past
/// the last).
pub open spec fn spec_at_buffer_end(b: Buffer, loc: Location) -> bool {
    loc.line_index >= b.lines@.len()
}

/// How far the cursor still is from the end of the document, counted in
/// rightward steps.
pub open spec fn spec_steps_to_end(b: Buffer, loc: Location) -> int {
    sum_stops_from(b, loc.line_index as int) - loc.grapheme_index
}

/// A location the view can hold: at most one line past the last, and at most
/// one cluster past its line's end.
pub open spec fn spec_valid_loc(b: Buffer, loc: Location) -> bool {
    loc.line_index <= b.lines@.len() && loc.grapheme_index <= spec_count(
        b,
        loc.line_index as int,
    )
}

/// Moving right from a valid location keeps it valid and walks strictly
/// toward the end of the document; at the end it stands still.  So from any
/// location, enough rightward moves reach the document's end, after which
/// further moves do nothing.
pub proof fn lemma_move_right_progress(b: Buffer, loc: Location)
    requires
        spec_valid_loc(b, loc),
    ensures
        spec_at_buffer_end(b, loc) ==> spec_move_right(b, loc) == loc,
        !spec_at_buffer_end(b, loc) ==> spec_valid_loc(b, spec_move_right(b, loc)),
        !spec_at_buffer_end(b, loc) ==> 0 <= spec_steps_to_end(b, spec_move_right(b, loc))
            < spec_steps_to_end(b, loc),
{
    let len = b.lines@.len() as int;
    if spec_at_buffer_end(b, loc) {
        assert(loc.line_index == len);
        assert(spec_count(b, len) == 0);
        assert(loc.grapheme_index == 0);
    } else {
        let li = loc.line_index as int;
        assert(b.lines@.len() == vstd::std_specs::vec::spec_vec_len(&b.lines));
        assert(b.lines@.len() <= usize::MAX);
        if 0 <= li < b.lines@.len() {
            assert(b.lines@[li].fragments@.len() == vstd::std_specs::vec::spec_vec_len(
                &b.lines@[li].fragments,
            ));
        }
        assert(spec_count(b, li) <= usize::MAX);
        assert(sum_stops_from(b, li) == spec_count(b, li) + 1 + sum_stops_from(b, li + 1));
        if (loc.grapheme_index as int) < spec_count(b, li) {
            assert(spec_move_right(b, loc) == Location {
                grapheme_index: (loc.grapheme_index + 1) as usize,
                line_index: loc.line_index,
            });
        } else {
            assert(loc.grapheme_index == spec_count(b, li));
            assert(cap_add(li, 1) == li + 1);
            assert(spec_move_right(b, loc) == Location {
                grapheme_index: 0usize,
                line_index: (li + 1) as usize,
            });
            assert(spec_steps_to_end(b, spec_move_right(b, loc)) == sum_stops_from(b, li + 1));
        }
    }
}

/// The banner shown on the welcome row.
pub open spec fn welcome_text() -> Seq<char> {
    "tinyedit editor -- version 0.1.0"@
}

/// A run of `n` spaces.
pub open spec fn spaces(n: int) -> Seq<char> {
    Seq::new(n as nat, |i: int| ' ')
}

/// The welcome row for a viewport width: a tilde, centering padding, and the
/// banner; a bare tilde when the banner does not fit, a single space for a
/// zero width.
pub open spec fn spec_welcome_line(width: int) -> Seq<char> {
    if width == 0 {
        seq![' ']
    } else if width <= welcome_text().len() {
        seq!['~']
    } else {
        seq!['~'] + spaces((width - welcome_text().len() - 1) / 2) + welcome_text()
    }
}

/// What one viewport row shows: the visible slice of the buffer line under
/// it; on an empty document the welcome banner at a third of the viewport
/// height; a tilde for any other row past the document's end.
pub open spec fn spec_row_text(v: View, row: int) -> Seq<char> {
    let li = cap_add(v.scroll_offset.row as int, row);
    if li < v.buffer.lines@.len() {
        visible_text(
            v.buffer.lines@[li].fragments@,
            v.scroll_offset.col as nat,
            cap_add(v.scroll_offset.col as int, v.size.width as int) as nat,
        )
    } else if v.buffer.lines@.len() == 0 && row == v.size.height as int / 3 {
        spec_welcome_line(v.size.width as int)
    } else {
        seq!['~']
    }
}

/// What holds of a view after it handles one command, in terms of the view
/// before: resizing refits the viewport and rescrolls; a motion moves the
/// cursor and rescrolls; quit leaves the view alone; the four edits change
/// the document as the buffer operations say, adjust the cursor, rescroll
/// and mark the view dirty.
pub open spec fn spec_handled(pre: View, post: View, command: EditorCommand) -> bool {
    match command {
        EditorCommand::Resize(to) => {
            &&& post.buffer == pre.buffer
            &&& post.size == to
            &&& post.text_location == pre.text_location
            &&& post.scroll_offset == spec_follow(
                pre.buffer,
                pre.text_location,
                pre.scroll_offset,
                to,
            )
            &&& post.needs_redraw
        },
        EditorCommand::Move(d) => {
            &&& post.buffer == pre.buffer
            &&& post.size == pre.size
            &&& post.text_location == spec_moved_loc(pre.buffer, pre.text_location, pre.size, d)
            &&& post.scroll_offset == spec_follow(
                pre.buffer,
                post.text_location,
                pre.scroll_offset,
                pre.size,
            )
            &&& post.needs_redraw == (pre.needs_redraw || spec_follow_hit(
                pre.buffer,
                post.text_location,
                pre.scroll_offset,
                pre.size,
            ))
        },
        EditorCommand::Quit => post == pre,
        EditorCommand::Insert(c) => {
            &&& post.buffer.texts() == spec_texts_after_insert(pre.buffer, c, pre.text_location)
            &&& post.size == pre.size
            &&& post.text_location == if spec_count(
                post.buffer,
                pre.text_location.line_index as int,
            ) > spec_count(pre.buffer, pre.text_location.line_index as int) {
                spec_move_right(post.buffer, pre.text_location)
            } else {
                pre.text_location
            }
            &&& post.scroll_offset == spec_follow(
                post.buffer,
                post.text_location,
                pre.scroll_offset,
                pre.size,
            )
            &&& post.needs_redraw
        },
        EditorCommand::BackSpace => {
            if pre.text_location.line_index == 0 && pre.text_location.grapheme_index == 0 {
                post == pre
            } else {
                let moved = spec_move_left(pre.buffer, pre.text_location);
                &&& post.buffer.texts() == spec_texts_after_delete(pre.buffer, moved)
                &&& post.size == pre.size
                &&& post.text_location == moved
                &&& post.scroll_offset == spec_follow(
                    post.buffer,
                    moved,
                    spec_follow(pre.buffer, moved, pre.scroll_offset, pre.size),
                    pre.size,
                )
                &&& post.needs_redraw
            }
        },
        EditorCommand::Delete => {
            &&& post.buffer.texts() == spec_texts_after_delete(pre.buffer, pre.text_location)
            &&& post.size == pre.size
            &&& post.text_location == pre.text_location
            &&& post.scroll_offset == spec_follow(
                post.buffer,
                pre.text_location,
                pre.scroll_offset,
                pre.size,
            )
            &&& post.needs_redraw
        },
        EditorCommand::Enter => {
            &&& post.buffer.texts() == spec_texts_after_newline(pre.buffer, pre.text_location)
            &&& post.size == pre.size
            &&& post.text_location == spec_move_right(post.buffer, pre.text_location)
            &&& post.scroll_offset == spec_follow(
                post.buffer,
                post.text_location,
                pre.scroll_offset,
                pre.size,
            )
            &&& post.needs_redraw
        },
    }
}

/// Handling the same resize twice in a row leaves exactly the state that one
/// resize leaves, whatever the size: redundant resize events are idempotent.
pub proof fn lemma_resize_idempotent(pre: View, mid: View, post: View, to: Size)
    requires
        spec_handled(pre, mid, EditorCommand::Resize(to)),
        spec_handled(mid, post, EditorCommand::Resize(to)),
    ensures
        post == mid,
{
    lemma_scrolled_idempotent(
        pre.scroll_offset.row as int,
        to.height as int,
        pre.text_location.line_index as int,
    );
    lemma_scrolled_idempotent(
        pre.scroll_offset.col as int,
        to.width as int,
        spec_caret_col(pre.buffer, pre.text_location),
    );
}

/// The editor view: the document, the cursor's logical location, the scroll
/// offset, the viewport size, and whether the next render pass must redraw.
pub struct View {
    pub buffer: Buffer,
    pub needs_redraw: bool,
    pub size: Size,
    pub text_location: Location,
    pub scroll_offset: Position,
}

impl View {
    /// Every line of the document is well formed.
    pub open spec fn wf(&self) -> bool {
        self.buffer.wf()
    }

    /// A fresh view of the given size over an empty document, needing a first
    /// draw.
    pub fn new(size: Size) -> (v: View)
        ensures
            v.wf(),
            v.buffer.spec_height() == 0,
            v.needs_redraw,
            v.size == size,
            v.text_location == (Location { grapheme_index: 0, line_index: 0 }),
            v.scroll_offset == (Position { col: 0, row: 0 }),
    {
        View {
            buffer: Buffer::new(),
            needs_redraw: true,
            size,
            text_location: Location { grapheme_index: 0, line_index: 0 },
            scroll_offset: Position { col: 0, row: 0 },
        }
    }

    /// The cursor's logical location.
    pub fn location(&self) -> (loc: Location)
        ensures
            loc == self.text_location,
    {
        self.text_location
    }

    /// The current scroll offset.
    pub fn scroll(&self) -> (off: Position)
        ensures
            off == self.scroll_offset,
    {
        self.scroll_offset
    }

    /// Replaces the document with one built from the given text content and
    /// marks the view for redraw; the cursor's logical location stays put and
    /// the scroll offset is recomputed over the new document so the cursor
    /// stays in view.
    pub fn load(&mut self, contents: &str)
        ensures
            final(self).wf(),
            final(self).buffer.texts() == split_lines(contents@),
            final(self).needs_redraw,
            final(self).size == old(self).size,
            final(self).text_location == old(self).text_location,
            final(self).scroll_offset == spec_follow(
                final(self).buffer,
                old(self).text_location,
                old(self).scroll_offset,
                old(self).size,
            ),
    {
        self.buffer = Buffer::load(contents);
        self.scroll_text_location_into_view();
        self.needs_redraw = true;
    }

    /// The grapheme-cluster count of the cursor's line (zero outside the
    /// document).
    fn count_at(&self, line_index: usize) -> (n: usize)
        ensures
            n == spec_count(self.buffer, line_index as int),
    {
        if line_index < self.buffer.lines.len() {
            let line = &self.buffer.lines[line_index];
            line.grapheme_count()
        } else {
            0
        }
    }

    /// The cursor's pre-scroll screen position: the row is the line index,
    /// the column the display width of the clusters left of the cursor.
    fn text_location_to_position(&self) -> (p: Position)
        ensures
            p.row == self.text_location.line_index,
            p.col == spec_caret_col(self.buffer, self.text_location),
    {
        let row = self.text_location.line_index;
        let col = if row < self.buffer.lines.len() {
            let line = &self.buffer.lines[row];
            line.width_until(self.text_location.grapheme_index)
        } else {
            0
        };
        Position { col, row }
    }

    /// The cursor's viewport-relative screen coordinate: its pre-scroll
    /// position minus the scroll offset, floored at zero.
    pub fn caret_position(&self) -> (p: Position)
        ensures
            p.row == floor_sub(
                self.text_location.line_index as int,
                self.scroll_offset.row as int,
            ),
            p.col == floor_sub(
                spec_caret_col(self.buffer, self.text_location),
                self.scroll_offset.col as int,
            ),
    {
        self.text_location_to_position().saturating_sub(self.scroll_offset)
    }

    /// Brings the scroll row to the smallest change that shows `to`.
    fn scroll_vertically(&mut self, to: usize)
        ensures
            final(self).scroll_offset.row == spec_scrolled(
                old(self).scroll_offset.row as int,
                old(self).size.height as int,
                to as int,
            ),
            final(self).scroll_offset.col == old(self).scroll_offset.col,
            final(self).needs_redraw == (old(self).needs_redraw || spec_scroll_hit(
                old(self).scroll_offset.row as int,
                old(self).size.height as int,
                to as int,
            )),
            final(self).buffer == old(self).buffer,
            final(self).size == old(self).size,
            final(self).text_location == old(self).text_location,
    {
        let height = self.size.height;
        let offset_changed = if to < self.scroll_offset.row {
            self.scroll_offset.row = to;
            true
        } else if to >= self.scroll_offset.row.saturating_add(height) {
            // With no rows at all the target itself is the only stable
            // offset; a window of one or more rows ends just past the target.
            self.scroll_offset.row = if height == 0 {
                to
            } else {
                to.saturating_sub(height).saturating_add(1)
            };
            true
        } else {
            false
        };
        self.needs_redraw = self.needs_redraw || offset_changed;
    }

    /// Brings the scroll column to the smallest change that shows `to`.
    fn scroll_horizontally(&mut self, to: usize)
        ensures
            final(self).scroll_offset.col == spec_scrolled(
                old(self).scroll_offset.col as int,
                old(self).size.width as int,
                to as int,
            ),
            final(self).scroll_offset.row == old(self).scroll_offset.row,
            final(self).needs_redraw == (old(self).needs_redraw || spec_scroll_hit(
                old(self).scroll_offset.col as int,
                old(self).size.width as int,
                to as int,
            )),
            final(self).buffer == old(self).buffer,
            final(self).size == old(self).size,
            final(self).text_location == old(self).text_location,
    {
        let width = self.size.width;
        let offset_changed = if to < self.scroll_offset.col {
            self.scroll_offset.col = to;
            true
        } else if to >= self.scroll_offset.col.saturating_add(width) {
            // As for rows: a zero-width window keeps the target itself.
            self.scroll_offset.col = if width == 0 {
                to
            } else {
                to.saturating_sub(width).saturating_add(1)
            };
            true
        } else {
            false
        };
        self.needs_redraw = self.needs_redraw || offset_changed;
    }

    /// Recomputes the scroll offset so the cursor lies inside the viewport.
    fn scroll_text_location_into_view(&mut self)
        ensures
            final(self).scroll_offset == spec_follow(
                old(self).buffer,
                old(self).text_location,
                old(self).scroll_offset,
                old(self).size,
            ),
            final(self).needs_redraw == (old(self).needs_redraw || spec_follow_hit(
                old(self).buffer,
                old(self).text_location,
                old(self).scroll_offset,
                old(self).size,
            )),
            final(self).buffer == old(self).buffer,
            final(self).size == old(self).size,
            final(self).text_location == old(self).text_location,
    {
        let p = self.text_location_to_position();
        self.scroll_vertically(p.row);
        self.scroll_horizontally(p.col);
    }

    /// Moves the cursor one step in the given direction (pages move by one
    /// viewport height less one line), then scrolls the cursor into view.
    fn move_text_location(&mut self, direction: Direction)
        ensures
            final(self).text_location == spec_moved_loc(
                old(self).buffer,
                old(self).text_location,
                old(self).size,
                direction,
            ),
            final(self).scroll_offset == spec_follow(
                old(self).buffer,
                final(self).text_location,
                old(self).scroll_offset,
                old(self).size,
            ),
            final(self).needs_redraw == (old(self).needs_redraw || spec_follow_hit(
                old(self).buffer,
                final(self).text_location,
                old(self).scroll_offset,
                old(self).size,
            )),
            final(self).buffer == old(self).buffer,
            final(self).size == old(self).size,
    {
        let height = self.size.height;
        match direction {
            Direction::Up => self.move_up(1),
            Direction::Down => self.move_down(1),
            Direction::Left => self.move_left(),
            Direction::Right => self.move_right(),
            Direction::PageUp => self.move_up(height.saturating_sub(1)),
            Direction::PageDown => self.move_down(height.saturating_sub(1)),
            Direction::Home => self.move_to_start_of_line(),
            Direction::End => self.move_to_end_of_line(),
        }
        self.scroll_text_location_into_view();
    }

    /// Clamps the grapheme index to the cursor line's cluster count.
    fn snap_to_valid_grapheme(&mut self)
        ensures
            final(self).text_location == spec_snap_grapheme(
                old(self).buffer,
                old(self).text_location.grapheme_index as int,
                old(self).text_location.line_index as int,
            ),
            final(self).buffer == old(self).buffer,
            final(self).size == old(self).size,
            final(self).scroll_offset == old(self).scroll_offset,
            final(self).needs_redraw == old(self).needs_redraw,
    {
        let count = self.count_at(self.text_location.line_index);
        if self.text_location.grapheme_index > count {
            self.text_location.grapheme_index = count;
        }
    }

    /// Clamps the line index to one past the last line.
    fn snap_to_valid_line(&mut self)
        ensures
            final(self).text_location.line_index == if old(self).text_location.line_index
                <= old(self).buffer.spec_height() {
                old(self).text_location.line_index as int
            } else {
                old(self).buffer.spec_height() as int
            },
            final(self).text_location.grapheme_index == old(self).text_location.grapheme_index,
            final(self).buffer == old(self).buffer,
            final(self).size == old(self).size,
            final(self).scroll_offset == old(self).scroll_offset,
            final(self).needs_redraw == old(self).needs_redraw,
    {
        let height = self.buffer.height();
        if self.text_location.line_index > height {
            self.text_location.line_index = height;
        }
    }

    /// Moves the cursor up `step` lines, snapping the grapheme index.
    fn move_up(&mut self, step: usize)
        ensures
            final(self).text_location == spec_move_up(
                old(self).buffer,
                old(self).text_location,
                step as int,
            ),
            final(self).buffer == old(self).buffer,
            final(self).size == old(self).size,
            final(self).scroll_offset == old(self).scroll_offset,
            final(self).needs_redraw == old(self).needs_redraw,
    {
        self.text_location.line_index = self.text_location.line_index.saturating_sub(step);
        self.snap_to_valid_grapheme();
    }

    /// Moves the cursor down `step` lines, snapping the grapheme index and
    /// the line index.
    fn move_down(&mut self, step: usize)
        ensures
            final(self).text_location == spec_move_down(
                old(self).buffer,
                old(self).text_location,
                step as int,
            ),
            final(self).buffer == old(self).buffer,
            final(self).size == old(self).size,
            final(self).scroll_offset == old(self).scroll_offset,
            final(self).needs_redraw == old(self).needs_redraw,
    {
        self.text_location.line_index = self.text_location.line_index.saturating_add(step);
        self.snap_to_valid_grapheme();
        self.snap_to_valid_line();
    }

    /// Moves the cursor one cluster right, wrapping to the start of the next
    /// line from end of line.
    fn move_right(&mut self)
        ensures
            final(self).text_location == spec_move_right(
                old(self).buffer,
                old(self).text_location,
            ),
            final(self).buffer == old(self).buffer,
            final(self).size == old(self).size,
            final(self).scroll_offset == old(self).scroll_offset,
            final(self).needs_redraw == old(self).needs_redraw,
    {
        let count = self.count_at(self.text_location.line_index);
        if self.text_location.grapheme_index < count {
            self.text_location.grapheme_index += 1;
        } else {
            self.move_to_start_of_line();
            self.move_down(1);
        }
    }

    /// Moves the cursor one cluster left, wrapping to the end of the
    /// previous line from the start of a line.
    fn move_left(&mut self)
        ensures
            final(self).text_location == spec_move_left(
                old(self).buffer,
                old(self).text_location,
            ),
            final(self).buffer == old(self).buffer,
            final(self).size == old(self).size,
            final(self).scroll_offset == old(self).scroll_offset,
            final(self).needs_redraw == old(self).needs_redraw,
    {
        if self.text_location.grapheme_index > 0 {
            self.text_location.grapheme_index -= 1;
        } else if self.text_location.line_index > 0 {
            self.move_up(1);
            self.move_to_end_of_line();
        }
    }

    /// Moves the cursor to column zero of its line.
    fn move_to_start_of_line(&mut self)
        ensures
            final(self).text_location == (Location {
                grapheme_index: 0,
                line_index: old(self).text_location.line_index,
            }),
            final(self).buffer == old(self).buffer,
            final(self).size == old(self).size,
            final(self).scroll_offset == old(self).scroll_offset,
            final(self).needs_redraw == old(self).needs_redraw,
    {
        self.text_location.grapheme_index = 0;
    }

    /// Builds the welcome row for a viewport width.
    fn build_welcome_message(width: usize) -> (s: String)
        ensures
            s@ == spec_welcome_line(width as int),
    {
        let mut s = String::new();
        if width == 0 {
            push_char(&mut s, ' ');
            proof {
                assert(s@ =~= seq![' ']);
            }
            return s;
        }
        let message = "tinyedit editor -- version 0.1.0";
        let len = message.unicode_len();
        if width <= len {
            push_char(&mut s, '~');
            proof {
                assert(s@ =~= seq!['~']);
            }
            return s;
        }
        let padding = (width - len - 1) / 2;
        push_char(&mut s, '~');
        let mut k: usize = 0;
        proof {
            assert(s@ =~= seq!['~'] + spaces(0));
        }
        while k < padding
            invariant
                k <= padding,
                s@ == seq!['~'] + spaces(k as int),
            decreases padding - k,
        {
            push_char(&mut s, ' ');
            proof {
                assert(s@ =~= seq!['~'] + spaces(k + 1));
            }
            k += 1;
        }
        s.append(message);
        proof {
            assert(s@ =~= seq!['~'] + spaces(padding as int) + welcome_text());
        }
        s
    }

    /// Renders the visible rows when the view is dirty: one string per
    /// viewport row, each as `spec_row_text` describes, and the dirty flag
    /// clears.  When the view is clean, or the viewport has no cells, no rows
    /// come back (and a degenerate viewport leaves the view dirty).
    pub fn render(&mut self) -> (rows: Vec<String>)
        ensures
            final(self).buffer == old(self).buffer,
            final(self).size == old(self).size,
            final(self).text_location == old(self).text_location,
            final(self).scroll_offset == old(self).scroll_offset,
            !old(self).needs_redraw ==> rows@.len() == 0 && !final(self).needs_redraw,
            old(self).needs_redraw && (old(self).size.height == 0 || old(self).size.width == 0)
                ==> rows@.len() == 0 && final(self).needs_redraw,
            old(self).needs_redraw && old(self).size.height > 0 && old(self).size.width > 0 ==> {
                &&& rows@.len() == old(self).size.height
                &&& forall|r: int|
                    0 <= r < old(self).size.height ==> (#[trigger] rows@[r])@ == spec_row_text(
                        *old(self),
                        r,
                    )
                &&& !final(self).needs_redraw
            },
    {
        let mut rows: Vec<String> = Vec::new();
        if !self.needs_redraw {
            return rows;
        }
        let height = self.size.height;
        let width = self.size.width;
        if height == 0 || width == 0 {
            return rows;
        }
        let vertical_center = height / 3;
        let top = self.scroll_offset.row;
        let left = self.scroll_offset.col;
        let right = left.saturating_add(width);
        let mut current_row: usize = 0;
        while current_row < height
            invariant
                current_row <= height,
                *self == *old(self),
                self.needs_redraw,
                height == self.size.height,
                width == self.size.width,
                height > 0 && width > 0,
                vertical_center == height / 3,
                top == self.scroll_offset.row,
                left == self.scroll_offset.col,
                right == cap_add(left as int, width as int),
                rows@.len() == current_row,
                forall|r: int|
                    0 <= r < current_row ==> (#[trigger] rows@[r])@ == spec_row_text(*self, r),
            decreases height - current_row,
        {
            let li = current_row.saturating_add(top);
            let row_text: String = if li < self.buffer.lines.len() {
                let line = &self.buffer.lines[li];
                line.get_visible_graphemes(left, right)
            } else if self.buffer.is_empty() && current_row == vertical_center {
                Self::build_welcome_message(width)
            } else {
                let mut t = String::new();
                push_char(&mut t, '~');
                proof {
                    assert(t@ =~= seq!['~']);
                }
                t
            };
            assert(row_text@ == spec_row_text(*self, current_row as int));
            rows.push(row_text);
            current_row += 1;
        }
        self.needs_redraw = false;
        rows
    }

    /// Refits the viewport to a new size, scrolls the cursor back into view,
    /// and marks the view dirty.
    fn resize(&mut self, to: Size)
        ensures
            final(self).buffer == old(self).buffer,
            final(self).size == to,
            final(self).text_location == old(self).text_location,
            final(self).scroll_offset == spec_follow(
                old(self).buffer,
                old(self).text_location,
                old(self).scroll_offset,
                to,
            ),
            final(self).needs_redraw,
    {
        self.size = to;
        self.scroll_text_location_into_view();
        self.needs_redraw = true;
    }

    /// Inserts one character at the cursor; when the line's cluster count
    /// grew, the cursor steps right; then the view scrolls the cursor into
    /// view and marks itself dirty.
    fn insert_char(&mut self, character: char)
        requires
            old(self).wf(),
        ensures
            final(self).wf(),
            final(self).buffer.texts() == spec_texts_after_insert(
                old(self).buffer,
                character,
                old(self).text_location,
            ),
            final(self).size == old(self).size,
            final(self).text_location == if spec_count(
                final(self).buffer,
                old(self).text_location.line_index as int,
            ) > spec_count(old(self).buffer, old(self).text_location.line_index as int) {
                spec_move_right(final(self).buffer, old(self).text_location)
            } else {
                old(self).text_location
            },
            final(self).scroll_offset == spec_follow(
                final(self).buffer,
                final(self).text_location,
                old(self).scroll_offset,
                old(self).size,
            ),
            final(self).needs_redraw,
    {
        let old_len = self.count_at(self.text_location.line_index);
        self.buffer.insert_char(character, self.text_location);
        let new_len = self.count_at(self.text_location.line_index);
        if new_len > old_len {
            self.move_right();
        }
        self.scroll_text_location_into_view();
        self.needs_redraw = true;
    }

    /// Deletes forward at the cursor without moving it, scrolls the cursor
    /// back into view (joining or re-clustering can change its display
    /// column), and marks the view dirty.
    fn delete(&mut self)
        requires
            old(self).wf(),
        ensures
            final(self).wf(),
            final(self).buffer.texts() == spec_texts_after_delete(
                old(self).buffer,
                old(self).text_location,
            ),
            final(self).size == old(self).size,
            final(self).text_location == old(self).text_location,
            final(self).scroll_offset == spec_follow(
                final(self).buffer,
                old(self).text_location,
                old(self).scroll_offset,
                old(self).size,
            ),
            final(self).needs_redraw,
    {
        self.buffer.delete(self.text_location);
        self.scroll_text_location_into_view();
        self.needs_redraw = true;
    }

    /// Deletes the cluster left of the cursor: a move left (with scroll
    /// follow) and a forward delete.  At the very start of the document this
    /// is a no-op.
    fn delete_backward(&mut self)
        requires
            old(self).wf(),
        ensures
            final(self).wf(),
            old(self).text_location.line_index == 0 && old(self).text_location.grapheme_index == 0
                ==> *final(self) == *old(self),
            !(old(self).text_location.line_index == 0 && old(self).text_location.grapheme_index
                == 0) ==> {
                let moved = spec_move_left(old(self).buffer, old(self).text_location);
                &&& final(self).buffer.texts() == spec_texts_after_delete(old(self).buffer, moved)
                &&& final(self).size == old(self).size
                &&& final(self).text_location == moved
                &&& final(self).scroll_offset == spec_follow(
                    final(self).buffer,
                    moved,
                    spec_follow(old(self).buffer, moved, old(self).scroll_offset, old(self).size),
                    old(self).size,
                )
                &&& final(self).needs_redraw
            },
    {
        if self.text_location.line_index != 0 || self.text_location.grapheme_index != 0 {
            self.move_text_location(Direction::Left);
            self.delete();
        }
    }

    /// Breaks the cursor's line at the cursor, moves the cursor right on the
    /// new document (with scroll follow), and marks the view dirty.
    fn insert_newline(&mut self)
        requires
            old(self).wf(),
        ensures
            final(self).wf(),
            final(self).buffer.texts() == spec_texts_after_newline(
                old(self).buffer,
                old(self).text_location,
            ),
            final(self).size == old(self).size,
            final(self).text_location == spec_move_right(
                final(self).buffer,
                old(self).text_location,
            ),
            final(self).scroll_offset == spec_follow(
                final(self).buffer,
                final(self).text_location,
                old(self).scroll_offset,
                old(self).size,
            ),
            final(self).needs_redraw,
    {
        self.buffer.insert_newline(self.text_location);
        self.move_text_location(Direction::Right);
        self.needs_redraw = true;
    }

    /// Applies one command to the view, as `spec_handled` describes.  A quit
    /// command is not the view's business and leaves it alone.
    pub fn handle_command(&mut self, command: EditorCommand)
        requires
            old(self).wf(),
        ensures
            final(self).wf(),
            spec_handled(*old(self), *final(self), command),
    {
        match command {
            EditorCommand::Resize(size) => self.resize(size),
            EditorCommand::Move(direction) => self.move_text_location(direction),
            EditorCommand::Quit => {},
            EditorCommand::Insert(character) => self.insert_char(character),
            EditorCommand::BackSpace => self.delete_backward(),
            EditorCommand::Delete => self.delete(),
            EditorCommand::Enter => self.insert_newline(),
        }
    }

    /// Moves the cursor past the last cluster of its line.
    fn move_to_end_of_line(&mut self)
        ensures
            final(self).text_location == (Location {
                grapheme_index: spec_count(
                    old(self).buffer,
                    old(self).text_location.line_index as int,
                ) as usize,
                line_index: old(self).text_location.line_index,
            }),
            final(self).buffer == old(self).buffer,
            final(self).size == old(self).size,
            final(self).scroll_offset == old(self).scroll_offset,
            final(self).needs_redraw == old(self).needs_redraw,
    {
        self.text_location.grapheme_index = self.count_at(self.text_location.line_index);
    }
}

} // verus!
