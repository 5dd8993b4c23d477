use tinyedit::editorcommand::{Direction, EditorCommand};
use tinyedit::screen::Size;
use tinyedit::view::View;

fn sized(width: usize, height: usize) -> View {
    View::new(Size { width, height })
}

#[test]
fn move_right_at_line_end_wraps_to_next_line() {
    // Buffer ["ab", "cd"], cursor at the end of "ab": one more step right
    // lands at the start of "cd".
    let mut v = sized(80, 24);
    v.load("ab\ncd");
    v.handle_command(EditorCommand::Move(Direction::Right));
    v.handle_command(EditorCommand::Move(Direction::Right));
    assert_eq!(v.location().line_index, 0);
    assert_eq!(v.location().grapheme_index, 2);
    v.handle_command(EditorCommand::Move(Direction::Right));
    assert_eq!(v.location().line_index, 1);
    assert_eq!(v.location().grapheme_index, 0);
}

#[test]
fn move_right_reaches_buffer_end_then_stops() {
    // Four clusters and two line ends: six steps reach the end of the
    // document, and further steps stand still.
    let mut v = sized(80, 24);
    v.load("ab\ncd");
    for _ in 0..6 {
        v.handle_command(EditorCommand::Move(Direction::Right));
    }
    assert_eq!(v.location().line_index, 2);
    assert_eq!(v.location().grapheme_index, 0);
    v.handle_command(EditorCommand::Move(Direction::Right));
    assert_eq!(v.location().line_index, 2);
    assert_eq!(v.location().grapheme_index, 0);
}

#[test]
fn move_left_wraps_to_previous_line_end() {
    let mut v = sized(80, 24);
    v.load("ab\ncd");
    v.handle_command(EditorCommand::Move(Direction::Down));
    v.handle_command(EditorCommand::Move(Direction::Left));
    assert_eq!(v.location().line_index, 0);
    assert_eq!(v.location().grapheme_index, 2);
}

#[test]
fn move_down_to_shorter_line_clamps_column() {
    let mut v = sized(80, 24);
    v.load("abcdef\nxy");
    v.handle_command(EditorCommand::Move(Direction::End));
    assert_eq!(v.location().grapheme_index, 6);
    v.handle_command(EditorCommand::Move(Direction::Down));
    assert_eq!(v.location().line_index, 1);
    assert_eq!(v.location().grapheme_index, 2);
    // moving back up does not restore the old column
    v.handle_command(EditorCommand::Move(Direction::Up));
    assert_eq!(v.location().line_index, 0);
    assert_eq!(v.location().grapheme_index, 2);
}

#[test]
fn home_and_end_jump_within_line() {
    let mut v = sized(80, 24);
    v.load("abcd");
    v.handle_command(EditorCommand::Move(Direction::End));
    assert_eq!(v.location().grapheme_index, 4);
    v.handle_command(EditorCommand::Move(Direction::Home));
    assert_eq!(v.location().grapheme_index, 0);
}

#[test]
fn scroll_follows_cursor_past_right_edge() {
    // Viewport ten columns wide, cursor column moves to twelve: the scroll
    // column becomes twelve minus ten plus one.
    let mut v = sized(10, 5);
    v.load("abcdefghijkl");
    v.handle_command(EditorCommand::Move(Direction::End));
    assert_eq!(v.scroll().col, 3);
    assert_eq!(v.caret_position().col, 9);
    assert_eq!(v.caret_position().row, 0);
}

#[test]
fn scroll_follows_cursor_back_left() {
    let mut v = sized(10, 5);
    v.load("abcdefghijkl");
    v.handle_command(EditorCommand::Move(Direction::End));
    v.handle_command(EditorCommand::Move(Direction::Home));
    assert_eq!(v.scroll().col, 0);
    assert_eq!(v.caret_position().col, 0);
}

#[test]
fn scroll_follows_cursor_below_viewport() {
    let mut v = sized(10, 3);
    v.load("a\nb\nc\nd\ne");
    for _ in 0..4 {
        v.handle_command(EditorCommand::Move(Direction::Down));
    }
    assert_eq!(v.location().line_index, 4);
    assert_eq!(v.scroll().row, 2);
    assert_eq!(v.caret_position().row, 2);
}

#[test]
fn wide_glyph_cursor_column_counts_two() {
    let mut v = sized(80, 24);
    v.load("日本");
    v.handle_command(EditorCommand::Move(Direction::Right));
    assert_eq!(v.caret_position().col, 2);
}

#[test]
fn render_empty_buffer_centers_banner() {
    // Viewport height twenty-one: the banner sits at row seven, every other
    // row is a tilde.
    let mut v = sized(40, 21);
    let rows = v.render();
    assert_eq!(rows.len(), 21);
    for (i, row) in rows.iter().enumerate() {
        if i == 7 {
            assert_eq!(row, "~   tinyedit editor -- version 0.1.0");
        } else {
            assert_eq!(row, "~");
        }
    }
}

#[test]
fn render_banner_needs_room() {
    let mut v = sized(10, 21);
    let rows = v.render();
    assert_eq!(rows[7], "~");
}

#[test]
fn render_banner_fits_exactly_one_wider() {
    // The banner is thirty-two characters; at thirty-three columns it fits
    // with no padding after the tilde, one column narrower it does not.
    let mut v = sized(33, 3);
    let rows = v.render();
    assert_eq!(rows[1], "~tinyedit editor -- version 0.1.0");
    let mut w = sized(32, 3);
    let narrow = w.render();
    assert_eq!(narrow[1], "~");
}

#[test]
fn render_shows_visible_slice() {
    let mut v = sized(10, 3);
    v.load("abcdefghijkl\n日本");
    let rows = v.render();
    assert_eq!(rows.len(), 3);
    assert_eq!(rows[0], "abcdefghij");
    assert_eq!(rows[1], "日本");
    assert_eq!(rows[2], "~");
}

#[test]
fn render_clips_wide_glyph_at_edge_with_ellipsis() {
    // 日 spans columns one to three; a two-column viewport cuts it, so the
    // rendered row carries the ellipsis marker instead.
    let mut v = sized(2, 2);
    v.load("a日b");
    let rows = v.render();
    assert_eq!(rows[0], "a\u{2026}");
}

#[test]
fn render_only_when_dirty() {
    let mut v = sized(10, 3);
    v.load("ab");
    let first = v.render();
    assert_eq!(first.len(), 3);
    let second = v.render();
    assert!(second.is_empty());
    v.handle_command(EditorCommand::Move(Direction::Right));
    // an in-view motion does not dirty the view
    let third = v.render();
    assert!(third.is_empty());
}

#[test]
fn resize_marks_dirty_and_rescrolls() {
    let mut v = sized(10, 5);
    v.load("abcdefghijkl");
    v.handle_command(EditorCommand::Move(Direction::End));
    assert_eq!(v.scroll().col, 3);
    let _ = v.render();
    // Widening keeps the cursor visible at the old offset, so the offset
    // stays; the view still redraws at the new width.
    v.handle_command(EditorCommand::Resize(Size { width: 20, height: 5 }));
    assert_eq!(v.scroll().col, 3);
    let rows = v.render();
    assert_eq!(rows.len(), 5);
    assert_eq!(rows[0], "defghijkl");
    // Jumping home pulls the scroll back to the document's left edge.
    v.handle_command(EditorCommand::Move(Direction::Home));
    assert_eq!(v.scroll().col, 0);
}

#[test]
fn redundant_resize_is_idempotent() {
    let mut v = sized(10, 5);
    v.load("abcdefghijkl");
    v.handle_command(EditorCommand::Move(Direction::End));
    let sizes = [
        Size { width: 20, height: 5 },
        Size { width: 2, height: 5 },
        Size { width: 0, height: 5 },
        Size { width: 5, height: 0 },
        Size { width: 0, height: 0 },
    ];
    for size in sizes {
        v.handle_command(EditorCommand::Resize(size));
        let scroll_once = v.scroll();
        let loc_once = v.location();
        v.handle_command(EditorCommand::Resize(size));
        assert_eq!(v.scroll(), scroll_once);
        assert_eq!(v.location(), loc_once);
    }
}

#[test]
fn zero_extent_scroll_is_a_fixed_point() {
    // A viewport with no rows cannot show the cursor; the scroll row settles
    // on the cursor row itself instead of creeping past it.
    let mut v = sized(5, 0);
    v.handle_command(EditorCommand::Resize(Size { width: 5, height: 0 }));
    assert_eq!(v.scroll().row, 0);
    v.handle_command(EditorCommand::Resize(Size { width: 5, height: 0 }));
    assert_eq!(v.scroll().row, 0);
}

#[test]
fn delete_keeps_caret_in_view() {
    // Scrolled three columns right of a joined line's start, the caret stays
    // inside the viewport after the join.
    let mut v = sized(4, 5);
    v.load("abcdefgh\nzz");
    v.handle_command(EditorCommand::Move(Direction::End));
    assert_eq!(v.scroll().col, 5);
    v.handle_command(EditorCommand::Delete);
    assert_eq!(v.buffer.lines[0].text_string(), "abcdefghzz");
    assert_eq!(v.scroll().col, 5);
    assert_eq!(v.caret_position().col, 3);
}

#[test]
fn insert_advances_cursor_and_edits_buffer() {
    let mut v = sized(80, 24);
    v.handle_command(EditorCommand::Insert('h'));
    v.handle_command(EditorCommand::Insert('i'));
    assert_eq!(v.location().line_index, 0);
    assert_eq!(v.location().grapheme_index, 2);
    assert_eq!(v.buffer.lines[0].text_string(), "hi");
}

#[test]
fn insert_combining_mark_keeps_cursor_put() {
    let mut v = sized(80, 24);
    v.handle_command(EditorCommand::Insert('a'));
    v.handle_command(EditorCommand::Insert('\u{301}'));
    assert_eq!(v.location().grapheme_index, 1);
    assert_eq!(v.buffer.lines[0].text_string(), "a\u{301}");
    assert_eq!(v.buffer.lines[0].grapheme_count(), 1);
}

#[test]
fn enter_splits_line_and_moves_cursor_down() {
    let mut v = sized(80, 24);
    v.load("abcd");
    v.handle_command(EditorCommand::Move(Direction::Right));
    v.handle_command(EditorCommand::Move(Direction::Right));
    v.handle_command(EditorCommand::Enter);
    assert_eq!(v.buffer.lines[0].text_string(), "ab");
    assert_eq!(v.buffer.lines[1].text_string(), "cd");
    assert_eq!(v.location().line_index, 1);
    assert_eq!(v.location().grapheme_index, 0);
}

#[test]
fn backspace_removes_cluster_left_of_cursor() {
    let mut v = sized(80, 24);
    v.load("abc");
    v.handle_command(EditorCommand::Move(Direction::End));
    v.handle_command(EditorCommand::BackSpace);
    assert_eq!(v.buffer.lines[0].text_string(), "ab");
    assert_eq!(v.location().grapheme_index, 2);
}

#[test]
fn backspace_at_document_start_is_noop() {
    let mut v = sized(80, 24);
    v.load("abc");
    v.handle_command(EditorCommand::BackSpace);
    assert_eq!(v.buffer.lines[0].text_string(), "abc");
    assert_eq!(v.location().grapheme_index, 0);
}

#[test]
fn backspace_at_line_start_joins_lines() {
    let mut v = sized(80, 24);
    v.load("ab\ncd");
    v.handle_command(EditorCommand::Move(Direction::Down));
    v.handle_command(EditorCommand::BackSpace);
    assert_eq!(v.buffer.lines.len(), 1);
    assert_eq!(v.buffer.lines[0].text_string(), "abcd");
    assert_eq!(v.location().line_index, 0);
    assert_eq!(v.location().grapheme_index, 2);
}

#[test]
fn delete_removes_cluster_without_moving() {
    let mut v = sized(80, 24);
    v.load("abc");
    v.handle_command(EditorCommand::Move(Direction::Right));
    v.handle_command(EditorCommand::Delete);
    assert_eq!(v.buffer.lines[0].text_string(), "ac");
    assert_eq!(v.location().grapheme_index, 1);
}

#[test]
fn page_down_moves_by_viewport_height_less_one() {
    let mut v = sized(10, 3);
    v.load("a\nb\nc\nd\ne\nf");
    v.handle_command(EditorCommand::Move(Direction::PageDown));
    assert_eq!(v.location().line_index, 2);
    v.handle_command(EditorCommand::Move(Direction::PageUp));
    assert_eq!(v.location().line_index, 0);
}
