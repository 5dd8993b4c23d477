use tinyedit::buffer::Buffer;
use tinyedit::screen::Location;

fn texts(b: &Buffer) -> Vec<String> {
    b.lines.iter().map(|l| l.text_string()).collect()
}

fn loc(line_index: usize, grapheme_index: usize) -> Location {
    Location { grapheme_index, line_index }
}

#[test]
fn load_splits_rows() {
    let b = Buffer::load("ab\ncd");
    assert_eq!(texts(&b), vec!["ab".to_string(), "cd".to_string()]);
    assert_eq!(b.height(), 2);
    assert!(!b.is_empty());
}

#[test]
fn load_trailing_newline_adds_no_row() {
    let b = Buffer::load("ab\n");
    assert_eq!(texts(&b), vec!["ab".to_string()]);
}

#[test]
fn load_empty_content_gives_empty_buffer() {
    let b = Buffer::load("");
    assert_eq!(b.height(), 0);
    assert!(b.is_empty());
}

#[test]
fn load_lone_newline_gives_one_empty_row() {
    let b = Buffer::load("\n");
    assert_eq!(texts(&b), vec!["".to_string()]);
}

#[test]
fn load_blank_row_between_rows() {
    let b = Buffer::load("a\n\nb");
    assert_eq!(texts(&b), vec!["a".to_string(), "".to_string(), "b".to_string()]);
}

#[test]
fn load_keeps_carriage_return() {
    let b = Buffer::load("a\r\nb");
    assert_eq!(texts(&b), vec!["a\r".to_string(), "b".to_string()]);
}

#[test]
fn insert_char_into_line() {
    let mut b = Buffer::load("ab");
    b.insert_char('x', loc(0, 1));
    assert_eq!(texts(&b), vec!["axb".to_string()]);
}

#[test]
fn insert_char_one_past_last_line_appends_line() {
    let mut b = Buffer::load("ab");
    b.insert_char('x', loc(1, 0));
    assert_eq!(texts(&b), vec!["ab".to_string(), "x".to_string()]);
}

#[test]
fn insert_char_into_empty_buffer_appends_line() {
    let mut b = Buffer::load("");
    b.insert_char('x', loc(0, 0));
    assert_eq!(texts(&b), vec!["x".to_string()]);
}

#[test]
fn insert_char_far_out_is_noop() {
    let mut b = Buffer::load("ab");
    b.insert_char('x', loc(5, 0));
    assert_eq!(texts(&b), vec!["ab".to_string()]);
}

#[test]
fn insert_newline_splits_line() {
    let mut b = Buffer::load("abcd");
    b.insert_newline(loc(0, 2));
    assert_eq!(texts(&b), vec!["ab".to_string(), "cd".to_string()]);
}

#[test]
fn insert_newline_at_line_start() {
    let mut b = Buffer::load("ab");
    b.insert_newline(loc(0, 0));
    assert_eq!(texts(&b), vec!["".to_string(), "ab".to_string()]);
}

#[test]
fn insert_newline_at_line_end() {
    let mut b = Buffer::load("ab");
    b.insert_newline(loc(0, 2));
    assert_eq!(texts(&b), vec!["ab".to_string(), "".to_string()]);
}

#[test]
fn insert_newline_one_past_last_line_appends_empty_line() {
    let mut b = Buffer::load("ab");
    b.insert_newline(loc(1, 0));
    assert_eq!(texts(&b), vec!["ab".to_string(), "".to_string()]);
}

#[test]
fn delete_removes_cluster_under_cursor() {
    let mut b = Buffer::load("abc");
    b.delete(loc(0, 1));
    assert_eq!(texts(&b), vec!["ac".to_string()]);
}

#[test]
fn delete_at_line_end_joins_next_line() {
    let mut b = Buffer::load("ab\ncd");
    b.delete(loc(0, 2));
    assert_eq!(texts(&b), vec!["abcd".to_string()]);
}

#[test]
fn delete_at_buffer_end_is_noop() {
    let mut b = Buffer::load("ab");
    b.delete(loc(0, 2));
    assert_eq!(texts(&b), vec!["ab".to_string()]);
    b.delete(loc(1, 0));
    assert_eq!(texts(&b), vec!["ab".to_string()]);
}

#[test]
fn delete_whole_cluster_at_once() {
    let mut b = Buffer::load("ae\u{301}b");
    b.delete(loc(0, 1));
    assert_eq!(texts(&b), vec!["ab".to_string()]);
}
