use tinyedit::line::Line;

#[test]
fn from_reconstructs_ascii() {
    let l = Line::from("hello");
    assert_eq!(l.text_string(), "hello");
    assert_eq!(l.grapheme_count(), 5);
}

#[test]
fn from_reconstructs_combining_cluster() {
    // e + combining acute is one user-perceived character.
    let s = "he\u{301}llo";
    let l = Line::from(s);
    assert_eq!(l.text_string(), s);
    assert_eq!(l.grapheme_count(), 5);
}

#[test]
fn from_reconstructs_flags_and_wide() {
    let s = "a\u{1F1F7}\u{1F1FA}日";
    let l = Line::from(s);
    assert_eq!(l.text_string(), s);
    assert_eq!(l.grapheme_count(), 3);
}

#[test]
fn from_empty_line() {
    let l = Line::from("");
    assert_eq!(l.text_string(), "");
    assert_eq!(l.grapheme_count(), 0);
}

#[test]
fn width_until_half_width_cluster_counts_one() {
    // Matches the worked example: all clusters are half width, so the width
    // up to any index equals the index.
    let l = Line::from("he\u{301}llo");
    assert_eq!(l.width_until(2), 2);
    assert_eq!(l.width_until(5), 5);
    assert_eq!(l.width_until(0), 0);
}

#[test]
fn width_until_full_width_counts_two() {
    let l = Line::from("日本");
    assert_eq!(l.width_until(1), 2);
    assert_eq!(l.width_until(2), 4);
}

#[test]
fn width_until_is_monotone() {
    let l = Line::from("a日b本c");
    let mut prev = 0;
    for i in 0..=l.grapheme_count() {
        let w = l.width_until(i);
        assert!(w >= prev);
        prev = w;
    }
}

#[test]
fn width_until_past_count_clamps() {
    let l = Line::from("ab");
    assert_eq!(l.width_until(10), 2);
}

#[test]
fn visible_graphemes_plain_range() {
    let l = Line::from("abcdef");
    assert_eq!(l.get_visible_graphemes(1, 4), "bcd");
}

#[test]
fn visible_graphemes_empty_range() {
    let l = Line::from("abcdef");
    assert_eq!(l.get_visible_graphemes(3, 3), "");
    assert_eq!(l.get_visible_graphemes(4, 2), "");
}

#[test]
fn visible_graphemes_left_clipped_wide_glyph_is_ellipsis() {
    // 日 occupies columns 0..2; a range starting at column 1 cuts it in half,
    // so an ellipsis stands in for it.
    let l = Line::from("日本語");
    assert_eq!(l.get_visible_graphemes(1, 6), "\u{2026}本語");
}

#[test]
fn visible_graphemes_right_clipped_wide_glyph_is_ellipsis() {
    let l = Line::from("日本語");
    assert_eq!(l.get_visible_graphemes(0, 5), "日本\u{2026}");
}

#[test]
fn visible_graphemes_never_shows_half_glyph() {
    let l = Line::from("日本語");
    for start in 0..7usize {
        for end in 0..7usize {
            let shown = l.get_visible_graphemes(start, end);
            for piece in ["日", "本", "語"] {
                // a wide glyph appears whole or not at all; the ellipsis
                // marker stands in for clipped ones
                assert!(shown.matches(piece).count() <= 1);
            }
            assert!(!shown.contains('\u{FFFD}'));
        }
    }
}

#[test]
fn visible_graphemes_tab_shows_space() {
    let l = Line::from("a\tb");
    assert_eq!(l.get_visible_graphemes(0, 3), "a b");
}

#[test]
fn visible_graphemes_control_measures_one_column() {
    // The width tables give a lone control character one column, so it falls
    // through the zero-width substitutions and renders as itself.
    let l = Line::from("\u{7}");
    assert_eq!(l.grapheme_count(), 1);
    assert_eq!(l.width_until(1), 1);
    assert_eq!(l.get_visible_graphemes(0, 1), "\u{7}");
}

#[test]
fn visible_graphemes_combining_mark_alone_shows_dot() {
    let l = Line::from("\u{301}");
    assert_eq!(l.get_visible_graphemes(0, 1), "\u{b7}");
}

#[test]
fn visible_graphemes_wide_space_shows_underscore() {
    // The ideographic space is whitespace with a positive width.
    let l = Line::from("\u{3000}");
    assert_eq!(l.get_visible_graphemes(0, 1), "_");
}

#[test]
fn visible_graphemes_plain_space_stays() {
    let l = Line::from("a b");
    assert_eq!(l.get_visible_graphemes(0, 3), "a b");
}

#[test]
fn insert_char_at_count_appends() {
    let mut l = Line::from("ab");
    l.insert_char('c', 2);
    assert_eq!(l.text_string(), "abc");
}

#[test]
fn insert_char_at_zero_prepends() {
    let mut l = Line::from("ab");
    l.insert_char('c', 0);
    assert_eq!(l.text_string(), "cab");
}

#[test]
fn insert_char_in_middle() {
    let mut l = Line::from("ab");
    l.insert_char('x', 1);
    assert_eq!(l.text_string(), "axb");
    assert_eq!(l.grapheme_count(), 3);
}

#[test]
fn insert_char_past_count_appends() {
    let mut l = Line::from("ab");
    l.insert_char('z', 99);
    assert_eq!(l.text_string(), "abz");
}

#[test]
fn insert_combining_mark_merges_into_cluster() {
    // A combining mark appended after a base letter joins its cluster: the
    // text grows but the cluster count stays.
    let mut l = Line::from("a");
    l.insert_char('\u{301}', 1);
    assert_eq!(l.text_string(), "a\u{301}");
    assert_eq!(l.grapheme_count(), 1);
}

#[test]
fn insert_then_remove_restores_line() {
    let mut l = Line::from("he\u{301}llo");
    let original = l.text_string();
    for i in 0..=5usize {
        l.insert_char('x', i);
        l.remove_grapheme(i);
        assert_eq!(l.text_string(), original);
        assert_eq!(l.grapheme_count(), 5);
    }
}

#[test]
fn remove_grapheme_takes_whole_cluster() {
    let mut l = Line::from("ae\u{301}b");
    l.remove_grapheme(1);
    assert_eq!(l.text_string(), "ab");
}

#[test]
fn split_off_divides_text() {
    let mut l = Line::from("abcd");
    let rest = l.split_off(2);
    assert_eq!(l.text_string(), "ab");
    assert_eq!(rest.text_string(), "cd");
}

#[test]
fn append_line_joins_text() {
    let mut l = Line::from("ab");
    let other = Line::from("cd");
    l.append_line(&other);
    assert_eq!(l.text_string(), "abcd");
}
