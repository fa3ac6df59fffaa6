use sted::common::constants::TAB_WIDTH_SPACES;
use sted::common::line::Line;

#[test]
fn delete_grapheme_removes_correct_grapheme() {
    let mut line = Line::from("hello");
    assert_eq!(line.grapheme_count(), 5);

    line.delete_grapheme(2); // removes 'l'
    assert_eq!(line.to_string(), "helo");
}

#[test]
fn delete_grapheme_at_start_and_end() {
    let mut line = Line::from("abc");

    line.delete_grapheme(0); // remove 'a'
    assert_eq!(line.to_string(), "bc");

    let mut line = Line::from("abc");
    line.delete_grapheme(2); // remove 'c' — left with ["a", "b"]
    assert_eq!(line.to_string(), "ab");

    // On the same line, delete at index 0 removes 'a', leaving ['b']
    line.delete_grapheme(0);
    assert_eq!(line.to_string(), "b");
}

#[test]
fn delete_grapheme_out_of_bounds_is_noop() {
    let mut line = Line::from("abcd");
    let original_count = line.grapheme_count();

    // Index 4 is past the end (valid indices are 0..3)
    line.delete_grapheme(4);
    assert_eq!(line.grapheme_count(), original_count);

    line.delete_grapheme(100);
    assert_eq!(line.grapheme_count(), original_count);
}

#[test]
fn delete_grapheme_empty_line_is_noop() {
    let mut line = Line::from("");
    line.delete_grapheme(0);
    assert_eq!(line.grapheme_count(), 0);
}

#[test]
fn delete_grapheme_removes_whole_emoji_grapheme() {
    // The family emoji is a ZWJ sequence held as a single fragment.
    let mut line = Line::from("👨‍👩‍👧");
    assert!(line.grapheme_count() >= 1);

    line.delete_grapheme(0);
    assert_eq!(line.grapheme_count(), 0);
}

#[test]
fn insert_char_at_beginning() {
    let mut line = Line::from("bc");
    line.insert_char(0, 'a');
    assert_eq!(line.to_string(), "abc");
}

#[test]
fn insert_char_in_middle() {
    let mut line = Line::from("ac");
    line.insert_char(1, 'b');
    assert_eq!(line.to_string(), "abc");
}

#[test]
fn insert_char_at_end() {
    let mut line = Line::from("ab");
    line.insert_char(2, 'c');
    assert_eq!(line.to_string(), "abc");
}

#[test]
fn line_insert_char_into_empty_line() {
    let mut line = Line::from("");
    line.insert_char(0, 'x');
    assert_eq!(line.to_string(), "x");
    assert_eq!(line.grapheme_count(), 1);
}

#[test]
fn insert_char_out_of_bounds_pushes_at_end() {
    let mut line = Line::from("abc");
    // Insert past the end — should still append at EOF
    line.insert_char(10, 'z');
    assert_eq!(line.grapheme_count(), 4);
    assert_eq!(line.to_string(), "abcz");
}

#[test]
fn insert_char_into_empty_line_out_of_bounds() {
    let mut line = Line::from("");
    // Empty line: index 5 is out of bounds, should still work
    line.insert_char(5, 'w');
    assert_eq!(line.grapheme_count(), 1);
    assert_eq!(line.to_string(), "w");
}

#[test]
fn insert_char_multiple_times_preserves_order() {
    let mut line = Line::from("");
    line.insert_char(0, 'c');
    line.insert_char(0, 'b');
    line.insert_char(0, 'a');
    assert_eq!(line.to_string(), "abc");
}

#[test]
fn insert_char_preserves_existing_graphemes() {
    let mut line = Line::from("hello");
    line.insert_char(3, 'X');
    assert_eq!(line.to_string(), "helXlo");

    // Verify remaining graphemes are intact
    line.insert_char(6, 'Y');
    assert_eq!(line.to_string(), "helXloY");
}

#[test]
fn insert_char_with_emoji() {
    let mut line = Line::from("ab");
    line.insert_char(1, '👍');
    let text = line.to_string();
    assert!(text.contains('👍'));
    assert_eq!(line.grapheme_count(), 3);
}

#[test]
fn insert_char_at_beginning_of_emoji_line() {
    let mut line = Line::from("👍bc");
    line.insert_char(0, 'a');
    let text = line.to_string();
    assert!(text.starts_with('a'));
    assert_eq!(line.grapheme_count(), 4);
}

#[test]
fn insert_char_between_two_emoji() {
    let mut line = Line::from("👍🎉");
    line.insert_char(1, 'x');
    let text = line.to_string();
    assert_eq!(text, "👍x🎉");
    assert_eq!(line.grapheme_count(), 3);
}

#[test]
fn insert_char_repeatedly_at_same_position() {
    let mut line = Line::from("abc");
    for i in 0..5 {
        line.insert_char(1, char::from_digit(i, 10).unwrap());
    }
    let text = line.to_string();
    // Each insertion at index 1 pushes the previous inserted characters right
    assert_eq!(text, "a43210bc");
}

#[test]
fn insert_char_into_line_with_empty_graphemes() {
    // Insert between two normal chars on any existing grapheme count
    let mut line = Line::from("hello");
    line.insert_char(0, 'H');
    assert_eq!(line.to_string(), "Hhello");
}

#[test]
fn split_at_mid_line_splits_into_prefix_and_remainder() {
    let mut line = Line::from("abcdef");
    let after = line.split_at(3);
    assert_eq!(line.to_string(), "abc");
    assert_eq!(after.to_string(), "def");
}

#[test]
fn split_at_beginning_of_line_yields_empty_prefix() {
    let mut line = Line::from("abcdef");
    let after = line.split_at(0);
    assert_eq!(line.grapheme_count(), 0);
    assert_eq!(after.to_string(), "abcdef");
}

#[test]
fn split_at_end_of_line_yields_empty_remainder() {
    let mut line = Line::from("abcdef");
    let after = line.split_at(6);
    assert_eq!(line.to_string(), "abcdef");
    assert_eq!(after.grapheme_count(), 0);
}

#[test]
fn split_at_on_empty_line_yields_two_empty_lines() {
    let mut line = Line::from("");
    let after = line.split_at(0);
    assert_eq!(line.grapheme_count(), 0);
    assert_eq!(after.grapheme_count(), 0);
}

#[test]
fn split_at_out_of_bounds_clamps_to_end_of_line() {
    let mut line = Line::from("abc");
    let after = line.split_at(100);
    assert_eq!(line.to_string(), "abc");
    assert_eq!(after.grapheme_count(), 0);
}

#[test]
fn split_at_never_splits_a_merged_emoji_fragment() {
    let mut line = Line::from("a👨‍👩‍👧b");
    // 'a', the family emoji (merged into one fragment), 'b'
    assert_eq!(line.grapheme_count(), 3);

    let after = line.split_at(2);

    assert_eq!(line.to_string(), "a👨‍👩‍👧");
    assert_eq!(after.to_string(), "b");
}

#[test]
fn width_until_counts_a_tab_as_tab_width_spaces() {
    let line = Line::from("ab\tx");
    assert_eq!(line.width_until(0), 0);
    assert_eq!(line.width_until(1), 1);
    assert_eq!(line.width_until(2), 2);
    // the tab occupies TAB_WIDTH_SPACES columns
    assert_eq!(line.width_until(3), 2 + TAB_WIDTH_SPACES);
    assert_eq!(line.width_until(4), 3 + TAB_WIDTH_SPACES);
}

#[test]
fn width_until_on_tab_only_line_is_tab_width() {
    let line = Line::from("\t");
    assert_eq!(line.width_until(1), TAB_WIDTH_SPACES);
}

#[test]
fn get_renders_a_tab_as_tab_width_spaces() {
    let line = Line::from("a\tb");
    assert_eq!(line.get(0..10), "a    b");
}
