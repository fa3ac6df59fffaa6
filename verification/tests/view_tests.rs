use sted::buffer::Buffer;
use sted::common::line::Line;
use sted::common::types::{Location, Position, Size};
use sted::view::View;

fn make_view(lines_data: &[&str]) -> View {
    let buffer = Buffer {
        lines: lines_data.iter().copied().map(|s| Line::from(s)).collect(),
        modified: true,
    };
    View {
        buffer,
        modified: false,
        size: Size {
            height: 24,
            width: 80,
        },
        location: Location::default(),
        scroll_offset: Position::default(),
        desired_x: 0,
    }
}

#[test]
fn handle_delete_marks_view_as_modified() {
    let mut view = make_view(&["abc"]);
    assert!(!view.modified); // render clears modified

    view.handle_delete();
    assert!(view.modified);
}

#[test]
fn handle_delete_removes_grapheme_from_current_line() {
    let mut view = make_view(&["hello"]);
    view.set_location(0, 0);

    view.handle_delete(); // deletes grapheme at index 1 ('e')
    assert_eq!(view.buffer.lines[0].grapheme_count(), 4);
    let text: String = view.buffer.lines[0]
        .convert_content_to_string(0..view.buffer.lines[0].grapheme_count());
    assert!(!text.contains('e'));
}

#[test]
fn handle_delete_on_nonzero_location() {
    let mut view = make_view(&["abcdef"]);
    view.set_location(3, 0); // caret between 'd' and 'e'

    view.handle_delete(); // deletes grapheme at index 4 ('e')
    let text: String = view.buffer.lines[0]
        .convert_content_to_string(0..view.buffer.lines[0].grapheme_count());
    assert!(!text.contains('e'));
}

#[test]
fn handle_delete_with_out_of_bounds_location() {
    let mut view = make_view(&["abc"]);
    // Location is (0, 0) which is within bounds — buffer.delete handles row-OOB internally
    view.handle_delete();
    assert!(view.modified);
    let text: String = view.buffer.lines[0]
        .convert_content_to_string(0..view.buffer.lines[0].grapheme_count());
    assert!(!text.contains('b'));
}

#[test]
fn handle_delete_across_multiple_lines() {
    let mut view = make_view(&["first", "second"]);
    let first_len_before = view.buffer.lines[0].grapheme_count();
    view.set_location(1, 0); // delete from first line
    view.handle_delete();
    assert_eq!(view.buffer.lines[0].grapheme_count(), first_len_before - 1);

    let second_len_before = view.buffer.lines[1].grapheme_count();
    view.set_location(2, 1); // delete from second line
    view.handle_delete();
    assert_eq!(view.buffer.lines[1].grapheme_count(), second_len_before - 1);

    assert!(view.modified);
}

#[test]
fn handle_insert_marks_view_as_modified() {
    let mut view = make_view(&["hello"]);
    assert!(!view.modified); // render clears modified

    view.handle_insert('x');
    assert!(view.modified);
}

#[test]
fn handle_insert_moves_caret_right_by_one_column() {
    let mut view = make_view(&["hello"]);
    view.set_location(2, 0);
    assert_eq!(view.location.x, 2);

    view.handle_insert('x');
    assert_eq!(view.location.x, 3);
    assert_eq!(view.location.y, 0); // row should not change
}

#[test]
fn handle_insert_at_beginning_of_line() {
    let mut view = make_view(&["hello"]);
    view.set_location(0, 0);

    view.handle_insert('x');
    let text: String = view.buffer.lines[0]
        .convert_content_to_string(0..view.buffer.lines[0].grapheme_count());
    assert_eq!(text, "xhello");
}

#[test]
fn handle_insert_at_end_of_line() {
    let mut view = make_view(&["hello"]);
    let line_len = view.buffer.lines[0].grapheme_count();
    view.set_location(line_len, 0); // position at end of "hello"

    view.handle_insert('!');
    assert_eq!(view.location.x, line_len + 1);
    let text: String = view.buffer.lines[0]
        .convert_content_to_string(0..view.buffer.lines[0].grapheme_count());
    assert_eq!(text, "hello!");
}

#[test]
fn handle_insert_in_middle_of_line() {
    let mut view = make_view(&["hello world"]);
    view.set_location(5, 0); // position at the space

    view.handle_insert('|');
    assert_eq!(view.location.x, 6);
    let text: String = view.buffer.lines[0]
        .convert_content_to_string(0..view.buffer.lines[0].grapheme_count());
    assert_eq!(text, "hello| world");
}

#[test]
fn handle_insert_on_empty_line() {
    let mut view = make_view(&[""]);
    view.set_location(0, 0);

    view.handle_insert('a');
    assert_eq!(view.location.x, 1);
    let text: String = view.buffer.lines[0]
        .convert_content_to_string(0..view.buffer.lines[0].grapheme_count());
    assert_eq!(text, "a");
}

#[test]
fn handle_insert_on_empty_lines() {
    let mut view = make_view(&["", ""]);
    view.set_location(0, 0);

    view.handle_insert('x');
    assert_eq!(view.location.x, 1);
    view.handle_insert('y');
    assert_eq!(view.location.x, 2);
    let text: String = view.buffer.lines[0]
        .convert_content_to_string(0..view.buffer.lines[0].grapheme_count());
    assert_eq!(text, "xy");
}

#[test]
fn handle_insert_on_different_rows() {
    let mut view = make_view(&["abc", "def"]);

    // Insert on first line
    view.set_location(0, 0);
    view.handle_insert('A');
    assert_eq!(view.location.x, 1);
    let text: String = view.buffer.lines[0]
        .convert_content_to_string(0..view.buffer.lines[0].grapheme_count());
    assert_eq!(text, "Aabc");

    // Move to second line and insert
    view.set_location(1, 1); // after 'd'
    view.handle_insert('X');
    assert_eq!(view.location.x, 2);
    let text: String = view.buffer.lines[1]
        .convert_content_to_string(0..view.buffer.lines[1].grapheme_count());
    assert_eq!(text, "dXef");
}

#[test]
fn handle_insert_does_not_affect_other_lines() {
    let mut view = make_view(&["first", "middle", "last"]);
    let first_len_before = view.buffer.lines[0].grapheme_count();
    let last_len_before = view.buffer.lines[2].grapheme_count();
    view.set_location(2, 1); // middle line ("middle" has 6 graphemes)

    view.handle_insert('x');

    // Only the middle line should change — its length goes from 6 to 7
    assert_eq!(view.buffer.lines[1].grapheme_count(), 7);
    assert_eq!(view.buffer.lines[0].grapheme_count(), first_len_before);
    assert_eq!(view.buffer.lines[2].grapheme_count(), last_len_before);
}

#[test]
fn handle_insert_with_multicharacter_graphemes() {
    let mut view = make_view(&["café"]);
    // 'f' is at grapheme index 3, insert '!' after the é (index 4)
    view.set_location(4, 0);

    view.handle_insert('!');
    assert_eq!(view.location.x, 5);
    let text: String = view.buffer.lines[0]
        .convert_content_to_string(0..view.buffer.lines[0].grapheme_count());
    assert_eq!(text, "café!");
}
