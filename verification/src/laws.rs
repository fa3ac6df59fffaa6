//! Properties that hold across the operations of the editor.
use crate::buffer::Buffer;
use crate::common::line::Line;
use crate::common::textfragment::FragmentModel;
use crate::common::textmodel::{
    content_of, cuts, display_concat, graphemes_of, lemma_concat_split, lemma_prefix_width_monotone,
    prefix_width, rendered, shown_text, shows, text_after, text_before, text_of, text_with,
};
use crate::common::types::Location;
use crate::editorcommand::{
    event_command, key_command, CommandError, Event, Direction, EditorCommand, KeyCode, MODIFIER_CONTROL, MODIFIER_NONE, MODIFIER_SHIFT,
};
use crate::view::{Frame, View};
use vstd::prelude::*;
use vstd::view::View as _;

verus! {

/// Inserting a character into a line adds exactly one character to its text,
/// wherever the insertion point is.
pub proof fn law_insert_adds_one_char(frags: Seq<FragmentModel>, index: int, c: char)
    requires
        0 <= index,
    ensures
        text_with(frags, index, c).len() == text_of(frags).len() + 1,
{
    let g = graphemes_of(frags);
    let k = if index <= g.len() {
        index
    } else {
        g.len() as int
    };
    lemma_concat_split(g, k);
}

/// Splitting a line and appending the remainder back onto it gives back
/// the line's text, cut into fragments afresh; for a line read from text
/// (as `Line::from` makes it), that is the very line it was.
pub proof fn law_split_then_append_restores_line(
    line: Line,
    prefix: Line,
    remainder: Line,
    joined: Line,
    index: usize,
)
    requires
        line.split_post(prefix, remainder, index),
        prefix.append_post(joined, remainder),
    ensures
        joined.text() == line.text(),
        joined.fragments() == content_of(line.text()),
        joined.scroll() == line.scroll(),
        line.fragments() == content_of(line.text()) ==> joined.fragments() == line.fragments(),
{
}

/// The raw text of a line, read back into a line, gives a line with the
/// same text, and, for a line read from text, the same graphemes.
pub proof fn law_reparse_round_trip(line: Line, reparsed: Line)
    requires
        reparsed.made_from(line.text()),
    ensures
        reparsed.text() == line.text(),
        line.fragments() == content_of(line.text()) ==> reparsed.fragments() == line.fragments(),
{
}

/// Breaking a line in two (Enter) and joining the lower part back onto the
/// upper one gives back the texts of all lines.
pub proof fn law_newline_then_join_restores_texts(
    start: Buffer,
    split: Buffer,
    joined: Buffer,
    location: Location,
)
    requires
        location.y < start.lines.len(),
        start.newline_post(split, location),
        split.consolidate_post(joined, (location.y + 1) as usize, location.y),
    ensures
        joined.texts() == start.texts(),
{
    let y = location.y as int;
    assert(start.lines.len() == start.lines@.len());
    let line = start.contents()[y];
    let g = graphemes_of(line);
    let k = if location.x <= g.len() {
        location.x as int
    } else {
        g.len() as int
    };
    lemma_concat_split(g, k);
    assert(start.lines@[y].fragments() == line);
    assert(split.contents().len() == start.lines@.len() + 1);
    assert(split.lines@.len() == start.lines@.len() + 1);
    assert(split.consolidates((location.y + 1) as usize, location.y));
    let remaining = split.lines@.remove(y + 1);
    assert forall|i: int| 0 <= i < start.lines@.len() implies #[trigger] joined.lines@[i].text()
        == start.lines@[i].text() by {
        if i < y {
            assert(joined.lines@[i] == remaining[i]);
            assert(split.lines@[i] == start.lines@[i]);
        } else if i > y {
            assert(joined.lines@[i] == remaining[i]);
            assert(remaining[i] == split.lines@[i + 1]);
            assert(split.lines@[i + 1] == start.lines@[i]);
        }
    }
    assert(joined.contents().len() == start.lines@.len());
    assert(joined.texts() =~= start.texts());
}

/// A range of columns that covers a whole line draws the display text of
/// every fragment of the line, without ellipsis.
pub proof fn law_full_range_renders_whole_line(frags: Seq<FragmentModel>, end: int)
    requires
        prefix_width(frags, frags.len() as int) <= end,
    ensures
        rendered(frags, 0, end) == display_concat(frags, 0, frags.len() as int),
{
    let n = frags.len() as int;
    assert forall|i: int| 0 <= i < n implies !#[trigger] cuts(frags, end, i) by {
        lemma_prefix_width_monotone(frags, i + 1, n);
    }
    lemma_everything_shown(frags, end, n);
    assert(rendered(frags, 0, end) =~= display_concat(frags, 0, n));
}

proof fn lemma_everything_shown(frags: Seq<FragmentModel>, end: int, k: int)
    requires
        0 <= k <= frags.len(),
        prefix_width(frags, frags.len() as int) <= end,
    ensures
        shown_text(frags, 0, end, k) == display_concat(frags, 0, k),
    decreases k,
{
    if k > 0 {
        lemma_everything_shown(frags, end, k - 1);
        lemma_prefix_width_monotone(frags, k, frags.len() as int);
        assert(shows(frags, 0, end, k - 1));
    }
}

/// Scrolling a caret into view puts its row within the window (for a
/// window with rows).
pub proof fn law_scroll_keeps_caret_row_visible(view: View)
    requires
        view.size.height > 0,
    ensures
        view.scrolled().row <= view.location.y < view.scrolled().row + view.size.height,
{
}

/// Scrolling never moves the window further right than the end of the
/// caret's line allows: the horizontal offset is at most the line's width
/// beyond the window's width.
pub proof fn law_scroll_stays_within_line(view: View)
    requires
        view.buffer.lines@.len() > 0,
    ensures
        ({
            let line = view.buffer.lines@[view.scroll_line()];
            let line_len = prefix_width(line.fragments(), line.fragments().len() as int);
            view.scrolled().col <= if line_len >= view.size.width {
                line_len - view.size.width
            } else {
                0
            }
        }),
{
}

/// The number of graphemes of line `y` of the view's buffer (0 below the last line).
pub open spec fn graphemes_on(view: View, y: int) -> int {
    if 0 <= y < view.buffer.lines@.len() {
        view.buffer.lines@[y].fragments().len() as int
    } else {
        0
    }
}

/// The facts about sizes that every view's lines have.
proof fn lemma_view_sizes(view: View)
    ensures
        view.buffer.lines@.len() <= usize::MAX,
        forall|y: int|
            0 <= y < view.buffer.lines@.len() ==> #[trigger] view.buffer.lines@[y].fragments().len()
                <= usize::MAX,
{
    assert(view.buffer.lines.len() == view.buffer.lines@.len());
    assert forall|y: int| 0 <= y < view.buffer.lines@.len() implies #[trigger] view.buffer.lines@[y].fragments().len()
        <= usize::MAX by {
        view.buffer.lines@[y].lemma_fragment_count_fits();
    }
}

/// Up moves the caret to the line above (it stays on the first line); Down
/// moves it to the line below while it stands on a line. Both keep the
/// column aimed for, and put the caret there or, on a shorter line, at the
/// line's end.
pub proof fn law_up_and_down_move_one_line(before: View, after: View, direction: Direction)
    requires
        direction == Direction::Up || direction == Direction::Down,
        before.move_post(after, direction),
    ensures
        direction == Direction::Up ==> after.location.y == if before.location.y > 0 {
            before.location.y - 1
        } else {
            0
        },
        direction == Direction::Down ==> after.location.y == if before.location.y
            < before.buffer.lines@.len() {
            before.location.y + 1
        } else {
            before.location.y as int
        },
        after.desired_x == before.desired_x,
        after.location.y < before.buffer.lines@.len() ==> {
            let n = graphemes_on(before, after.location.y as int);
            &&& after.location.x <= before.desired_x
            &&& after.location.x <= n
            &&& after.location.x == before.desired_x || after.location.x == n
        },
        after.location.y >= before.buffer.lines@.len() ==> after.location.x == 0,
{
    lemma_view_sizes(before);
}

/// PageUp moves the caret up by the window's height, stopping at the first
/// line; PageDown moves it down by the window's height, stopping on the row
/// just below the last line. Both keep the column aimed for.
pub proof fn law_page_moves_go_one_window(before: View, after: View, direction: Direction)
    requires
        direction == Direction::PageUp || direction == Direction::PageDown,
        before.move_post(after, direction),
    ensures
        direction == Direction::PageUp ==> after.location.y == if before.location.y >= before.size.height {
            before.location.y - before.size.height
        } else {
            0
        },
        direction == Direction::PageDown ==> after.location.y == if before.location.y + before.size.height
            <= before.buffer.lines@.len() {
            before.location.y + before.size.height
        } else {
            before.buffer.lines@.len() as int
        },
        after.desired_x == before.desired_x,
        after.location.y < before.buffer.lines@.len() ==> {
            let n = graphemes_on(before, after.location.y as int);
            &&& after.location.x <= before.desired_x
            &&& after.location.x <= n
            &&& after.location.x == before.desired_x || after.location.x == n
        },
{
    lemma_view_sizes(before);
}

/// Left moves the caret one grapheme back, or from the start of a line to
/// the end of the line above; Right moves it one grapheme on, or from the
/// end of a line to the start of the next. Either way the column reached is
/// the one then aimed for.
pub proof fn law_left_and_right_move_one_grapheme(before: View, after: View, direction: Direction)
    requires
        direction == Direction::Left || direction == Direction::Right,
        before.move_post(after, direction),
    ensures
        after.desired_x == after.location.x,
        direction == Direction::Left && before.location.x > 0 ==> after.location == (Location {
            x: (before.location.x - 1) as usize,
            y: before.location.y,
        }),
        direction == Direction::Left && before.location.x == 0 && before.location.y > 0 ==> after.location.y
            == before.location.y - 1 && after.location.x == graphemes_on(before, before.location.y - 1),
        direction == Direction::Left && before.location.x == 0 && before.location.y == 0
            ==> after.location == before.location,
        direction == Direction::Right && before.location.y < before.buffer.lines@.len() && before.location.x
            < graphemes_on(before, before.location.y as int) ==> after.location == (Location {
            x: (before.location.x + 1) as usize,
            y: before.location.y,
        }),
        direction == Direction::Right && before.location.y < before.buffer.lines@.len() && before.location.x
            >= graphemes_on(before, before.location.y as int) ==> after.location == (Location {
            x: 0,
            y: (before.location.y + 1) as usize,
        }),
        direction == Direction::Right && before.location.y >= before.buffer.lines@.len() ==> after.location
            == before.location,
{
    lemma_view_sizes(before);
}

/// Home puts the caret at the start of its line, End after the last
/// grapheme of its line; the column reached is then the one aimed for.
pub proof fn law_home_and_end_go_to_line_ends(before: View, after: View, direction: Direction)
    requires
        direction == Direction::Home || direction == Direction::End,
        before.move_post(after, direction),
        before.location.y < before.buffer.lines@.len(),
    ensures
        after.location.y == before.location.y,
        after.desired_x == after.location.x,
        direction == Direction::Home ==> after.location.x == 0,
        direction == Direction::End ==> after.location.x == graphemes_on(before, before.location.y as int),
{
    lemma_view_sizes(before);
}

/// Each navigation key pressed without modifiers moves the caret the way
/// the key is named: Up and Down by one line, Home to the start of the
/// line, End to its end, Left and Right by one grapheme within the line.
pub proof fn law_navigation_keys_move_as_named(before: View, after: View)
    requires
        before.location.y < before.buffer.lines@.len(),
    ensures
        key_command(KeyCode::Up, MODIFIER_NONE) matches Ok(EditorCommand::Move(d)) && (before.move_post(
            after,
            d,
        ) ==> after.location.y == if before.location.y > 0 {
            before.location.y - 1
        } else {
            0
        }),
        key_command(KeyCode::Down, MODIFIER_NONE) matches Ok(EditorCommand::Move(d)) && (before.move_post(
            after,
            d,
        ) ==> after.location.y == before.location.y + 1),
        key_command(KeyCode::Home, MODIFIER_NONE) matches Ok(EditorCommand::Move(d)) && (before.move_post(
            after,
            d,
        ) ==> after.location == (Location { x: 0, y: before.location.y })),
        key_command(KeyCode::End, MODIFIER_NONE) matches Ok(EditorCommand::Move(d)) && (before.move_post(
            after,
            d,
        ) ==> after.location.y == before.location.y && after.location.x == graphemes_on(
            before,
            before.location.y as int,
        )),
        key_command(KeyCode::Left, MODIFIER_NONE) matches Ok(EditorCommand::Move(d)) && (before.move_post(
            after,
            d,
        ) ==> before.location.x > 0 ==> after.location.x == before.location.x - 1 && after.location.y
            == before.location.y),
        key_command(KeyCode::Right, MODIFIER_NONE) matches Ok(EditorCommand::Move(d)) && (before.move_post(
            after,
            d,
        ) ==> before.location.x < graphemes_on(before, before.location.y as int) ==> after.location.x
            == before.location.x + 1 && after.location.y == before.location.y),
        key_command(KeyCode::PageUp, MODIFIER_NONE) matches Ok(EditorCommand::Move(d)) && (
        before.move_post(after, d) ==> after.location.y <= before.location.y),
        key_command(KeyCode::PageDown, MODIFIER_NONE) matches Ok(EditorCommand::Move(d)) && (
        before.move_post(after, d) ==> after.location.y >= before.location.y),
{
    lemma_view_sizes(before);
}

/// A character typed alone or with Shift is inserted as it is; Tab inserts
/// a tab, Enter breaks the line, Delete and Backspace delete, Control-Q
/// quits; a key held with any other modifiers asks for nothing; a resize
/// of the terminal to `width` columns and `height` rows resizes the window
/// to just that.
pub proof fn law_typing_inserts_what_is_typed(c: char, code: KeyCode, modifiers: u8, width: u16, height: u16)
    ensures
        key_command(KeyCode::Delete, MODIFIER_NONE) == Ok::<EditorCommand, CommandError>(EditorCommand::Delete),
        key_command(KeyCode::Backspace, MODIFIER_NONE) == Ok::<EditorCommand, CommandError>(
            EditorCommand::BackSpace,
        ),
        event_command(Event::Resize(width, height)) matches Ok(EditorCommand::Resize(size)) && size.width
            == width && size.height == height,
        key_command(KeyCode::Char(c), MODIFIER_NONE) == Ok::<EditorCommand, CommandError>(EditorCommand::Insert(c)),
        key_command(KeyCode::Char(c), MODIFIER_SHIFT) == Ok::<EditorCommand, CommandError>(EditorCommand::Insert(c)),
        key_command(KeyCode::Tab, MODIFIER_NONE) == Ok::<EditorCommand, CommandError>(EditorCommand::Insert('\t')),
        key_command(KeyCode::Enter, MODIFIER_NONE) == Ok::<EditorCommand, CommandError>(EditorCommand::NewLine),
        key_command(KeyCode::Char('q'), MODIFIER_CONTROL) == Ok::<EditorCommand, CommandError>(EditorCommand::Quit),
        key_command(code, modifiers) is Ok ==> modifiers == MODIFIER_NONE || modifiers == MODIFIER_SHIFT || (
        code == KeyCode::Char('q') && modifiers == MODIFIER_CONTROL),
{
}

/// Scrolling the caret into view leaves the caret's column (in screen
/// columns from the start of its line) inside the window: at or right of
/// the window's left edge, and left of its right edge, unless the caret
/// stands after the line's last grapheme on a line wider than the window,
/// where the window stops at the line's end and the caret is on its right edge.
pub proof fn law_scroll_keeps_caret_column_visible(before: View, after: View)
    requires
        before.scrolls_into_view(after),
        before.size.width > 0,
        before.location.y < before.buffer.lines@.len(),
        ({
            let frags = before.buffer.lines@[before.location.y as int].fragments();
            prefix_width(frags, frags.len() as int) <= usize::MAX
        }),
    ensures
        ({
            let frags = before.buffer.lines@[before.location.y as int].fragments();
            let line_width = prefix_width(frags, frags.len() as int);
            let caret_col = prefix_width(frags, before.location.x as int);
            &&& after.scroll_offset.col <= caret_col <= after.scroll_offset.col + before.size.width
            &&& caret_col < after.scroll_offset.col + before.size.width || caret_col == line_width
        }),
{
    let frags = before.buffer.lines@[before.location.y as int].fragments();
    let x = before.location.x as int;
    if x <= frags.len() {
        lemma_prefix_width_monotone(frags, x, frags.len() as int);
    } else {
        assert(prefix_width(frags, x) == prefix_width(frags, frags.len() as int));
    }
}

/// The caret is drawn where it stands in its line, less the window's
/// scroll offset: its screen column plus the horizontal offset is its
/// column within the line, and its screen row plus the vertical offset is
/// its line (when the window is not scrolled past it).
pub proof fn law_caret_drawn_relative_to_scroll(view: View)
    requires
        view.location.y < view.buffer.lines@.len(),
        ({
            let frags = view.buffer.lines@[view.location.y as int].fragments();
            prefix_width(frags, frags.len() as int) <= usize::MAX
        }),
    ensures
        ({
            let frags = view.buffer.lines@[view.location.y as int].fragments();
            let caret_col = prefix_width(frags, view.location.x as int);
            &&& caret_col >= view.scroll_offset.col ==> view.caret_position().col + view.scroll_offset.col
                == caret_col
            &&& caret_col < view.scroll_offset.col ==> view.caret_position().col == 0
            &&& view.location.y >= view.scroll_offset.row ==> view.caret_position().row
                + view.scroll_offset.row == view.location.y
            &&& view.location.y < view.scroll_offset.row ==> view.caret_position().row == 0
        }),
{
    let frags = view.buffer.lines@[view.location.y as int].fragments();
    let x = view.location.x as int;
    if x <= frags.len() {
        lemma_prefix_width_monotone(frags, x, frags.len() as int);
    } else {
        assert(prefix_width(frags, x) == prefix_width(frags, frags.len() as int));
    }
}

/// Once scrolled into view, the caret is drawn inside the window: on one of
/// its rows, and left of its right edge (on the edge only after the last
/// grapheme of a line wider than the window).
pub proof fn law_scrolled_caret_is_drawn_in_window(before: View, after: View)
    requires
        before.scrolls_into_view(after),
        before.size.width > 0,
        before.size.height > 0,
        before.location.y < before.buffer.lines@.len(),
        ({
            let frags = before.buffer.lines@[before.location.y as int].fragments();
            prefix_width(frags, frags.len() as int) <= usize::MAX
        }),
    ensures
        after.caret_position().row < after.size.height,
        after.caret_position().col <= after.size.width,
        ({
            let frags = before.buffer.lines@[before.location.y as int].fragments();
            after.caret_position().col < after.size.width || prefix_width(frags, before.location.x as int)
                == prefix_width(frags, frags.len() as int)
        }),
{
    let y = before.location.y as int;
    assert(after.buffer.lines@.len() == after.buffer.contents().len());
    assert(after.buffer.lines@[y].fragments() == after.buffer.contents()[y]);
    assert(before.buffer.lines@[y].fragments() == before.buffer.contents()[y]);
    law_scroll_keeps_caret_column_visible(before, after);
    law_caret_drawn_relative_to_scroll(after);
}

/// A redrawn window has one row per screen row; screen row `r` shows the
/// buffer line `r` rows below the window's top line, cut to the window's
/// columns, and `~` where that line does not exist.
pub proof fn law_screen_rows_show_scrolled_lines(view: View, frame: Option<Frame>, row: int)
    requires
        view.modified,
        view.renders(frame),
        view.size.height > 0,
        view.size.width > 0,
        0 <= row < view.size.height,
    ensures
        frame matches Some(f) && f.rows@.len() == view.size.height && {
            let line = row + view.scroll_offset.row;
            let left = view.scroll_offset.col as int;
            &&& line < view.buffer.lines@.len() && left + view.size.width <= usize::MAX ==> f.rows@[row]@
                == rendered(view.buffer.lines@[line].fragments(), left, left + view.size.width)
            &&& line >= view.buffer.lines@.len() ==> f.rows@[row]@ == seq!['~']
        },
{
    let f = frame->Some_0;
    assert(view.buffer.lines.len() == view.buffer.lines@.len());
    assert(f.rows@.map_values(|r: String| r@).len() == f.rows@.len());
    assert(f.rows@.map_values(|r: String| r@)[row] == f.rows@[row]@);
}

/// Inserting `c` at a grapheme index gives the text before that index,
/// then `c`, then the text from that index on: the two parts that breaking
/// the line there would give, and which together are the line's text.
pub proof fn law_insert_goes_between_split_parts(frags: Seq<FragmentModel>, index: int, c: char)
    requires
        0 <= index,
    ensures
        text_with(frags, index, c) == text_before(frags, index) + seq![c] + text_after(frags, index),
        text_before(frags, index) + text_after(frags, index) == text_of(frags),
{
    let g = graphemes_of(frags);
    let k = if index <= g.len() {
        index
    } else {
        g.len() as int
    };
    lemma_concat_split(g, k);
}

/// Deleting at a location on a line removes exactly the grapheme at that
/// index: those before it stay, those after it move one place back, and no
/// other line changes; at or past the line's end nothing changes.
pub proof fn law_delete_removes_the_grapheme_at_location(before: Buffer, after: Buffer, location: Location)
    requires
        before.delete_post(after, location),
        location.y < before.lines@.len(),
    ensures
        ({
            let old_frags = before.lines@[location.y as int].fragments();
            let new_frags = after.lines@[location.y as int].fragments();
            let x = location.x as int;
            &&& x < old_frags.len() ==> {
                &&& new_frags.len() == old_frags.len() - 1
                &&& forall|i: int| 0 <= i < x ==> #[trigger] new_frags[i] == old_frags[i]
                &&& forall|i: int| x <= i < new_frags.len() ==> #[trigger] new_frags[i] == old_frags[i + 1]
            }
            &&& x >= old_frags.len() ==> new_frags == old_frags
        }),
        forall|i: int|
            0 <= i < before.lines@.len() && i != location.y ==> #[trigger] after.lines@[i].text()
                == before.lines@[i].text(),
{
    let y = location.y as int;
    assert(after.contents().len() == after.lines@.len());
    assert(after.contents()[y] == after.lines@[y].fragments());
    assert(before.contents()[y] == before.lines@[y].fragments());
}

} // verus!
