use crossterm::event::{
    KeyCode as TermKeyCode, KeyModifiers, MediaKeyCode as TermMedia, ModifierKeyCode as TermModifier,
    MouseButton as TermButton, MouseEvent as TermMouse, MouseEventKind as TermKind,
};
use sted::buffer::Buffer;
use sted::common::line::Line;
use sted::common::textfragment::GraphemeWidth;
use sted::common::types::{Line as PlainLine, Location, Position, Size};
use sted::editor::Editor;
use sted::editorcommand::{
    modifiers_text, CommandError, Direction, EditorCommand, Event, KeyCode, KeyEvent, MediaKeyCode,
    ModifierKeyCode, MouseButton, MouseEvent, MouseEventKind, MODIFIER_CONTROL, MODIFIER_NONE,
    MODIFIER_SHIFT,
};
use sted::view::View;

fn view_of(lines: &[&str], height: usize, width: usize) -> View {
    let mut view = View::new(Size { height, width });
    view.buffer = Buffer {
        lines: lines.iter().map(|s| Line::from(s)).collect(),
        modified: true,
    };
    view
}

fn text_of(view: &View, row: usize) -> String {
    view.buffer.lines[row].to_string()
}

// ----- lines -----

#[test]
fn line_round_trips_its_text() {
    for text in ["", "abc", "a\tb", "👨‍👩‍👧 x", "café", "a\u{200d}b"] {
        assert_eq!(Line::from(text).to_string(), text);
    }
}

#[test]
fn insert_adds_exactly_one_character() {
    let mut line = Line::from("h\u{e9}llo");
    let before = line.text_len();
    line.insert_char(2, '\u{301}');
    assert_eq!(line.text_len(), before + 1);
    // the combining accent joins the grapheme before it
    assert_eq!(line.grapheme_count(), 5);
}

#[test]
fn split_then_append_restores_the_line() {
    let mut line = Line::from("abcdef");
    let rest = line.split_at(2);
    assert_eq!(line.to_string(), "ab");
    line.append(rest);
    assert_eq!(line.to_string(), "abcdef");
    assert_eq!(line.grapheme_count(), 6);
}

#[test]
fn append_keeps_existing_content_first() {
    let mut line = Line::from("ab");
    line.append(Line::from("cd"));
    assert_eq!(line.to_string(), "abcd");
}

#[test]
fn newline_line_is_empty() {
    let line = Line::newline();
    assert_eq!(line.grapheme_count(), 0);
    assert_eq!(line.to_string(), "");
    assert_eq!(line.get(0..10), "");
}

#[test]
fn graphemes_glued_by_a_joiner_form_one_fragment() {
    let line = Line::from("a\u{200d}b");
    assert_eq!(line.grapheme_count(), 1);
    let fragments = Line::content_from_graphemes(&vec!["x\u{200d}".to_string(), "y".to_string(), "z".to_string()]);
    assert_eq!(fragments.len(), 2);
    assert_eq!(fragments[0].grapheme, "x\u{200d}y");
    assert_eq!(fragments[1].grapheme, "z");
    let fragments = Line::content_from_graphemes(&vec!["p".to_string(), "\u{200d}q".to_string()]);
    assert_eq!(fragments.len(), 1);
    assert_eq!(fragments[0].grapheme, "p\u{200d}q");
}

#[test]
fn single_graphemes_get_widths_and_replacements() {
    let fragments = Line::content_from_graphemes(&vec![
        "\t".to_string(),
        " ".to_string(),
        "a".to_string(),
        "\u{65e5}".to_string(),
        "\u{7}".to_string(),
    ]);
    assert_eq!(fragments.len(), 5);
    assert_eq!(fragments[0].rendered_width, GraphemeWidth::Tab);
    assert_eq!(fragments[0].replacement.as_deref(), Some("    "));
    assert_eq!(fragments[1].rendered_width, GraphemeWidth::Half);
    assert_eq!(fragments[1].replacement, None);
    assert_eq!(fragments[2].rendered_width, GraphemeWidth::Half);
    assert_eq!(fragments[2].replacement, None);
    assert_eq!(fragments[3].rendered_width, GraphemeWidth::Full);
    assert_eq!(fragments[4].replacement.as_deref(), Some("\u{25af}"));
    assert_eq!(fragments[4].get_display_text(), "\u{25af}");
    assert_eq!(fragments[2].get_display_text(), "a");
}

#[test]
fn wide_graphemes_take_two_columns() {
    let line = Line::from("\u{65e5}\u{672c}");
    assert_eq!(line.grapheme_count(), 2);
    assert_eq!(line.width_until(1), 2);
    assert_eq!(line.width_until(2), 4);
    assert_eq!(line.width_until(9), 4);
}

#[test]
fn invisible_and_control_characters_are_drawn_as_symbols() {
    assert_eq!(Line::from(" ").get(0..5), " ");
    assert_eq!(Line::from("\u{3000}").get(0..5), "\u{2423}");
    assert_eq!(Line::from("\u{a0}").get(0..5), "\u{2423}");
    assert_eq!(Line::from("\u{7}").get(0..5), "\u{25af}");
}

#[test]
fn get_covering_the_whole_line_draws_it_all() {
    assert_eq!(Line::from("a\tb").get(0..100), "a    b");
    assert_eq!(Line::from("abc").get(0..3), "abc");
}

#[test]
fn get_draws_the_graphemes_within_the_range() {
    let line = Line::from("abcdef");
    assert_eq!(line.get(1..10), "bcdef");
    assert_eq!(line.get(1..4), "bcd");
    assert_eq!(line.get(1..1), "");
    assert_eq!(line.get(0..3), "abc");
    assert_eq!(line.get(4..2), "");
}

#[test]
fn get_marks_cut_graphemes_with_an_ellipsis() {
    // '\u{5168}' is one full-width grapheme over columns 2..4
    assert_eq!(Line::from("ab\u{5168}").get(0..3), "ab\u{2026}");
    assert_eq!(Line::from("ab\u{5168}").get(0..4), "ab\u{5168}");
    assert_eq!(Line::from("\u{5168}ab").get(1..10), "\u{2026}ab");
    let wide = Line::from("\u{65e5}\u{672c}\u{8a9e}");
    assert_eq!(wide.get(0..3), "\u{65e5}\u{2026}");
    assert_eq!(wide.get(1..5), "\u{2026}\u{672c}\u{2026}");
    // a tab cut on both sides by a narrow range
    assert_eq!(Line::from("\t").get(1..2), "\u{2026}\u{2026}");
}

#[test]
fn convert_content_to_string_clamps_its_range() {
    let line = Line::from("abcdef");
    assert_eq!(line.convert_content_to_string(2..4), "cd");
    assert_eq!(line.convert_content_to_string(4..100), "ef");
    assert_eq!(line.convert_content_to_string(5..2), "");
    assert_eq!(line.convert_content_to_string(10..20), "");
}

#[test]
fn scroll_offset_of_a_line_is_recorded() {
    let mut line = Line::from("abc");
    assert_eq!(line.scroll_x(), 0);
    line.set_scroll_x(7);
    assert_eq!(line.scroll_x(), 7);
    assert_eq!(line.split_at(1).scroll_x(), 0);
}

// ----- plain lines and positions -----

#[test]
fn plain_line_get_takes_a_byte_range() {
    let line = PlainLine::from("h\u{e9}llo");
    assert_eq!(line.get(0..3), "h\u{e9}");
    assert_eq!(line.get(0..2), "");
    assert_eq!(line.get(1..100), "\u{e9}llo");
    assert_eq!(line.get(4..2), "");
}

#[test]
fn subtract_saturates_at_zero() {
    let a = Location { x: 5, y: 1 };
    let b = Location { x: 2, y: 3 };
    let d = a.subtract(&b);
    assert_eq!((d.x, d.y), (3, 0));
    let p = Position { row: 1, col: 10 }.subtract(&Position { row: 4, col: 3 });
    assert_eq!((p.row, p.col), (0, 7));
}

#[test]
fn position_from_location_swaps_the_axes() {
    let p: Position = Position::from(Location { x: 4, y: 9 });
    assert_eq!((p.row, p.col), (4, 9));
}

// ----- buffers -----

#[test]
fn load_splits_the_file_into_lines() {
    let buffer = Buffer::load("f", Ok("a\r\nb\n\nc\r".to_string())).unwrap();
    let texts: Vec<String> = buffer.lines.iter().map(|l| l.to_string()).collect();
    assert_eq!(texts, vec!["a", "b", "", "c\r"]);
    assert!(buffer.modified);

    let buffer = Buffer::load("f", Ok("x\n".to_string())).unwrap();
    assert_eq!(buffer.lines.len(), 1);
    let buffer = Buffer::load("f", Ok(String::new())).unwrap();
    assert!(buffer.is_empty());
}

#[test]
fn load_reports_a_file_it_could_not_read() {
    let buffer = Buffer::load("missing.txt", Err("not found".to_string())).unwrap();
    assert_eq!(buffer.lines.len(), 2);
    assert_eq!(buffer.lines[0].to_string(), "Failed to read file at missing.txt");
    assert_eq!(buffer.lines[1].to_string(), "Error message: not found");
}

#[test]
fn newline_then_join_restores_the_text() {
    let mut buffer = Buffer { lines: vec![Line::from("hello world"), Line::from("end")], modified: false };
    buffer.newline(Location { x: 5, y: 0 });
    assert_eq!(buffer.lines.len(), 3);
    assert_eq!(buffer.lines[0].to_string(), "hello");
    assert_eq!(buffer.lines[1].to_string(), " world");
    assert_eq!(buffer.lines[2].to_string(), "end");
    buffer.consolidate_lines(1, 0);
    assert_eq!(buffer.lines.len(), 2);
    assert_eq!(buffer.lines[0].to_string(), "hello world");
    assert_eq!(buffer.lines[1].to_string(), "end");
}

#[test]
fn newline_below_the_last_line_adds_two_lines() {
    let mut buffer = Buffer { lines: vec![Line::from("a")], modified: false };
    buffer.newline(Location { x: 0, y: 1 });
    assert_eq!(buffer.lines.len(), 3);
    assert_eq!(buffer.lines[1].to_string(), "");
    assert_eq!(buffer.lines[2].to_string(), "");
}

#[test]
fn consolidate_lines_into_a_later_line() {
    let mut buffer = Buffer {
        lines: vec![Line::from("a"), Line::from("b"), Line::from("c")],
        modified: false,
    };
    buffer.consolidate_lines(0, 2);
    assert_eq!(buffer.lines.len(), 2);
    assert_eq!(buffer.lines[0].to_string(), "b");
    assert_eq!(buffer.lines[1].to_string(), "ca");
}

#[test]
fn column_of_a_location_counts_widths() {
    let buffer = Buffer { lines: vec![Line::from("a\tb")], modified: false };
    assert_eq!(buffer.get_col_from_text_location(Location { x: 2, y: 0 }), 5);
    assert_eq!(buffer.get_col_from_text_location(Location { x: 2, y: 4 }), 0);
}

// ----- commands -----

#[test]
fn keys_map_to_commands() {
    let key = |code, modifiers| EditorCommand::try_from(Event::Key(KeyEvent::new(code, modifiers)));
    assert_eq!(key(KeyCode::Char('q'), MODIFIER_CONTROL), Ok(EditorCommand::Quit));
    assert_eq!(key(KeyCode::Char('A'), MODIFIER_SHIFT), Ok(EditorCommand::Insert('A')));
    assert_eq!(key(KeyCode::Up, MODIFIER_NONE), Ok(EditorCommand::Move(Direction::Up)));
    assert_eq!(key(KeyCode::PageDown, MODIFIER_NONE), Ok(EditorCommand::Move(Direction::PageDown)));
    assert_eq!(key(KeyCode::Backspace, MODIFIER_NONE), Ok(EditorCommand::BackSpace));
    assert_eq!(key(KeyCode::Delete, MODIFIER_NONE), Ok(EditorCommand::Delete));
    assert_eq!(key(KeyCode::Char('a'), MODIFIER_CONTROL), Err(CommandError::UnsupportedKey(KeyCode::Char('a'))));
    assert_eq!(key(KeyCode::Up, MODIFIER_SHIFT), Err(CommandError::UnsupportedKey(KeyCode::Up)));
}

#[test]
fn other_events_map_to_resize_or_nothing() {
    assert_eq!(
        EditorCommand::try_from(Event::Resize(80, 24)),
        Ok(EditorCommand::Resize(Size { height: 24, width: 80 }))
    );
    assert_eq!(
        EditorCommand::try_from(Event::FocusGained),
        Err(CommandError::UnsupportedEvent(Event::FocusGained))
    );
    assert_eq!(
        EditorCommand::try_from(Event::Paste("x".to_string())),
        Err(CommandError::UnsupportedEvent(Event::Paste("x".to_string())))
    );
}

#[test]
fn errors_tell_what_was_not_supported() {
    let key = |code: KeyCode| CommandError::UnsupportedKey(code).message();
    assert_eq!(key(KeyCode::F(12)), format!("Key Code not supported: {:?}", TermKeyCode::F(12)));
    assert_eq!(key(KeyCode::Char('\n')), format!("Key Code not supported: {:?}", TermKeyCode::Char('\n')));
    assert_eq!(key(KeyCode::Char('x')), format!("Key Code not supported: {:?}", TermKeyCode::Char('x')));
    assert_eq!(key(KeyCode::Esc), format!("Key Code not supported: {:?}", TermKeyCode::Esc));
    assert_eq!(key(KeyCode::CapsLock), format!("Key Code not supported: {:?}", TermKeyCode::CapsLock));
    assert_eq!(key(KeyCode::F(0)), "Key Code not supported: F(0)");
    let event = |e: Event| CommandError::UnsupportedEvent(e).message();
    assert_eq!(
        event(Event::FocusGained),
        format!("Event not supported: {:?}", crossterm::event::Event::FocusGained)
    );
    assert_eq!(
        event(Event::Paste("a\"b".to_string())),
        format!("Event not supported: {:?}", crossterm::event::Event::Paste("a\"b".to_string()))
    );
    assert_eq!(event(Event::Resize(80, 24)), "Event not supported: Resize(80, 24)");
}

#[test]
fn media_and_modifier_keys_are_named_as_the_terminal_names_them() {
    let key = |code: KeyCode| CommandError::UnsupportedKey(code).message();
    assert_eq!(key(KeyCode::Media(MediaKeyCode::Play)), "Key Code not supported: Media(Play)");
    let media = [
        (MediaKeyCode::Play, TermMedia::Play),
        (MediaKeyCode::Pause, TermMedia::Pause),
        (MediaKeyCode::PlayPause, TermMedia::PlayPause),
        (MediaKeyCode::Reverse, TermMedia::Reverse),
        (MediaKeyCode::Stop, TermMedia::Stop),
        (MediaKeyCode::FastForward, TermMedia::FastForward),
        (MediaKeyCode::Rewind, TermMedia::Rewind),
        (MediaKeyCode::TrackNext, TermMedia::TrackNext),
        (MediaKeyCode::TrackPrevious, TermMedia::TrackPrevious),
        (MediaKeyCode::Record, TermMedia::Record),
        (MediaKeyCode::LowerVolume, TermMedia::LowerVolume),
        (MediaKeyCode::RaiseVolume, TermMedia::RaiseVolume),
        (MediaKeyCode::MuteVolume, TermMedia::MuteVolume),
    ];
    for (ours, theirs) in media {
        assert_eq!(
            key(KeyCode::Media(ours)),
            format!("Key Code not supported: {:?}", TermKeyCode::Media(theirs))
        );
    }
    let modifiers = [
        (ModifierKeyCode::LeftShift, TermModifier::LeftShift),
        (ModifierKeyCode::LeftControl, TermModifier::LeftControl),
        (ModifierKeyCode::LeftAlt, TermModifier::LeftAlt),
        (ModifierKeyCode::LeftSuper, TermModifier::LeftSuper),
        (ModifierKeyCode::LeftHyper, TermModifier::LeftHyper),
        (ModifierKeyCode::LeftMeta, TermModifier::LeftMeta),
        (ModifierKeyCode::RightShift, TermModifier::RightShift),
        (ModifierKeyCode::RightControl, TermModifier::RightControl),
        (ModifierKeyCode::RightAlt, TermModifier::RightAlt),
        (ModifierKeyCode::RightSuper, TermModifier::RightSuper),
        (ModifierKeyCode::RightHyper, TermModifier::RightHyper),
        (ModifierKeyCode::RightMeta, TermModifier::RightMeta),
        (ModifierKeyCode::IsoLevel3Shift, TermModifier::IsoLevel3Shift),
        (ModifierKeyCode::IsoLevel5Shift, TermModifier::IsoLevel5Shift),
    ];
    for (ours, theirs) in modifiers {
        assert_eq!(
            key(KeyCode::Modifier(ours)),
            format!("Key Code not supported: {:?}", TermKeyCode::Modifier(theirs))
        );
    }
}

#[test]
fn mouse_events_are_written_as_the_terminal_writes_them() {
    let event = |e: Event| CommandError::UnsupportedEvent(e).message();
    let mouse = MouseEvent { kind: MouseEventKind::Down(MouseButton::Left), column: 3, row: 4, modifiers: 0 };
    assert_eq!(
        event(Event::Mouse(mouse)),
        "Event not supported: Mouse(MouseEvent { kind: Down(Left), column: 3, row: 4, modifiers: KeyModifiers(0x0) })"
    );
    let kinds = [
        (MouseEventKind::Down(MouseButton::Left), TermKind::Down(TermButton::Left)),
        (MouseEventKind::Up(MouseButton::Right), TermKind::Up(TermButton::Right)),
        (MouseEventKind::Drag(MouseButton::Middle), TermKind::Drag(TermButton::Middle)),
        (MouseEventKind::Moved, TermKind::Moved),
        (MouseEventKind::ScrollDown, TermKind::ScrollDown),
        (MouseEventKind::ScrollUp, TermKind::ScrollUp),
        (MouseEventKind::ScrollLeft, TermKind::ScrollLeft),
        (MouseEventKind::ScrollRight, TermKind::ScrollRight),
    ];
    for (kind, term_kind) in kinds {
        for bits in 0u8..=255 {
            let ours = MouseEvent { kind, column: 65535, row: 10, modifiers: bits };
            let theirs = TermMouse {
                kind: term_kind,
                column: 65535,
                row: 10,
                modifiers: KeyModifiers::from_bits_retain(bits),
            };
            assert_eq!(
                event(Event::Mouse(ours)),
                format!("Event not supported: {:?}", crossterm::event::Event::Mouse(theirs))
            );
        }
    }
}

#[test]
fn modifier_sets_are_written_with_their_names() {
    assert_eq!(modifiers_text(0), "KeyModifiers(0x0)");
    assert_eq!(modifiers_text(MODIFIER_SHIFT | MODIFIER_CONTROL), "KeyModifiers(SHIFT | CONTROL)");
    assert_eq!(
        modifiers_text(0xff),
        "KeyModifiers(SHIFT | CONTROL | ALT | SUPER | HYPER | META | 0xc0)"
    );
    assert_eq!(modifiers_text(0x40), "KeyModifiers(0x40)");
}

#[test]
fn white_space_is_that_of_the_white_space_property() {
    for c in (0u32..=0x10ffff).filter_map(char::from_u32) {
        assert_eq!(sted::common::unicode::is_white_space(c), c.is_whitespace(), "{c:?}");
    }
}

#[test]
fn control_characters_are_those_of_category_cc() {
    for c in (0u32..=0x10ffff).filter_map(char::from_u32) {
        assert_eq!(sted::common::unicode::is_control(c), c.is_control(), "{c:?}");
    }
}

// ----- views -----

#[test]
fn right_at_line_end_moves_to_next_line_and_left_comes_back() {
    let mut view = view_of(&["ab", "cde"], 10, 20);
    view.set_location(2, 0);
    view.move_location(Direction::Right);
    assert_eq!((view.location.x, view.location.y), (0, 1));
    view.move_location(Direction::Left);
    assert_eq!((view.location.x, view.location.y), (2, 0));
}

#[test]
fn vertical_moves_keep_the_desired_column() {
    let mut view = view_of(&["abcdef", "ab", "abcdef"], 10, 20);
    view.move_location(Direction::End);
    assert_eq!(view.location.x, 6);
    view.move_location(Direction::Down);
    assert_eq!((view.location.x, view.location.y), (2, 1));
    view.move_location(Direction::Down);
    assert_eq!((view.location.x, view.location.y), (6, 2));
    view.move_location(Direction::Down);
    assert_eq!((view.location.x, view.location.y), (0, 3));
    view.move_location(Direction::Down);
    assert_eq!(view.location.y, 3);
    view.move_location(Direction::Home);
    assert_eq!(view.location.x, 0);
    view.move_location(Direction::PageUp);
    assert_eq!(view.location.y, 0);
    view.move_location(Direction::PageDown);
    assert_eq!(view.location.y, 3);
}

#[test]
fn scrolling_keeps_the_caret_row_in_the_window() {
    let lines: Vec<String> = (0..10).map(|i| format!("line {i}")).collect();
    let refs: Vec<&str> = lines.iter().map(|s| s.as_str()).collect();
    let mut view = view_of(&refs, 3, 20);
    for _ in 0..6 {
        view.move_location(Direction::Down);
        let row = view.scroll_offset.row;
        assert!(row <= view.location.y && view.location.y < row + 3);
    }
    assert_eq!(view.location.y, 6);
    assert_eq!(view.scroll_offset.row, 4);
    assert!(view.modified);
    let caret = view.get_caret_position();
    assert_eq!((caret.row, caret.col), (2, 0));
}

#[test]
fn scrolling_stays_within_the_line() {
    let mut view = view_of(&["abcdefghij"], 5, 4);
    view.move_location(Direction::End);
    // the line is 10 columns wide, the window 4: never scroll past column 6
    assert_eq!(view.scroll_offset.col, 6);
    assert_eq!(view.buffer.lines[0].scroll_x(), 6);
    view.move_location(Direction::Home);
    assert_eq!(view.scroll_offset.col, 0);
}

#[test]
fn newline_moves_the_caret_to_the_new_line() {
    let mut view = view_of(&["hello"], 10, 20);
    view.set_location(2, 0);
    view.handle_newline();
    assert_eq!((view.location.x, view.location.y), (0, 1));
    assert_eq!(text_of(&view, 0), "he");
    assert_eq!(text_of(&view, 1), "llo");
    assert!(view.modified);
}

#[test]
fn handle_command_dispatches() {
    let mut view = view_of(&["abc"], 10, 20);
    view.handle_command(EditorCommand::Insert('x'));
    assert_eq!(text_of(&view, 0), "xabc");
    view.handle_command(EditorCommand::Move(Direction::End));
    assert_eq!(view.location.x, 4);
    view.handle_command(EditorCommand::BackSpace);
    // the caret moves left to 3, and the grapheme after index 3 is deleted: none
    assert_eq!(view.location.x, 3);
    assert_eq!(text_of(&view, 0), "xabc");
    view.handle_command(EditorCommand::Move(Direction::Home));
    view.handle_command(EditorCommand::Delete);
    assert_eq!(text_of(&view, 0), "xbc");
    view.handle_command(EditorCommand::Resize(Size { height: 2, width: 3 }));
    assert_eq!((view.size.height, view.size.width), (2, 3));
    view.handle_command(EditorCommand::NewLine);
    assert_eq!(view.buffer.lines.len(), 2);
    view.handle_command(EditorCommand::Quit);
    assert_eq!(view.buffer.lines.len(), 2);
}

#[test]
fn render_draws_rows_and_tildes() {
    let mut view = view_of(&["abc", "a\tb"], 3, 10);
    let frame = view.render().expect("a modified view is drawn");
    assert_eq!(frame.rows, vec!["abc".to_string(), "a    b".to_string(), "~".to_string()]);
    assert!(frame.welcome.is_empty());
    assert!(!view.modified);
    assert!(!view.buffer.modified);
    assert!(view.render().is_none());
}

#[test]
fn render_of_an_empty_buffer_shows_the_welcome_message() {
    let mut view = View::new(Size { height: 24, width: 80 });
    let frame = view.render().expect("a new view is drawn");
    assert_eq!(frame.rows.len(), 24);
    let placed: Vec<(usize, usize, String)> =
        frame.welcome.iter().map(|p| (p.col, p.row, p.text.clone())).collect();
    assert_eq!(
        placed,
        vec![
            (31, 10, "Welcome to STED!".to_string()),
            (23, 11, "The (S)imple (T)erminal (Ed)itor".to_string()),
            (32, 12, "Version 1.0.0".to_string()),
        ]
    );
    let mut tiny = View::new(Size { height: 0, width: 0 });
    let frame = tiny.render().expect("a new view is drawn");
    assert!(frame.rows.is_empty());
    assert_eq!(frame.welcome.len(), 3);
}

#[test]
fn load_into_a_view() {
    let mut view = View::new(Size { height: 5, width: 5 });
    view.load("f", Ok("one\ntwo".to_string()));
    assert_eq!(view.buffer.lines.len(), 2);
    assert!(view.modified);
    view.resize(Size { height: 1, width: 1 });
    assert_eq!(view.size.height, 1);
}

// ----- editor -----

#[test]
fn editor_turns_events_into_edits_and_quits() {
    let mut editor = Editor::with_view(View::new(Size { height: 5, width: 20 }));
    editor.evaluate_event(Event::Key(KeyEvent::new(KeyCode::Char('h'), MODIFIER_NONE)));
    editor.evaluate_event(Event::Key(KeyEvent::new(KeyCode::Char('I'), MODIFIER_SHIFT)));
    editor.evaluate_event(Event::Key(KeyEvent::new(KeyCode::F(5), MODIFIER_NONE)));
    editor.evaluate_event(Event::FocusLost);
    assert_eq!(editor.view().buffer.lines[0].to_string(), "hI");
    editor.process_resize_event(30, 7);
    assert_eq!((editor.view().size.width, editor.view().size.height), (30, 7));
    editor.evaluate_event(Event::Resize(40, 9));
    assert_eq!((editor.view().size.width, editor.view().size.height), (40, 9));
    let update = editor.refresh_screen();
    assert!(update.frame.is_some());
    assert_eq!((update.caret.row, update.caret.col), (0, 2));
    assert!(editor.refresh_screen().frame.is_none());
    assert!(!editor.should_quit());
    editor.evaluate_event(Event::Key(KeyEvent::new(KeyCode::Char('q'), MODIFIER_CONTROL)));
    assert!(editor.should_quit());
}

#[test]
fn insert_marks_buffer_and_view_modified() {
    let mut view = view_of(&["abc"], 5, 20);
    view.buffer.modified = false;
    view.modified = false;
    view.handle_insert('x');
    assert!(view.buffer.modified);
    assert!(view.modified);
    assert_eq!((view.location.x, view.location.y), (1, 0));
    view.buffer.modified = false;
    view.handle_delete();
    assert!(!view.buffer.modified);
    assert!(view.modified);
}
