use crate::buffer::{text_lines, Buffer};
use crate::common::line::Line;
use crate::common::textmodel::{content_of, line_capacity, prefix_width, rendered};
use crate::common::types::{saturating_diff, Location, Position, Size};
use crate::editorcommand::{Direction, EditorCommand};
use vstd::prelude::*;
use vstd::view::View as _;

verus! {

/// The text shown in a window onto a buffer, with the caret and the
/// scroll offset of the window.
pub struct View {
    pub buffer: Buffer,
    pub modified: bool,
    pub size: Size,
    pub location: Location,  // location in the text (col, row) of grapheme
    pub scroll_offset: Position,  // top left corner of viewport as a grid (independent of grapheme width)
    pub desired_x: usize,
}

/// `a + b`, or `usize::MAX` where that overflows.
pub open spec fn saturating_sum(a: usize, b: usize) -> usize {
    if a + b <= usize::MAX {
        (a + b) as usize
    } else {
        usize::MAX
    }
}

pub open spec fn min(a: usize, b: usize) -> usize {
    if a <= b {
        a
    } else {
        b
    }
}

fn min_usize(a: usize, b: usize) -> (m: usize)
    ensures
        m == min(a, b),
{
    if a <= b {
        a
    } else {
        b
    }
}

/// What is drawn on screen row `row` of a window of the given width onto
/// `lines`, scrolled by `scroll`: the visible part of a line, or `~` below
/// the last line.
pub open spec fn row_text(lines: Seq<Line>, scroll: Position, width: usize, row: int) -> Seq<char> {
    let index = saturating_sum(row as usize, scroll.row);
    if index < lines.len() {
        rendered(
            lines[index as int].fragments(),
            scroll.col as int,
            saturating_sum(scroll.col, width) as int,
        )
    } else {
        seq!['~']
    }
}

/// The rows drawn in a window of the given size onto `lines`, scrolled by
/// `scroll` (none in a window without rows or columns).
pub open spec fn rows_drawn(lines: Seq<Line>, scroll: Position, size: Size) -> Seq<Seq<char>> {
    if size.height == 0 || size.width == 0 {
        Seq::empty()
    } else {
        Seq::new(size.height as nat, |row: int| row_text(lines, scroll, size.width, row))
    }
}

/// Where the three lines of the welcome message go in a window of the given size.
pub open spec fn welcome_layout(size: Size) -> Seq<(usize, usize, Seq<char>)> {
    let welcome_row = saturating_diff(size.height / 2, 2);
    let welcome_col = saturating_diff(size.width, 16) / 2;
    let sted_col = saturating_diff(size.width, 32) / 2;
    let version_col = saturating_diff(size.width, 13) / 2;
    seq![
        (saturating_diff(welcome_col, 1), welcome_row, "Welcome to STED!"@),
        (saturating_diff(sted_col, 1), saturating_sum(welcome_row, 1), "The (S)imple (T)erminal (Ed)itor"@),
        (saturating_diff(version_col, 1), saturating_sum(welcome_row, 2), "Version 1.0.0"@),
    ]
}

/// Text placed at a position of the screen.
pub struct PlacedText {
    pub col: usize,
    pub row: usize,
    pub text: String,
}

/// What a render draws: one text per screen row (the visible part of a
/// line, or `~` below the end of the buffer), then the welcome message
/// where the buffer is empty.
pub struct Frame {
    pub rows: Vec<String>,
    pub welcome: Vec<PlacedText>,
}

impl View {
    /// The number of graphemes of line `y` (0 past the last line).
    pub open spec fn line_length(self, y: usize) -> usize {
        if y < self.buffer.lines@.len() {
            self.buffer.lines@[y as int].fragments().len() as usize
        } else {
            0
        }
    }

    /// What `render` draws for this view: nothing if it was not modified
    /// since the last draw, else its rows and, for an empty buffer, the
    /// welcome message.
    pub open spec fn renders(self, frame: Option<Frame>) -> bool {
        &&& !self.modified ==> frame is None
        &&& self.modified ==> (frame matches Some(f) && {
            &&& f.rows@.map_values(|r: String| r@) == rows_drawn(
                self.buffer.lines@,
                self.scroll_offset,
                self.size,
            )
            &&& f.welcome@.map_values(|p: PlacedText| (p.col, p.row, p.text@)) == if self.buffer.lines@.len()
                == 0 {
                welcome_layout(self.size)
            } else {
                Seq::empty()
            }
        })
    }

    /// Where the caret is drawn on the screen.
    pub open spec fn caret_position(self) -> Position {
        Position {
            col: saturating_diff(
                (if self.location.y < self.buffer.lines@.len() {
                    prefix_width(self.buffer.lines@[self.location.y as int].fragments(), self.location.x as int)
                } else {
                    0
                }) as usize,
                self.scroll_offset.col,
            ),
            row: saturating_diff(self.location.y, self.scroll_offset.row),
        }
    }

    /// Where `move_location(direction)` puts the caret, and the column it
    /// then aims for when moving between lines.
    pub open spec fn moved(self, direction: Direction) -> (Location, usize) {
        let x = self.location.x;
        let y = self.location.y;
        let height = self.size.height;
        let len = self.buffer.lines@.len();
        let (x1, y1, desired) = match direction {
            Direction::Up => (x, saturating_diff(y, 1), self.desired_x),
            Direction::Down => (x, if y < len {
                (y + 1) as usize
            } else {
                y
            }, self.desired_x),
            Direction::PageUp => (x, saturating_diff(y, height), self.desired_x),
            Direction::PageDown => (x, if saturating_sum(y, height) > len || len == 0 {
                len as usize
            } else {
                saturating_sum(y, height)
            }, self.desired_x),
            Direction::Left => {
                if x == 0 && y > 0 {
                    let nx = self.line_length((y - 1) as usize);
                    (nx, (y - 1) as usize, nx)
                } else {
                    let nx = saturating_diff(x, 1);
                    (nx, y, nx)
                }
            },
            Direction::Right => {
                if y < len {
                    let n = self.line_length(y);
                    if x >= n {
                        (0, (y + 1) as usize, 0)
                    } else {
                        ((x + 1) as usize, y, (x + 1) as usize)
                    }
                } else {
                    (x, y, x)
                }
            },
            Direction::Home => (0, y, 0),
            Direction::End => {
                if y < len {
                    (self.line_length(y), y, self.line_length(y))
                } else {
                    (x, y, self.desired_x)
                }
            },
        };
        let vertical = match direction {
            Direction::Up | Direction::Down | Direction::PageUp | Direction::PageDown => true,
            _ => false,
        };
        let x2 = if vertical {
            if y1 < len {
                min(desired, self.line_length(y1))
            } else {
                0
            }
        } else {
            x1
        };
        (Location { x: x2, y: y1 }, desired)
    }

    /// The line whose horizontal scroll follows the caret: the caret's line,
    /// or the last line when the caret is below it.
    pub open spec fn scroll_line(self) -> int {
        let len = self.buffer.lines@.len();
        if self.location.y < len {
            self.location.y as int
        } else {
            len - 1
        }
    }

    /// The scroll offset that brings the caret into view.
    pub open spec fn scrolled(self) -> Position {
        let x = self.location.x;
        let y = self.location.y;
        let width = self.size.width;
        let height = self.size.height;
        let scroll = self.scroll_offset;
        let row = if y < scroll.row {
            y
        } else if y >= saturating_sum(scroll.row, height) {
            saturating_sum(saturating_diff(y, height), 1)
        } else {
            scroll.row
        };
        let col = if self.buffer.lines@.len() == 0 {
            scroll.col
        } else {
            let line = self.buffer.lines@[self.scroll_line()];
            let line_scroll_x = line.scroll();
            let line_len = prefix_width(line.fragments(), line.fragments().len() as int);
            let cur_x = prefix_width(line.fragments(), x as int);
            let col0 = if cur_x < line_scroll_x {
                cur_x as usize
            } else if cur_x >= saturating_sum(line_scroll_x, width) {
                saturating_sum(saturating_diff(cur_x as usize, width), 1)
            } else {
                line_scroll_x
            };
            min(col0, saturating_diff(line_len as usize, width))
        };
        Position { row, col }
    }

    /// Whether the caret stands on a line or on the row just below the last
    /// line, and at most as many graphemes into its line as the line has
    /// characters.
    pub open spec fn caret_fits(self) -> bool {
        &&& self.location.y <= self.buffer.lines@.len()
        &&& self.location.x <= if self.location.y < self.buffer.lines@.len() {
            self.buffer.lines@[self.location.y as int].text().len()
        } else {
            0
        }
    }

    /// What `scroll_location_into_view` makes of this view (apart from the
    /// view's `modified` flag, which it sets to whether the scroll offset
    /// changed, and the buffer's, which it leaves as it is).
    pub open spec fn scrolls_into_view(self, after: View) -> bool {
        &&& after.location == self.location
        &&& after.size == self.size
        &&& after.desired_x == self.desired_x
        &&& after.scroll_offset == self.scrolled()
        &&& after.buffer.contents() == self.buffer.contents()
        &&& after.buffer.texts() == self.buffer.texts()
        &&& forall|i: int|
            0 <= i < self.buffer.lines@.len() && i != self.scroll_line() ==> #[trigger] after.buffer.lines@[i]
                == self.buffer.lines@[i]
        &&& self.buffer.lines@.len() > 0 ==> after.buffer.lines@[self.scroll_line()].scroll()
            == after.scroll_offset.col
    }

    /// What `move_location(direction)` makes of this view.
    pub open spec fn move_post(self, after: View, direction: Direction) -> bool {
        let (location, desired_x) = self.moved(direction);
        let moved_view = View { location, desired_x, ..self };
        &&& moved_view.scrolls_into_view(after)
        &&& after.modified == (after.scroll_offset != self.scroll_offset)
        &&& after.buffer.modified == self.buffer.modified
    }

    /// What `handle_insert(c)` makes of this view: the character is inserted
    /// at the caret, the caret moves one grapheme right and is scrolled into
    /// view, and the buffer and the view are marked modified.
    pub open spec fn insert_post(self, after: View, c: char) -> bool {
        exists|inserted: View|
            #![trigger self.buffer.insert_post(inserted.buffer, self.location, c), inserted.scrolls_into_view(after)]
            {
                &&& self.buffer.insert_post(inserted.buffer, self.location, c)
                &&& inserted.location == (Location { x: (self.location.x + 1) as usize, y: self.location.y })
                &&& inserted == (View { buffer: inserted.buffer, location: inserted.location, ..self })
                &&& inserted.scrolls_into_view(after)
                &&& after.modified
                &&& after.buffer.modified
            }
    }

    /// What `handle_newline()` makes of this view: the caret's line is split
    /// at the caret, the caret moves to the start of the new line and is
    /// scrolled into view, and the view is marked modified.
    pub open spec fn newline_post(self, after: View) -> bool {
        exists|split: View|
            #![trigger self.buffer.newline_post(split.buffer, self.location), split.scrolls_into_view(after)]
            {
                &&& self.buffer.newline_post(split.buffer, self.location)
                &&& split == (View {
                    buffer: split.buffer,
                    location: Location { x: 0, y: (self.location.y + 1) as usize },
                    desired_x: 0,
                    ..self
                })
                &&& split.scrolls_into_view(after)
                &&& after.modified
                &&& after.buffer.modified == self.buffer.modified
            }
    }

    /// The grapheme that `handle_delete` removes: the one after the grapheme
    /// at the caret's index.
    pub open spec fn deleted_location(self) -> Location {
        Location { x: saturating_sum(self.location.x, 1), y: self.location.y }
    }

    /// What `handle_delete()` makes of this view: the grapheme following the
    /// caret's grapheme is deleted and the view is marked modified.
    pub open spec fn delete_post(self, after: View) -> bool {
        &&& self.buffer.delete_post(after.buffer, self.deleted_location())
        &&& after == (View { buffer: after.buffer, modified: true, ..self })
    }

    /// What `handle_command(command)` makes of this view.
    pub open spec fn command_post(self, after: View, command: EditorCommand) -> bool {
        match command {
            EditorCommand::Resize(size) => after == (View { size, modified: true, ..self }),
            EditorCommand::Move(direction) => self.move_post(after, direction),
            EditorCommand::Insert(c) => self.insert_post(after, c),
            EditorCommand::NewLine => self.newline_post(after),
            EditorCommand::Delete => self.delete_post(after),
            EditorCommand::BackSpace => exists|moved: View|
                #![trigger self.move_post(moved, Direction::Left), moved.delete_post(after)]
                self.move_post(moved, Direction::Left) && moved.delete_post(after),
            EditorCommand::Quit => after == self,
        }
    }

    /// Whether `handle_command(command)` may be called on this view: a
    /// character goes into a line with room for it, and a line is split only
    /// where the caret is on a line or just below the last one.
    pub open spec fn accepts(self, command: EditorCommand) -> bool {
        match command {
            EditorCommand::Insert(_) => {
                &&& self.location.x < usize::MAX
                &&& self.location.y < self.buffer.lines@.len() ==> self.buffer.lines@[self.location.y as int].text().len()
                    + 1 <= line_capacity()
            },
            EditorCommand::NewLine => self.location.y <= self.buffer.lines@.len(),
            _ => true,
        }
    }

    /// A view of an empty buffer in a window of the given size.
    pub fn new(size: Size) -> (view: Self)
        ensures
            view.buffer.lines@.len() == 0,
            view.modified,
            view.size == size,
            view.location == (Location { x: 0, y: 0 }),
            view.scroll_offset == (Position { row: 0, col: 0 }),
            view.desired_x == 0,
    {
        View {
            buffer: Buffer::default(),
            modified: true,
            size: size,
            location: Location { x: 0, y: 0 },
            scroll_offset: Position { row: 0, col: 0 },
            desired_x: 0,
        }
    }

    pub fn resize(&mut self, to: Size)
        ensures
            *final(self) == (View { size: to, modified: true, ..*old(self) }),
    {
        self.size = to;
        self.modified = true;
    }

    /// Shows the file at `file_name`, given what reading it gave (see [`Buffer::load`]).
    pub fn load(&mut self, file_name: &str, read_result: Result<String, String>)
        requires
            read_result matches Ok(contents) ==> forall|k: int|
                0 <= k < text_lines(contents@).len() ==> #[trigger] text_lines(contents@)[k].len()
                    <= line_capacity(),
            read_result matches Err(error) ==> {
                &&& 23 + file_name@.len() <= line_capacity()
                &&& 15 + error@.len() <= line_capacity()
            },
        ensures
            final(self).modified,
            final(self).buffer.texts() == match read_result {
                Ok(contents) => text_lines(contents@),
                Err(error) => crate::buffer::read_error_lines(file_name@, error@),
            },
            final(self).buffer.modified,
            forall|k: int|
                0 <= k < final(self).buffer.lines@.len() ==> #[trigger] final(self).buffer.lines@[k].fragments()
                    == content_of(final(self).buffer.lines@[k].text()) && final(self).buffer.lines@[k].scroll()
                    == 0,
            final(self).size == old(self).size,
            final(self).location == old(self).location,
            final(self).scroll_offset == old(self).scroll_offset,
            final(self).desired_x == old(self).desired_x,
    {
        if let Ok(buffer) = Buffer::load(file_name, read_result) {
            self.buffer = buffer;
            self.modified = true;
        }
    }

    /// The rows to draw for the window: for each screen row, the visible
    /// part of the line scrolled to it, or `~` below the last line. Marks the
    /// buffer as drawn.
    pub fn render_buffer(&mut self) -> (rows: Vec<String>)
        ensures
            rows@.map_values(|r: String| r@) == rows_drawn(
                old(self).buffer.lines@,
                old(self).scroll_offset,
                old(self).size,
            ),
            *final(self) == (View {
                buffer: Buffer {
                    modified: if old(self).size.height == 0 || old(self).size.width == 0 {
                        old(self).buffer.modified
                    } else {
                        false
                    },
                    ..old(self).buffer
                },
                ..*old(self)
            }),
    {
        let height = self.size.height;
        let width = self.size.width;
        let mut rows: Vec<String> = Vec::new();
        if height == 0 || width == 0 {
            proof {
                assert(rows@.map_values(|r: String| r@) =~= Seq::<Seq<char>>::empty());
            }
            return rows;
        }
        let mut current_row: usize = 0;
        while current_row < height
            invariant
                height == self.size.height,
                width == self.size.width,
                *self == *old(self),
                current_row <= height,
                rows@.len() == current_row,
                forall|r: int|
                    0 <= r < current_row ==> #[trigger] rows@[r]@ == row_text(
                        self.buffer.lines@,
                        self.scroll_offset,
                        width,
                        r,
                    ),
            decreases height - current_row,
        {
            let top = self.scroll_offset.row;
            let index = current_row.saturating_add(top);
            if index < self.buffer.lines.len() {
                let left = self.scroll_offset.col;
                let right = self.scroll_offset.col.saturating_add(width);
                let truncated_line = self.buffer.lines[index].get(left..right);
                rows.push(truncated_line);
            } else {
                let tilde = String::from_str("~");
                proof {
                    reveal_strlit("~");
                }
                rows.push(tilde);
            }
            current_row = current_row + 1;
        }
        proof {
            assert(rows@.map_values(|r: String| r@) =~= rows_drawn(
                old(self).buffer.lines@,
                old(self).scroll_offset,
                old(self).size,
            ));
        }
        self.buffer.modified = false;
        rows
    }

    /// Draws the window if it changed since the last draw: the rows of the
    /// buffer and, for an empty buffer, the welcome message. Marks the view as drawn.
    pub fn render(&mut self) -> (frame: Option<Frame>)
        ensures
            old(self).renders(frame),
            !old(self).modified ==> *final(self) == *old(self),
            old(self).modified ==> !final(self).modified && final(self).buffer.modified == if old(
                self,
            ).size.height == 0 || old(self).size.width == 0 {
                old(self).buffer.modified
            } else {
                false
            },
            final(self).buffer.lines@ == old(self).buffer.lines@,
            final(self).location == old(self).location,
            final(self).scroll_offset == old(self).scroll_offset,
            final(self).size == old(self).size,
            final(self).desired_x == old(self).desired_x,
    {
        if !self.modified {
            return None;
        }
        let rows = self.render_buffer();
        let welcome = if self.buffer.is_empty() {
            self.render_welcome_screen()
        } else {
            let none: Vec<PlacedText> = Vec::new();
            proof {
                assert(none@.map_values(|p: PlacedText| (p.col, p.row, p.text@)) =~= Seq::<
                    (usize, usize, Seq<char>),
                >::empty());
            }
            none
        };
        self.modified = false;
        Some(Frame { rows, welcome })
    }

    /// The welcome message, centred in the window.
    pub fn render_welcome_screen(&self) -> (placed: Vec<PlacedText>)
        ensures
            placed@.map_values(|p: PlacedText| (p.col, p.row, p.text@)) == welcome_layout(self.size),
    {
        let welcome = "Welcome to STED!";
        let sted = "The (S)imple (T)erminal (Ed)itor";
        let version = "Version 1.0.0";
        proof {
            reveal_strlit("Welcome to STED!");
            reveal_strlit("The (S)imple (T)erminal (Ed)itor");
            reveal_strlit("Version 1.0.0");
            vstd::string::is_ascii_spec_bytes(welcome);
            vstd::string::is_ascii_spec_bytes(sted);
            vstd::string::is_ascii_spec_bytes(version);
        }
        let welcome_row = (self.size.height / 2).saturating_sub(2);
        // we allow this since we don't care if our welcome message is put _exactly_ in the middle.
        // it's allowed to be a bit to the left or right.
        let welcome_col = self.size.width.saturating_sub(welcome.len()) / 2;
        let sted_row = welcome_row.saturating_add(1);
        let sted_col = self.size.width.saturating_sub(sted.len()) / 2;
        let version_row = welcome_row.saturating_add(2);
        let version_col = self.size.width.saturating_sub(version.len()) / 2;
        let mut placed: Vec<PlacedText> = Vec::new();
        placed.push(PlacedText { col: welcome_col.saturating_sub(1), row: welcome_row, text: String::from_str(welcome) });
        placed.push(PlacedText { col: sted_col.saturating_sub(1), row: sted_row, text: String::from_str(sted) });
        placed.push(PlacedText { col: version_col.saturating_sub(1), row: version_row, text: String::from_str(version) });
        proof {
            assert(placed@.map_values(|p: PlacedText| (p.col, p.row, p.text@)) =~= welcome_layout(self.size));
        }
        placed
    }

    /// Where the caret is drawn on the screen.
    pub fn get_caret_position(&self) -> (position: Position)
        ensures
            position == self.caret_position(),
    {
        let caret_position = Position {
            col: self.buffer.get_col_from_text_location(self.location),
            row: self.location.y,
        };
        caret_position.subtract(&self.scroll_offset)
    }

    pub fn set_location(&mut self, x: usize, y: usize)
        ensures
            *final(self) == (View { location: Location { x, y }, ..*old(self) }),
    {
        self.set_location_coord(Location { x: x, y: y })
    }

    pub fn set_location_coord(&mut self, pos: Location)
        ensures
            *final(self) == (View { location: pos, ..*old(self) }),
    {
        self.location = pos
    }

    /// Moves the caret one step in `direction` (a page is the window's
    /// height), keeping the column it aims for when it moves between lines,
    /// then scrolls it into view.
    pub fn move_location(&mut self, direction: Direction)
        ensures
            old(self).move_post(*final(self), direction),
            old(self).caret_fits() ==> final(self).caret_fits(),
    {
        let mut x = self.location.x;
        let mut y = self.location.y;
        let height = self.size.height;
        let buffer_length = self.buffer.lines.len();
        let vertical;
        match direction {
            // Vertical movements
            Direction::Up => {
                y = y.saturating_sub(1);
                vertical = true;
            },
            Direction::Down => {
                if y < buffer_length {
                    y = min_usize(y.saturating_add(1), buffer_length);
                }
                vertical = true;
            },
            Direction::PageUp => {
                y = y.saturating_sub(height);
                vertical = true;
            },
            Direction::PageDown => {
                let page_y = y.saturating_add(height);
                if page_y > buffer_length || self.buffer.lines.is_empty() {
                    y = buffer_length;
                } else {
                    y = min_usize(page_y, buffer_length);
                }
                vertical = true;
            },
            // Horizontal movements
            Direction::Left => {
                if x == 0 && y > 0 {
                    y = y - 1;
                    x = if y < buffer_length {
                        self.buffer.lines[y].grapheme_count()
                    } else {
                        0
                    };
                } else {
                    x = x.saturating_sub(1);
                }
                self.desired_x = x;
                vertical = false;
            },
            Direction::Right => {
                if y < buffer_length {
                    let len = self.buffer.lines[y].grapheme_count();
                    if x >= len && y < buffer_length {
                        y = y + 1;
                        x = 0;
                    } else if x < len {
                        x = x + 1;
                    }
                }
                self.desired_x = x;
                vertical = false;
            },
            // Home / End
            Direction::Home => {
                x = 0;
                self.desired_x = x;
                vertical = false;
            },
            Direction::End => {
                if y < buffer_length {
                    let len = self.buffer.lines[y].grapheme_count();
                    x = len;
                    self.desired_x = x;
                }
                vertical = false;
            },
        }
        // Clamp x column to fit within the new line's length when moving vertically
        if vertical {
            x = if y < buffer_length {
                min_usize(self.desired_x, self.buffer.lines[y].grapheme_count())
            } else {
                0
            };
        }
        self.set_location(x, y);
        let ghost moved = *self;
        proof {
            assert((self.location, self.desired_x) == old(self).moved(direction));
            if old(self).caret_fits() {
                assert(moved.caret_fits());
            }
        }
        self.scroll_location_into_view();
        proof {
            assert(self.buffer.contents().len() == moved.buffer.contents().len());
            assert(self.buffer.lines@.len() == moved.buffer.lines@.len());
            if y < buffer_length {
                assert(self.buffer.texts()[y as int] == moved.buffer.texts()[y as int]);
                assert(self.buffer.lines@[y as int].text() == moved.buffer.lines@[y as int].text());
            }
        }
    }

    /// Scrolls the window so that the caret's row is visible and its column
    /// follows the scroll offset recorded for its line, without scrolling
    /// past the end of that line; records the new horizontal offset for the
    /// line and marks the view modified exactly when the offset changed.
    pub fn scroll_location_into_view(&mut self)
        ensures
            old(self).scrolls_into_view(*final(self)),
            final(self).modified == (final(self).scroll_offset != old(self).scroll_offset),
            final(self).buffer.modified == old(self).buffer.modified,
            final(self).size.height > 0 ==> final(self).scroll_offset.row <= final(self).location.y
                < final(self).scroll_offset.row + final(self).size.height,
    {
        let x = self.location.x;
        let y = self.location.y;
        let mut scroll = self.scroll_offset;
        let width = self.size.width;
        let height = self.size.height;
        let prev = self.scroll_offset;

        // Vertical scroll
        // If cursor y is above the viewport, snap scroll_y to the cursor
        if y < scroll.row {
            scroll.row = y;
        }
        // If cursor y is below the viewport, push the viewport down by the offset
        else if y >= scroll.row.saturating_add(height) {
            scroll.row = y.saturating_sub(height).saturating_add(1);
        }
        // Horizontal scroll - when cursor is past EOF, horizontal scroll data doesn't exist yet

        let len = self.buffer.lines.len();
        let clamped_y = min_usize(y, len.saturating_sub(1));
        let ghost before = *self;
        if len > 0 {
            // Use the target line's saved horizontal offset as the baseline
            let line = &self.buffer.lines[clamped_y];
            let line_scroll_x = line.scroll_x();
            let line_graphemes = line.grapheme_count();
            let line_len = line.width_until(line_graphemes);
            let cur_x_position = line.width_until(x);

            // If cursor x is left of the baseline, scroll left to the cursor
            if cur_x_position < line_scroll_x {
                scroll.col = cur_x_position;
            }
            // If cursor x is right of the viewport, scroll right to keep it visible
            else if cur_x_position >= line_scroll_x.saturating_add(width) {
                scroll.col = cur_x_position.saturating_sub(width).saturating_add(1);
                // Use the saved line scroll to keep the cursor relative to the last time the
                // user was on this line.
            } else {
                // Only if x is in the viewport of line_scroll_x but not within the viewport of scroll.x
                // This prevents jumpy experience for a lot of tiny skips while moving vertically
                scroll.col = line_scroll_x;
            }

            // Clamp scroll_x to the line's length so we never scroll past the visible content
            let max_scroll_x = line_len.saturating_sub(width);
            scroll.col = min_usize(scroll.col, max_scroll_x);

            // Persist the updated horizontal scroll state to the target line
            self.buffer.lines[clamped_y].set_scroll_x(scroll.col);
        }
        proof {
            assert(scroll == before.scrolled());
            assert(self.buffer.contents() =~= before.buffer.contents());
            assert(self.buffer.texts() =~= before.buffer.texts());
        }
        // Apply the new scroll offset and mark dirty if the view changed
        self.scroll_offset = scroll;
        self.modified = scroll.col != prev.col || scroll.row != prev.row;
    }

    /// Inserts a character, moves the caret right, scrolls it into view, marks buffer and view as modified.
    pub fn handle_insert(&mut self, c: char)
        requires
            old(self).accepts(EditorCommand::Insert(c)),
        ensures
            old(self).insert_post(*final(self), c),
            old(self).caret_fits() ==> final(self).caret_fits(),
    {
        self.buffer.insert_char(self.location, c);
        self.set_location(self.location.x + 1, self.location.y);
        let ghost inserted = *self;
        self.scroll_location_into_view();
        self.modified = true;
        self.buffer.modified = true;
        proof {
            let y = old(self).location.y as int;
            assert(self.buffer.contents().len() == inserted.buffer.contents().len());
            assert(self.buffer.lines@.len() == inserted.buffer.lines@.len());
            if y < inserted.buffer.lines@.len() {
                assert(self.buffer.texts()[y] == inserted.buffer.texts()[y]);
                assert(self.buffer.lines@[y].text() == inserted.buffer.lines@[y].text());
            }
            assert(old(self).buffer.insert_post(inserted.buffer, old(self).location, c));
            assert(inserted.scrolls_into_view(*self));
            if old(self).caret_fits() && old(self).location.y < old(self).buffer.lines@.len() {
                let line = old(self).buffer.lines@[old(self).location.y as int];
                let g = line.graphemes();
                let k = if old(self).location.x <= g.len() {
                    old(self).location.x as int
                } else {
                    g.len() as int
                };
                crate::common::textmodel::lemma_concat_split(g, k);
            }
        }
    }

    // Inserts a line below the caret position
    // Force a re-render
    pub fn handle_newline(&mut self)
        requires
            old(self).accepts(EditorCommand::NewLine),
        ensures
            old(self).newline_post(*final(self)),
            final(self).caret_fits(),
    {
        self.buffer.newline(self.location);
        let line_count = self.buffer.lines.len();
        proof {
            assert(self.buffer.contents().len() == line_count);
        }
        self.set_location(0, self.location.y + 1);
        self.desired_x = 0;
        let ghost split = *self;
        self.scroll_location_into_view();
        self.modified = true;
        proof {
            assert(old(self).buffer.newline_post(split.buffer, old(self).location));
            assert(split.scrolls_into_view(*self));
        }
    }

    /// Deletes the grapheme cluster at the caret position (the one after the
    /// grapheme whose index the caret holds) and marks the view as modified.
    pub fn handle_delete(&mut self)
        ensures
            old(self).delete_post(*final(self)),
            old(self).caret_fits() ==> final(self).caret_fits(),
    {
        let location = Location { x: self.location.x.saturating_add(1), y: self.location.y };
        self.buffer.delete(location);
        self.modified = true;
        proof {
            let y = old(self).location.y as int;
            if y < old(self).buffer.lines@.len() {
                assert(self.buffer.contents()[y] == self.buffer.lines@[y].fragments());
                assert(old(self).buffer.contents()[y] == old(self).buffer.lines@[y].fragments());
            }
        }
    }

    /// Carries out `event`.
    pub fn handle_command(&mut self, event: EditorCommand)
        requires
            old(self).accepts(event),
        ensures
            old(self).command_post(*final(self), event),
            old(self).caret_fits() ==> final(self).caret_fits(),
    {
        match event {
            EditorCommand::Resize(size) => self.resize(size),
            EditorCommand::Move(direction) => self.move_location(direction),
            EditorCommand::Insert(c) => self.handle_insert(c),
            EditorCommand::NewLine => self.handle_newline(),
            EditorCommand::Delete => self.handle_delete(),
            EditorCommand::BackSpace => {
                self.move_location(Direction::Left);
                let ghost moved = *self;
                self.handle_delete();
                proof {
                    assert(old(self).move_post(moved, Direction::Left));
                    assert(moved.delete_post(*self));
                }
            },
            EditorCommand::Quit => (),
        };
    }
}

} // verus!
