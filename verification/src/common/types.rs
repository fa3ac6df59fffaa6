use vstd::prelude::*;
use vstd::std_specs::convert::FromSpecImpl;
use vstd::string::StringSliceAdditionalSpecFns;
use vstd::utf8::{encode_utf8, is_char_boundary};

verus! {

/// The size of the terminal window, in rows and columns.
#[derive(Clone, Copy, Debug, Default, PartialEq, Eq, Structural)]
pub struct Size {
    pub height: usize,
    pub width: usize,
}

/// A position on the screen grid.
#[derive(Clone, Copy, Debug, Default, PartialEq, Eq, Structural)]
pub struct Position {
    // Origin is top left corner. Positive x is right, positive y is down
    pub row: usize,
    pub col: usize,
}

/// A place in the text: `x` is the grapheme index within the line, `y` the line index.
#[derive(Clone, Copy, Debug, Default, PartialEq, Eq, Structural)]
pub struct Location {
    pub x: usize,
    pub y: usize,
}

/// The difference `a - b`, or 0 where `b` exceeds `a`.
pub open spec fn saturating_diff(a: usize, b: usize) -> usize {
    if a >= b {
        (a - b) as usize
    } else {
        0
    }
}

impl From<Location> for Position {
    fn from(loc: Location) -> (position: Self) {
        Self { row: loc.x, col: loc.y }
    }
}

impl FromSpecImpl<Location> for Position {
    open spec fn obeys_from_spec() -> bool {
        true
    }

    open spec fn from_spec(loc: Location) -> Position {
        Position { row: loc.x, col: loc.y }
    }
}

impl Location {
    /// The component-wise difference, each component saturating at 0.
    pub fn subtract(&self, other: &Self) -> (difference: Self)
        ensures
            difference.x == saturating_diff(self.x, other.x),
            difference.y == saturating_diff(self.y, other.y),
    {
        Self { x: self.x.saturating_sub(other.x), y: self.y.saturating_sub(other.y) }
    }
}

impl Position {
    /// The component-wise difference, each component saturating at 0.
    pub fn subtract(&self, other: &Self) -> (difference: Self)
        ensures
            difference.row == saturating_diff(self.row, other.row),
            difference.col == saturating_diff(self.col, other.col),
    {
        Self { row: self.row.saturating_sub(other.row), col: self.col.saturating_sub(other.col) }
    }
}

/// A line held as a plain string, addressed by byte offsets.
pub struct Line {
    string: String,
}

impl Line {
    /// The text of the line.
    pub closed spec fn text(self) -> Seq<char> {
        self.string@
    }

    pub fn from(line_str: &str) -> (line: Self)
        ensures
            line.text() == line_str@,
    {
        Self { string: String::from_str(line_str) }
    }

    /// The bytes `range.start..range.end` of the line's UTF-8 encoding, the
    /// end clamped to the line's length; the empty string where the range is
    /// empty, reversed, or does not start and end on character boundaries.
    pub fn get(&self, range: std::ops::Range<usize>) -> (result: String)
        ensures
            ({
                let bytes = encode_utf8(self.text());
                let len = bytes.len() as usize;
                let end = if range.end <= len {
                    range.end as int
                } else {
                    len as int
                };
                if range.start <= end && is_char_boundary(bytes, range.start as int)
                    && is_char_boundary(bytes, end) {
                    encode_utf8(result@) == bytes.subrange(range.start as int, end)
                } else {
                    result@ == Seq::<char>::empty()
                }
            }),
    {
        let s = self.string.as_str();
        proof {
            vstd::utf8::encode_utf8_valid_utf8(s@);
        }
        let start = range.start;
        let len = s.len();
        let end = if range.end <= len {
            range.end
        } else {
            len
        };
        if start <= end && s.is_char_boundary(start) && s.is_char_boundary(end) {
            let (head, _) = s.split_at(end);
            proof {
                let bytes = s.spec_bytes();
                vstd::utf8::encode_utf8_valid_utf8(s@);
                vstd::utf8::valid_utf8_split(bytes, end as int);
                vstd::utf8::is_char_boundary_start_end_of_seq(head.spec_bytes());
                vstd::utf8::encode_utf8_valid_utf8(head@);
                if start < end {
                    vstd::utf8::is_char_boundary_iff_not_is_continuation_byte(bytes, start as int);
                    vstd::utf8::is_char_boundary_iff_not_is_continuation_byte(
                        head.spec_bytes(),
                        start as int,
                    );
                }
            }
            let (_, mid) = head.split_at(start);
            proof {
                assert(head.spec_bytes().subrange(start as int, head.spec_bytes().len() as int)
                    =~= s.spec_bytes().subrange(start as int, end as int));
            }
            let result = String::from_str(mid);
            assert(encode_utf8(result@) == mid.spec_bytes());
            result
        } else {
            let result = String::new();
            result
        }
    }
}

} // verus!
