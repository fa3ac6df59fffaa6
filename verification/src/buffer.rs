use crate::common::line::Line;
use crate::common::textfragment::FragmentModel;
use crate::common::textmodel::{
    content_of, line_capacity, prefix_width, text_after, text_before, text_of, text_with,
};
use crate::common::types::Location;
use crate::common::unicode::push_char;
use vstd::prelude::*;

verus! {

/// The text of a file, as a sequence of lines.
pub struct Buffer {
    pub lines: Vec<Line>,
    pub modified: bool,
}

/// The index of the first line feed in `s` at or after `i` (`s.len()` if there is none).
pub open spec fn line_feed_index(s: Seq<char>, i: int) -> int
    decreases s.len() - i,
{
    if 0 <= i < s.len() && s[i] != '\n' {
        line_feed_index(s, i + 1)
    } else {
        i
    }
}

/// A line without the carriage return that ends it, if it has one.
pub open spec fn strip_carriage_return(line: Seq<char>) -> Seq<char> {
    if line.len() > 0 && line.last() == '\r' {
        line.drop_last()
    } else {
        line
    }
}

/// The lines of `s[i..]`, as `str::lines` splits them: at each line feed,
/// without the line feed and a carriage return before it; the last line
/// ending is optional and a final unterminated line keeps a trailing carriage return.
pub open spec fn text_lines_from(s: Seq<char>, i: int) -> Seq<Seq<char>>
    decreases s.len() - i,
{
    if i < 0 || i >= s.len() {
        Seq::empty()
    } else {
        let j = line_feed_index(s, i);
        if j >= s.len() {
            seq![s.subrange(i, s.len() as int)]
        } else {
            proof {
                lemma_line_feed_index_bounds(s, i);
            }
            seq![strip_carriage_return(s.subrange(i, j))] + text_lines_from(s, j + 1)
        }
    }
}

/// The lines of `s`.
pub open spec fn text_lines(s: Seq<char>) -> Seq<Seq<char>> {
    text_lines_from(s, 0)
}

pub proof fn lemma_line_feed_index_bounds(s: Seq<char>, i: int)
    requires
        0 <= i <= s.len(),
    ensures
        i <= line_feed_index(s, i) <= s.len(),
        line_feed_index(s, i) < s.len() ==> s[line_feed_index(s, i)] == '\n',
        forall|k: int| i <= k < line_feed_index(s, i) ==> s[k] != '\n',
    decreases s.len() - i,
{
    if i < s.len() && s[i] != '\n' {
        lemma_line_feed_index_bounds(s, i + 1);
    }
}

proof fn lemma_line_feed_index_at(s: Seq<char>, i: int, j: int)
    requires
        0 <= i <= j <= s.len(),
        forall|k: int| i <= k < j ==> s[k] != '\n',
        j == s.len() || s[j] == '\n',
    ensures
        line_feed_index(s, i) == j,
    decreases j - i,
{
    if i < j {
        lemma_line_feed_index_at(s, i + 1, j);
    }
}

proof fn lemma_text_lines_step(s: Seq<char>, i: int, j: int)
    requires
        0 <= i <= j < s.len(),
        line_feed_index(s, i) == j,
    ensures
        text_lines_from(s, i) == seq![strip_carriage_return(s.subrange(i, j))] + text_lines_from(s, j + 1),
{
}

/// Where the target line stands once the source line is removed.
pub open spec fn merge_target(source_index: usize, target_index: usize) -> int {
    if target_index < source_index {
        target_index as int
    } else {
        target_index - 1
    }
}

/// The message lines shown in place of a file that could not be read.
pub open spec fn read_error_lines(file_path: Seq<char>, error: Seq<char>) -> Seq<Seq<char>> {
    seq!["Failed to read file at "@ + file_path, "Error message: "@ + error]
}

impl Default for Buffer {
    fn default() -> (buffer: Self)
        ensures
            buffer.lines@.len() == 0,
            buffer.modified,
    {
        Self { lines: Vec::new(), modified: true }
    }
}

impl Buffer {
    /// The texts of the lines.
    pub open spec fn texts(self) -> Seq<Seq<char>> {
        self.lines@.map_values(|l: Line| l.text())
    }

    /// The display fragments of the lines.
    pub open spec fn contents(self) -> Seq<Seq<FragmentModel>> {
        self.lines@.map_values(|l: Line| l.fragments())
    }

    /// The lines' fragments once `c` is inserted at `location`.
    pub open spec fn contents_after_insert(self, location: Location, c: char) -> Seq<Seq<FragmentModel>> {
        let contents = self.contents();
        if location.y >= contents.len() {
            contents.push(content_of(seq![c]))
        } else {
            contents.update(
                location.y as int,
                content_of(text_with(contents[location.y as int], location.x as int, c)),
            )
        }
    }

    /// The lines' fragments once the line at `location` is split there.
    pub open spec fn contents_after_newline(self, location: Location) -> Seq<Seq<FragmentModel>> {
        let contents = if location.y < self.lines@.len() {
            self.contents()
        } else {
            self.contents().push(Seq::<FragmentModel>::empty())
        };
        let line = contents[location.y as int];
        contents.update(location.y as int, content_of(text_before(line, location.x as int))).insert(
            location.y + 1,
            content_of(text_after(line, location.x as int)),
        )
    }

    /// The lines' fragments once the grapheme at `location` is deleted.
    pub open spec fn contents_after_delete(self, location: Location) -> Seq<Seq<FragmentModel>> {
        let contents = self.contents();
        if location.y < contents.len() && location.x < contents[location.y as int].len() {
            contents.update(location.y as int, contents[location.y as int].remove(location.x as int))
        } else {
            contents
        }
    }

    /// What `insert_char(location, c)` makes of this buffer.
    pub open spec fn insert_post(self, after: Buffer, location: Location, c: char) -> bool {
        let y = location.y as int;
        &&& after.contents() == self.contents_after_insert(location, c)
        &&& after.modified == self.modified
        &&& forall|i: int|
            0 <= i < self.lines@.len() && i != y ==> #[trigger] after.lines@[i] == self.lines@[i]
        &&& y < self.lines@.len() ==> {
            &&& after.lines@[y].scroll() == self.lines@[y].scroll()
            &&& after.lines@[y].text() == self.lines@[y].text_with(location.x, c)
        }
        &&& y >= self.lines@.len() ==> {
            &&& after.lines@.last().scroll() == 0
            &&& after.lines@.last().text() == seq![c]
        }
    }

    /// What `newline(location)` makes of this buffer.
    pub open spec fn newline_post(self, after: Buffer, location: Location) -> bool {
        let y = location.y as int;
        let line = if y < self.lines@.len() {
            self.contents()[y]
        } else {
            Seq::<FragmentModel>::empty()
        };
        &&& after.contents() == self.contents_after_newline(location)
        &&& after.modified == self.modified
        &&& forall|i: int| 0 <= i < y ==> #[trigger] after.lines@[i] == self.lines@[i]
        &&& forall|i: int| y < i < self.lines@.len() ==> #[trigger] after.lines@[i + 1] == self.lines@[i]
        &&& after.lines@[y].scroll() == 0
        &&& after.lines@[y + 1].scroll() == 0
        &&& after.lines@[y].text() == text_before(line, location.x as int)
        &&& after.lines@[y + 1].text() == text_after(line, location.x as int)
    }

    /// What `delete(location)` makes of this buffer.
    pub open spec fn delete_post(self, after: Buffer, location: Location) -> bool {
        let y = location.y as int;
        &&& after.contents() == self.contents_after_delete(location)
        &&& after.modified == self.modified
        &&& after.lines@.len() == self.lines@.len()
        &&& forall|i: int|
            0 <= i < self.lines@.len() && i != y ==> #[trigger] after.lines@[i] == self.lines@[i]
        &&& forall|i: int|
            0 <= i < self.lines@.len() ==> #[trigger] after.lines@[i].scroll() == self.lines@[i].scroll()
        &&& y < self.lines@.len() ==> after.lines@[y].fragments().len() <= after.lines@[y].text().len()
            <= self.lines@[y].text().len()
    }

    /// What `consolidate_lines(source_index, target_index)` makes of this buffer.
    pub open spec fn consolidate_post(self, after: Buffer, source_index: usize, target_index: usize) -> bool {
        &&& after.contents() == self.contents_after_consolidate(source_index, target_index)
        &&& after.modified == self.modified
        &&& !self.consolidates(source_index, target_index) ==> after.lines@ == self.lines@
        &&& self.consolidates(source_index, target_index) ==> {
            let remaining = self.lines@.remove(source_index as int);
            let t = merge_target(source_index, target_index);
            &&& forall|i: int|
                0 <= i < remaining.len() && i != t ==> #[trigger] after.lines@[i] == remaining[i]
            &&& after.lines@[t].scroll() == self.lines@[target_index as int].scroll()
            &&& after.lines@[t].text() == self.lines@[target_index as int].text()
                + self.lines@[source_index as int].text()
        }
    }

    /// Whether `consolidate_lines(source_index, target_index)` merges two lines.
    pub open spec fn consolidates(self, source_index: usize, target_index: usize) -> bool {
        source_index != target_index && source_index < self.lines@.len() && target_index
            < self.lines@.len()
    }

    /// The lines' fragments once the line `source_index` is merged into the line `target_index`.
    pub open spec fn contents_after_consolidate(self, source_index: usize, target_index: usize) -> Seq<
        Seq<FragmentModel>,
    > {
        let contents = self.contents();
        if self.consolidates(source_index, target_index) {
            let merged = text_of(contents[target_index as int]) + text_of(contents[source_index as int]);
            contents.remove(source_index as int).update(
                merge_target(source_index, target_index),
                content_of(merged),
            )
        } else {
            contents
        }
    }

    pub fn is_empty(&self) -> (empty: bool)
        ensures
            empty == (self.lines@.len() == 0),
    {
        self.lines.is_empty()
    }

    /// The buffer for the file at `file_path`, given what reading it gave:
    /// its contents, cut into lines, or, where it could not be read, two
    /// lines that say so.
    pub fn load(file_path: &str, read_result: Result<String, String>) -> (buffer: Result<Self, String>)
        requires
            read_result matches Ok(contents) ==> forall|k: int|
                0 <= k < text_lines(contents@).len() ==> #[trigger] text_lines(contents@)[k].len()
                    <= line_capacity(),
            read_result matches Err(error) ==> {
                &&& 23 + file_path@.len() <= line_capacity()
                &&& 15 + error@.len() <= line_capacity()
            },
        ensures
            buffer matches Ok(b) && b.modified && b.texts() == match read_result {
                Ok(contents) => text_lines(contents@),
                Err(error) => read_error_lines(file_path@, error@),
            },
            buffer matches Ok(b) && forall|k: int|
                0 <= k < b.lines@.len() ==> #[trigger] b.lines@[k].fragments() == content_of(
                    b.lines@[k].text(),
                ) && b.lines@[k].scroll() == 0,
    {
        let mut lines: Vec<Line> = Vec::new();
        match read_result {
            Ok(file_content) => {
                lines = Self::lines_of(file_content.as_str());
            },
            Err(error) => {
                let mut first = String::from_str("Failed to read file at ");
                first.append(file_path);
                let mut second = String::from_str("Error message: ");
                second.append(error.as_str());
                proof {
                    reveal_strlit("Failed to read file at ");
                    reveal_strlit("Error message: ");
                }
                lines.push(Line::from(first.as_str()));
                lines.push(Line::from(second.as_str()));
                proof {
                    assert(lines@.map_values(|l: Line| l.text()) =~= read_error_lines(file_path@, error@));
                }
            },
        }
        Ok(Self { lines: lines, modified: true })
    }

    /// The line of `text` without a carriage return that ends it.
    fn line_without_carriage_return(text: &str) -> (line: Line)
        requires
            strip_carriage_return(text@).len() <= line_capacity(),
        ensures
            line.text() == strip_carriage_return(text@),
            line.fragments() == content_of(line.text()),
            line.scroll() == 0,
    {
        let n = text.unicode_len();
        if n > 0 && text.get_char(n - 1) == '\r' {
            let stripped = text.substring_char(0, n - 1);
            proof {
                assert(stripped@ =~= text@.drop_last());
            }
            Line::from(stripped)
        } else {
            Line::from(text)
        }
    }

    /// The lines of `contents`, as `str::lines` splits them.
    fn lines_of(contents: &str) -> (lines: Vec<Line>)
        requires
            forall|k: int|
                0 <= k < text_lines(contents@).len() ==> #[trigger] text_lines(contents@)[k].len()
                    <= line_capacity(),
        ensures
            lines@.map_values(|l: Line| l.text()) == text_lines(contents@),
            forall|k: int|
                0 <= k < lines@.len() ==> #[trigger] lines@[k].fragments() == content_of(lines@[k].text())
                    && lines@[k].scroll() == 0,
    {
        let ghost s = contents@;
        let mut lines: Vec<Line> = Vec::new();
        let mut current = String::new();
        let ghost mut start: int = 0;
        for c in it: contents.chars()
            invariant
                s == contents@,
                it.seq() == s,
                0 <= start <= it.index() <= s.len(),
                current@ == s.subrange(start, it.index() as int),
                forall|k: int| start <= k < it.index() ==> s[k] != '\n',
                lines@.map_values(|l: Line| l.text()) + text_lines_from(s, start) == text_lines(s),
                forall|k: int|
                    0 <= k < text_lines(s).len() ==> #[trigger] text_lines(s)[k].len() <= line_capacity(),
                forall|k: int|
                    0 <= k < lines@.len() ==> #[trigger] lines@[k].fragments() == content_of(
                        lines@[k].text(),
                    ),
                forall|k: int| 0 <= k < lines@.len() ==> #[trigger] lines@[k].scroll() == 0,
        {
            let ghost idx = it.index() as int;
            assert(c == s[idx]);
            if c == '\n' {
                proof {
                    lemma_line_feed_index_at(s, start, idx);
                    lemma_text_lines_step(s, start, idx);
                    let prefix = lines@.map_values(|l: Line| l.text());
                    assert(text_lines(s)[prefix.len() as int] == text_lines_from(s, start)[0]);
                }
                let line = Self::line_without_carriage_return(current.as_str());
                proof {
                    assert((lines@.push(line)).map_values(|l: Line| l.text()) =~= lines@.map_values(
                        |l: Line| l.text(),
                    ).push(line.text()));
                    start = idx + 1;
                }
                lines.push(line);
                current = String::new();
                proof {
                    assert(s.subrange(start, start) =~= Seq::<char>::empty());
                }
            } else {
                push_char(&mut current, c);
                proof {
                    assert(current@ =~= s.subrange(start, idx + 1));
                }
            }
        }
        if !current.as_str().is_empty() {
            proof {
                lemma_line_feed_index_at(s, start, s.len() as int);
                let prefix = lines@.map_values(|l: Line| l.text());
                assert(text_lines_from(s, start) == seq![s.subrange(start, s.len() as int)]);
                assert(text_lines(s)[prefix.len() as int] == s.subrange(start, s.len() as int));
            }
            let line = Line::from(current.as_str());
            proof {
                assert((lines@.push(line)).map_values(|l: Line| l.text()) =~= lines@.map_values(
                    |l: Line| l.text(),
                ).push(line.text()));
            }
            lines.push(line);
        } else {
            proof {
                assert(lines@.map_values(|l: Line| l.text()) + Seq::<Seq<char>>::empty() =~= lines@.map_values(
                    |l: Line| l.text(),
                ));
            }
        }
        lines
    }

    /// The screen column, within its line, of the text location `location`
    /// (0 for a location below the last line).
    pub fn get_col_from_text_location(&self, location: Location) -> (col: usize)
        ensures
            col == if location.y < self.lines@.len() {
                prefix_width(self.lines@[location.y as int].fragments(), location.x as int)
            } else {
                0
            },
    {
        if location.y >= self.lines.len() || self.lines.is_empty() {
            return 0;
        }
        self.lines[location.y].width_until(location.x)
    }

    /// Inserts character `c` at column `location.x` on row `location.y`. Creates a new line if the row exceeds the buffer length.
    pub fn insert_char(&mut self, location: Location, c: char)
        requires
            location.y < old(self).lines@.len() ==> old(self).lines@[location.y as int].text().len() + 1
                <= line_capacity(),
        ensures
            old(self).insert_post(*final(self), location, c),
    {
        if location.y >= self.lines.len() {
            let mut text = String::new();
            push_char(&mut text, c);
            proof {
                assert(text@ =~= seq![c]);
            }
            self.lines.push(Line::from(text.as_str()));
        } else {
            self.lines[location.y].insert_char(location.x, c);
        }
        proof {
            assert(self.contents() =~= old(self).contents_after_insert(location, c));
        }
    }

    /// Splits the line at `location.y` at grapheme `location.x`: the part
    /// before stays, the part after becomes a new line below it. A location
    /// just below the last line first gets an empty line of its own.
    pub fn newline(&mut self, location: Location)
        requires
            location.y <= old(self).lines@.len(),
        ensures
            old(self).newline_post(*final(self), location),
    {
        if location.y >= self.lines.len() {
            self.lines.push(Line::newline());
        }
        let ghost extended = self.lines@;
        proof {
            assert(extended.map_values(|l: Line| l.fragments()) =~= if location.y < old(self).lines@.len() {
                old(self).contents()
            } else {
                old(self).contents().push(Seq::<FragmentModel>::empty())
            });
        }
        let count = self.lines[location.y].grapheme_count();
        let str_before_caret = self.lines[location.y].convert_content_to_string(0..location.x);
        let str_after_caret = self.lines[location.y].convert_content_to_string(location.x..count);
        proof {
            let g = extended[location.y as int].graphemes();
            assert(g.subrange(0, g.len() as int) =~= g);
        }
        self.lines.set(location.y, Line::from(str_before_caret.as_str()));
        if location.y >= self.lines.len() - 1 {
            self.lines.push(Line::from(str_after_caret.as_str()));
        } else {
            self.lines.insert(location.y + 1, Line::from(str_after_caret.as_str()));
        }
        proof {
            assert(self.contents() =~= old(self).contents_after_newline(location));
        }
    }

    /// Deletes the grapheme cluster at column `location.x` on row `location.y`.
    pub fn delete(&mut self, location: Location)
        ensures
            old(self).delete_post(*final(self), location),
    {
        if location.y >= self.lines.len() {
            proof {
                assert(self.contents() =~= old(self).contents_after_delete(location));
            }
            return;
        }
        self.lines[location.y].delete_grapheme(location.x);
        proof {
            assert(self.contents() =~= old(self).contents_after_delete(location));
        }
    }

    /// Merges the line at `source_index` into the line at `target_index`
    /// (appending the source content to the end of the target), then removes the source line.
    /// Equal or out-of-range indices leave the buffer unchanged.
    pub fn consolidate_lines(&mut self, source_index: usize, target_index: usize)
        requires
            source_index != target_index && source_index < old(self).lines@.len() && target_index < old(
                self,
            ).lines@.len() ==> old(self).lines@[target_index as int].text().len() + old(
                self,
            ).lines@[source_index as int].text().len() <= line_capacity(),
        ensures
            old(self).consolidate_post(*final(self), source_index, target_index),
    {
        if source_index == target_index || source_index >= self.lines.len() || target_index
            >= self.lines.len() {
            return;
        }
        let source = self.lines.remove(source_index);
        let target = if target_index < source_index {
            target_index
        } else {
            target_index - 1
        };
        self.lines[target].append(source);
        proof {
            assert(self.contents() =~= old(self).contents_after_consolidate(source_index, target_index));
        }
    }
}

} // verus!
