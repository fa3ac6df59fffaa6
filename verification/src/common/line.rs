use crate::common::constants::TAB_WIDTH_SPACES;
use crate::common::textfragment::{FragmentModel, GraphemeWidth, TextFragment};
use crate::common::textmodel::{
    content_of, cut_before, cuts, ellipsis, fragments_from, graphemes_of, joins, lemma_concat_extend,
    lemma_concat_len, lemma_concat_singleton, lemma_concat_split, lemma_content_of, lemma_cut_before_step, lemma_nothing_shown,
    lemma_prefix_width_bound, lemma_prefix_width_monotone, lemma_run_end_bounds, line_capacity,
    prefix_width, rendered, replacement_for, run_end, run_fragment, shown_text, shows, single_width,
    text_of, text_with, ZERO_WIDTH_JOINER,
};
use crate::common::unicode::{
    concat, display_width, extended_graphemes, is_blank, is_control, is_control_char, push_char,
};
use std::ops::Range;
use vstd::prelude::*;

verus! {

/// A line of text, held as its display fragments, with the horizontal
/// scroll offset the view last used for it.
pub struct Line {
    content: Vec<TextFragment>,
    pub(crate) scroll_x: usize,
}

/// The value of an optional string.
pub open spec fn opt_view(o: Option<String>) -> Option<Seq<char>> {
    match o {
        Some(s) => Some(s@),
        None => None,
    }
}

/// The graphemes of a sequence of fragments.
pub open spec fn raw_graphemes(content: Seq<TextFragment>) -> Seq<Seq<char>> {
    content.map_values(|f: TextFragment| f.grapheme@)
}

/// Whether `s` is the one-character string `c`.
fn is_char(s: &str, c: char) -> (b: bool)
    ensures
        b == (s@ == seq![c]),
{
    let n = s.unicode_len();
    if n != 1 {
        assert(s@.len() != 1);
        return false;
    }
    let first = s.get_char(0);
    if first == c {
        assert(s@ =~= seq![c]);
        true
    } else {
        false
    }
}

/// Whether every character of `s` is a control character.
fn all_control(s: &str) -> (b: bool)
    ensures
        b == (forall|i: int| 0 <= i < s@.len() ==> #[trigger] is_control_char(s@[i])),
{
    let n = s.unicode_len();
    let mut k: usize = 0;
    while k < n
        invariant
            n == s@.len(),
            k <= n,
            forall|i: int| 0 <= i < k ==> #[trigger] is_control_char(s@[i]),
        decreases n - k,
    {
        if !is_control(s.get_char(k)) {
            return false;
        }
        k = k + 1;
    }
    true
}

/// `TAB_WIDTH_SPACES` spaces.
fn tab_spaces() -> (s: String)
    ensures
        s@ == Seq::new(TAB_WIDTH_SPACES as nat, |i: int| ' '),
{
    let mut s = String::new();
    let mut k: usize = 0;
    while k < TAB_WIDTH_SPACES
        invariant
            k <= TAB_WIDTH_SPACES,
            s@ == Seq::new(k as nat, |i: int| ' '),
        decreases TAB_WIDTH_SPACES - k,
    {
        push_char(&mut s, ' ');
        k = k + 1;
        assert(s@ =~= Seq::new(k as nat, |i: int| ' '));
    }
    s
}

/// Whether `s` ends with a zero width joiner.
fn ends_with_joiner(s: &str) -> (b: bool)
    ensures
        b == (s@.len() > 0 && s@.last() == ZERO_WIDTH_JOINER),
{
    let n = s.unicode_len();
    n > 0 && s.get_char(n - 1) == ZERO_WIDTH_JOINER
}

/// Whether `s` starts with a zero width joiner.
fn starts_with_joiner(s: &str) -> (b: bool)
    ensures
        b == (s@.len() > 0 && s@[0] == ZERO_WIDTH_JOINER),
{
    let n = s.unicode_len();
    n > 0 && s.get_char(0) == ZERO_WIDTH_JOINER
}

impl Line {
    /// The fragments of the line.
    pub closed spec fn fragments(self) -> Seq<FragmentModel> {
        self.content@.map_values(|f: TextFragment| f@)
    }

    /// The graphemes of the line.
    pub open spec fn graphemes(self) -> Seq<Seq<char>> {
        graphemes_of(self.fragments())
    }

    /// The text of the line.
    pub open spec fn text(self) -> Seq<char> {
        concat(self.graphemes())
    }

    /// The text of the line once `c` is inserted before grapheme `grapheme_index`
    /// (at the end of the line if the index is past it).
    pub open spec fn text_with(self, grapheme_index: usize, c: char) -> Seq<char> {
        text_with(self.fragments(), grapheme_index as int, c)
    }

    /// Whether this line is what `Line::from(s)` makes: `s` cut into fragments.
    pub open spec fn made_from(self, s: Seq<char>) -> bool {
        &&& self.fragments() == content_of(s)
        &&& self.text() == s
        &&& self.fragments().len() <= s.len()
        &&& self.scroll() == 0
    }

    /// What `split_at(grapheme_index)` makes of this line: `after` keeps the
    /// fragments before the (clamped) index, `remainder` holds the rest.
    pub open spec fn split_post(self, after: Line, remainder: Line, grapheme_index: usize) -> bool {
        let f = self.fragments();
        let index = if grapheme_index <= f.len() {
            grapheme_index as int
        } else {
            f.len() as int
        };
        &&& after.fragments() == f.subrange(0, index)
        &&& remainder.fragments() == f.subrange(index, f.len() as int)
        &&& after.text() + remainder.text() == self.text()
        &&& after.scroll() == self.scroll()
        &&& remainder.scroll() == 0
    }

    /// What `append(other)` makes of this line: its text followed by
    /// `other`'s, cut into fragments afresh.
    pub open spec fn append_post(self, after: Line, other: Line) -> bool {
        &&& after.text() == self.text() + other.text()
        &&& after.fragments() == content_of(after.text())
        &&& after.scroll() == self.scroll()
    }

    /// The horizontal scroll offset last used for the line.
    pub closed spec fn scroll(self) -> usize {
        self.scroll_x
    }

    /// A line holds at most `usize::MAX` fragments.
    pub proof fn lemma_fragment_count_fits(self)
        ensures
            self.fragments().len() <= usize::MAX,
    {
        assert(self.content.len() == self.content@.len());
    }

    #[verifier::type_invariant]
    spec fn inv(self) -> bool {
        &&& forall|i: int| 0 <= i < self.content@.len() ==> #[trigger] self.content@[i].grapheme@.len() > 0
        &&& concat(raw_graphemes(self.content@)).len() <= line_capacity()
    }

    proof fn lemma_graphemes(self)
        ensures
            self.graphemes() == raw_graphemes(self.content@),
            self.text() == concat(raw_graphemes(self.content@)),
    {
        assert(self.graphemes() =~= raw_graphemes(self.content@));
    }

    proof fn lemma_sizes(self)
        requires
            self.inv(),
        ensures
            self.fragments().len() <= self.text().len() <= line_capacity(),
            self.fragments().len() == self.content@.len(),
            self.graphemes() == raw_graphemes(self.content@),
    {
        self.lemma_graphemes();
        assert forall|i: int| 0 <= i < self.graphemes().len() implies #[trigger] self.graphemes()[i].len() > 0 by {
            assert(self.graphemes()[i] == self.content@[i].grapheme@);
        }
        lemma_concat_len(self.graphemes());
    }

    /// An empty line.
    pub fn newline() -> (line: Self)
        ensures
            line.fragments() == Seq::<FragmentModel>::empty(),
            line.text() == Seq::<char>::empty(),
            line.scroll() == 0,
    {
        proof {
            reveal_strlit("");
        }
        let line = Self::from("");
        proof {
            assert(line.fragments().len() <= 0);
            assert(line.fragments() =~= Seq::<FragmentModel>::empty());
        }
        line
    }

    /// The line holding `line_str`, cut into display fragments.
    pub fn from(line_str: &str) -> (line: Self)
        requires
            line_str@.len() <= line_capacity(),
        ensures
            line.made_from(line_str@),
    {
        let content = Self::convert_string_to_content(line_str);
        let line = Self { content: content, scroll_x: 0 };
        proof {
            assert(line.fragments() =~= content_of(line_str@));
        }
        line
    }

    /// Appends the content of `other` to this line, keeping this line's existing content first.
    pub fn append(&mut self, other: Self)
        requires
            old(self).text().len() + other.text().len() <= line_capacity(),
        ensures
            old(self).append_post(*final(self), other),
    {
        let mut content_string = self.to_string();
        let other_string = other.to_string();
        content_string.append(other_string.as_str());
        self.content = Line::convert_string_to_content(content_string.as_str());
        proof {
            assert(self.fragments() =~= content_of(content_string@));
        }
    }

    /// Cuts `line_str` into display fragments.
    fn convert_string_to_content(line_str: &str) -> (content: Vec<TextFragment>)
        requires
            line_str@.len() <= line_capacity(),
        ensures
            content@.map_values(|f: TextFragment| f@) == content_of(line_str@),
            text_of(content@.map_values(|f: TextFragment| f@)) == line_str@,
            concat(raw_graphemes(content@)) == line_str@,
            content@.len() <= line_str@.len(),
            forall|i: int| 0 <= i < content@.len() ==> #[trigger] content@[i].grapheme@.len() > 0,
    {
        let graphemes = extended_graphemes(line_str);
        let content = Self::content_from_graphemes(&graphemes);
        proof {
            let gs = graphemes@.map_values(|g: String| g@);
            assert forall|k: int| 0 <= k < gs.len() implies #[trigger] gs[k].len() > 0 by {
                assert(gs[k] == graphemes@[k]@);
            }
            lemma_content_of(line_str@, gs);
            let frags = content@.map_values(|f: TextFragment| f@);
            assert forall|i: int| 0 <= i < content@.len() implies #[trigger] content@[i].grapheme@.len() > 0 by {
                assert(frags[i] == content@[i]@);
                assert(content_of(line_str@)[i].grapheme.len() > 0);
            }
            assert(graphemes_of(frags) =~= raw_graphemes(content@));
        }
        content
    }

    /// The display fragments of a sequence of graphemes: each grapheme
    /// becomes a fragment, except that graphemes glued by a zero width joiner
    /// merge into one fragment.
    pub fn content_from_graphemes(graphemes: &Vec<String>) -> (content: Vec<TextFragment>)
        ensures
            content@.map_values(|f: TextFragment| f@) == fragments_from(
                graphemes@.map_values(|g: String| g@),
                0,
            ),
    {
        let ghost gs = graphemes@.map_values(|g: String| g@);
        let n = graphemes.len();
        let mut merged: Vec<TextFragment> = Vec::new();
        let mut i: usize = 0;
        while i < n
            invariant
                n == gs.len(),
                gs == graphemes@.map_values(|g: String| g@),
                i <= n,
                merged@.map_values(|f: TextFragment| f@) + fragments_from(gs, i as int) == fragments_from(
                    gs,
                    0,
                ),
            decreases n - i,
        {
            let start = i;
            let mut current = Self::single_fragment(graphemes[i].as_str());
            proof {
                assert(gs[i as int] == graphemes@[i as int]@);
                assert(gs.subrange(i as int, i + 1) =~= seq![gs[i as int]]);
                lemma_concat_singleton(gs[i as int]);
            }
            while i + 1 < n && (ends_with_joiner(graphemes[i].as_str()) || starts_with_joiner(
                graphemes[i + 1].as_str(),
            ))
                invariant
                    n == gs.len(),
                    gs == graphemes@.map_values(|g: String| g@),
                    start <= i < n,
                    current@ == run_fragment(gs, start as int, i as int),
                    current@.grapheme == concat(gs.subrange(start as int, i + 1)),
                    run_end(gs, start as int) == run_end(gs, i as int),
                decreases n - i,
            {
                proof {
                    assert(gs[i as int] == graphemes@[i as int]@);
                    assert(gs[i + 1] == graphemes@[i + 1]@);
                    assert(joins(gs[i as int], gs[i + 1]));
                    lemma_concat_extend(gs, start as int, i + 1);
                }
                let mut combined_str = String::from_str(current.grapheme.as_str());
                combined_str.append(graphemes[i + 1].as_str());
                let width = display_width(combined_str.as_str());
                let rendered_width = if width > 1 {
                    GraphemeWidth::Full
                } else {
                    GraphemeWidth::Half
                };
                let replacement = Self::replacement_character(combined_str.as_str());
                current = TextFragment {
                    grapheme: combined_str,
                    rendered_width: rendered_width,
                    replacement: replacement,
                };
                i = i + 1;
            }
            proof {
                assert(run_end(gs, i as int) == i);
                lemma_run_end_bounds(gs, start as int);
                assert(fragments_from(gs, start as int) == seq![current@] + fragments_from(gs, i + 1));
                assert(merged@.push(current).map_values(|f: TextFragment| f@) =~= merged@.map_values(
                    |f: TextFragment| f@,
                ).push(current@));
            }
            merged.push(current);
            i = i + 1;
        }
        proof {
            assert(fragments_from(gs, n as int) == Seq::<FragmentModel>::empty());
            assert(merged@.map_values(|f: TextFragment| f@) + Seq::<FragmentModel>::empty()
                =~= merged@.map_values(|f: TextFragment| f@));
        }
        merged
    }

    /// The fragment of a single grapheme.
    fn single_fragment(grapheme: &str) -> (fragment: TextFragment)
        ensures
            fragment@ == (FragmentModel {
                grapheme: grapheme@,
                rendered_width: single_width(grapheme@),
                replacement: replacement_for(grapheme@),
            }),
    {
        let unicode_width = display_width(grapheme);
        let rendered_width = if is_char(grapheme, '\t') {
            GraphemeWidth::Tab
        } else if unicode_width <= 1 {
            GraphemeWidth::Half
        } else {
            GraphemeWidth::Full
        };
        let replacement = Self::replacement_character(grapheme);
        TextFragment::from(grapheme, rendered_width, replacement)
    }

    /// What is drawn in place of `for_str`, if it is not drawn as itself.
    fn replacement_character(for_str: &str) -> (replacement: Option<String>)
        ensures
            opt_view(replacement) == replacement_for(for_str@),
    {
        let width = display_width(for_str);
        if is_char(for_str, ' ') {
            None
        } else if is_char(for_str, '\t') {
            Some(tab_spaces())
        } else if width > 0 && is_blank(for_str) {
            let s = String::from_str("\u{2423}");
            proof {
                reveal_strlit("\u{2423}");
            }
            Some(s)
        } else if all_control(for_str) {
            let s = String::from_str("\u{25af}");
            proof {
                reveal_strlit("\u{25af}");
            }
            Some(s)
        } else {
            None
        }
    }

    /// The concatenation of the graphemes `from..to`.
    fn concat_range(&self, from: usize, to: usize) -> (s: String)
        requires
            from <= to <= self.graphemes().len(),
        ensures
            s@ == concat(self.graphemes().subrange(from as int, to as int)),
    {
        let mut result = String::new();
        let mut idx = from;
        proof {
            assert(self.graphemes().subrange(from as int, from as int) =~= Seq::<Seq<char>>::empty());
        }
        while idx < to
            invariant
                from <= idx <= to <= self.graphemes().len(),
                self.graphemes().len() == self.content@.len(),
                result@ == concat(self.graphemes().subrange(from as int, idx as int)),
            decreases to - idx,
        {
            proof {
                lemma_concat_extend(self.graphemes(), from as int, idx as int);
                assert(self.graphemes()[idx as int] == self.content@[idx as int].grapheme@);
            }
            result.append(self.content[idx].grapheme.as_str());
            idx = idx + 1;
        }
        result
    }

    /// The raw text of the line (the graphemes themselves, not what is drawn for them).
    pub fn to_string(&self) -> (s: String)
        ensures
            s@ == self.text(),
    {
        let n = self.content.len();
        proof {
            assert(self.graphemes().subrange(0, n as int) =~= self.graphemes());
        }
        self.concat_range(0, n)
    }

    /// The raw text of the graphemes in `range`, clamped to the line.
    pub fn convert_content_to_string(&self, range: Range<usize>) -> (s: String)
        ensures
            ({
                let end = if range.end <= self.graphemes().len() {
                    range.end as int
                } else {
                    self.graphemes().len() as int
                };
                let start = if range.start <= end {
                    range.start as int
                } else {
                    end
                };
                s@ == concat(self.graphemes().subrange(start, end))
            }),
            s@.len() <= self.text().len() <= line_capacity(),
    {
        proof {
            use_type_invariant(self);
            self.lemma_sizes();
        }
        let n = self.content.len();
        let end = if range.end <= n {
            range.end
        } else {
            n
        };
        let start = if range.start <= end {
            range.start
        } else {
            end
        };
        let s = self.concat_range(start, end);
        proof {
            let g = self.graphemes();
            lemma_concat_split(g, end as int);
            lemma_concat_split(g.subrange(0, end as int), start as int);
            assert(g.subrange(0, end as int).subrange(start as int, end as int) =~= g.subrange(
                start as int,
                end as int,
            ));
        }
        s
    }

    // Given a view offset x and a terminal width, returns
    // the visible portion of the Line. If the start or end
    // of the visible range cuts off a grapheme, the character
    // U+2026 (…) replaces it.
    pub fn get(&self, range: Range<usize>) -> (segment: String)
        ensures
            segment@ == rendered(self.fragments(), range.start as int, range.end as int),
    {
        proof {
            use_type_invariant(self);
            self.lemma_sizes();
        }
        let ghost frags = self.fragments();
        let ghost start = range.start as int;
        let ghost end = range.end as int;
        if self.content.len() == 0 {
            return String::new();
        }
        let n = self.content.len();
        let mut segment = String::new();
        let mut cut_at_start = false;
        let mut cut_at_end = false;
        let mut left: usize = 0;  // columns taken by the graphemes before `idx`
        let mut idx: usize = 0;
        proof {
            reveal_strlit("\u{2026}");
        }
        while idx < n
            invariant
                n == frags.len() <= line_capacity(),
                frags == self.fragments(),
                start == range.start as int,
                end == range.end as int,
                idx <= n,
                left == prefix_width(frags, idx as int),
                cut_at_start == cut_before(frags, start, idx as int),
                cut_at_end == cut_before(frags, end, idx as int),
                segment@ == (if cut_at_start {
                    ellipsis()
                } else {
                    Seq::empty()
                }) + shown_text(frags, start, end, idx as int) + (if cut_at_end {
                    ellipsis()
                } else {
                    Seq::empty()
                }),
                "\u{2026}"@ == ellipsis(),
            decreases n - idx,
        {
            proof {
                assert(frags[idx as int] == self.content@[idx as int]@);
                lemma_prefix_width_bound(frags, idx + 1);
                self.lemma_get_step(start, end, idx as int);
            }
            let width = match self.content[idx].rendered_width {
                GraphemeWidth::Half => 1,
                GraphemeWidth::Full => 2,
                GraphemeWidth::Tab => TAB_WIDTH_SPACES,
            };
            let right = left + width;
            assert(right == prefix_width(frags, idx + 1));
            // Truncation at range.start?
            if left < range.start && range.start < right {
                segment.append("\u{2026}");
                cut_at_start = true;
            }
            // Graphemes within the visible range
            if range.start <= left && right <= range.end {
                segment.append(self.content[idx].get_display_text());
            }
            // Truncation at range.end?
            if left < range.end && range.end < right {
                segment.append("\u{2026}");
                cut_at_end = true;
            }
            proof {
                let i = idx as int;
                assert(segment@ =~= (if cut_at_start {
                    ellipsis()
                } else {
                    Seq::empty()
                }) + shown_text(frags, start, end, i + 1) + (if cut_at_end {
                    ellipsis()
                } else {
                    Seq::empty()
                }));
            }
            left = right;
            idx = idx + 1;
        }
        segment
    }

    /// The facts one step of `get` rests on: a grapheme cut at the start of
    /// the range comes before every shown grapheme, and a grapheme cut at its
    /// end comes after them; neither is cut twice.
    proof fn lemma_get_step(self, start: int, end: int, i: int)
        requires
            0 <= i < self.fragments().len(),
        ensures
            cuts(self.fragments(), start, i) ==> !cut_before(self.fragments(), start, i) && shown_text(
                self.fragments(),
                start,
                end,
                i,
            ) == Seq::<char>::empty() && !shows(self.fragments(), start, end, i),
            cut_before(self.fragments(), start, i + 1) == (cut_before(self.fragments(), start, i) || cuts(
                self.fragments(),
                start,
                i,
            )),
            cut_before(self.fragments(), end, i + 1) == (cut_before(self.fragments(), end, i) || cuts(
                self.fragments(),
                end,
                i,
            )),
            cut_before(self.fragments(), end, i) ==> !shows(self.fragments(), start, end, i) && !cuts(
                self.fragments(),
                end,
                i,
            ),
            shows(self.fragments(), start, end, i) ==> !cuts(self.fragments(), start, i) && !cuts(
                self.fragments(),
                end,
                i,
            ),
    {
        let frags = self.fragments();
        if cuts(frags, start, i) {
            if cut_before(frags, start, i) {
                let j = choose|j: int| 0 <= j < i && #[trigger] cuts(frags, start, j);
                lemma_prefix_width_monotone(frags, j + 1, i);
            }
            assert forall|k: int| 0 <= k < i implies !#[trigger] shows(frags, start, end, k) by {
                lemma_prefix_width_monotone(frags, k, i);
            }
            lemma_nothing_shown(frags, start, end, i);
        }
        if cut_before(frags, end, i) {
            let j = choose|j: int| 0 <= j < i && #[trigger] cuts(frags, end, j);
            lemma_prefix_width_monotone(frags, j + 1, i + 1);
            lemma_prefix_width_monotone(frags, j + 1, i);
        }
        lemma_cut_before_step(frags, start, i);
        lemma_cut_before_step(frags, end, i);
    }

    /// The number of characters of the line.
    pub fn text_len(&self) -> (len: usize)
        ensures
            len == self.text().len(),
    {
        proof {
            use_type_invariant(self);
            self.lemma_sizes();
        }
        let n = self.content.len();
        let mut total: usize = 0;
        let mut i: usize = 0;
        proof {
            assert(self.graphemes().subrange(0, 0) =~= Seq::<Seq<char>>::empty());
        }
        while i < n
            invariant
                n == self.content@.len() == self.graphemes().len(),
                self.text().len() <= line_capacity(),
                i <= n,
                total == concat(self.graphemes().subrange(0, i as int)).len(),
            decreases n - i,
        {
            proof {
                lemma_concat_extend(self.graphemes(), 0, i as int);
                lemma_concat_split(self.graphemes(), i + 1);
                assert(self.graphemes()[i as int] == self.content@[i as int].grapheme@);
            }
            total = total + self.content[i].grapheme.as_str().unicode_len();
            i = i + 1;
        }
        proof {
            assert(self.graphemes().subrange(0, n as int) =~= self.graphemes());
        }
        total
    }

    /// The number of graphemes (fragments) of the line.
    pub fn grapheme_count(&self) -> (count: usize)
        ensures
            count == self.fragments().len(),
            count <= self.text().len() <= line_capacity(),
    {
        proof {
            use_type_invariant(self);
            self.lemma_sizes();
        }
        self.content.len()
    }

    /// The number of columns the first `grapheme_index` graphemes occupy.
    pub fn width_until(&self, grapheme_index: usize) -> (width: usize)
        ensures
            width == prefix_width(self.fragments(), grapheme_index as int),
    {
        proof {
            use_type_invariant(self);
            self.lemma_sizes();
        }
        let ghost frags = self.fragments();
        let n = self.content.len();
        let k = if grapheme_index <= n {
            grapheme_index
        } else {
            n
        };
        let mut sum: usize = 0;
        let mut i: usize = 0;
        while i < k
            invariant
                k <= n == frags.len() <= line_capacity(),
                frags == self.fragments(),
                i <= k,
                sum == prefix_width(frags, i as int),
            decreases k - i,
        {
            proof {
                lemma_prefix_width_bound(frags, i + 1);
                assert(frags[i as int] == self.content@[i as int]@);
            }
            let w = match self.content[i].rendered_width {
                GraphemeWidth::Half => 1,
                GraphemeWidth::Full => 2,
                GraphemeWidth::Tab => TAB_WIDTH_SPACES,
            };
            sum = sum + w;
            i = i + 1;
        }
        sum
    }

    /// Inserts character `c` at `grapheme_index`, shifting all subsequent graphemes right.
    pub fn insert_char(&mut self, grapheme_index: usize, c: char)
        requires
            old(self).text().len() + 1 <= line_capacity(),
        ensures
            final(self).text() == old(self).text_with(grapheme_index, c),
            final(self).fragments() == content_of(final(self).text()),
            final(self).scroll() == old(self).scroll(),
    {
        proof {
            use_type_invariant(&*self);
            self.lemma_sizes();
        }
        let n = self.content.len();
        let k = if grapheme_index <= n {
            grapheme_index
        } else {
            n
        };
        let mut result = self.concat_range(0, k);
        push_char(&mut result, c);
        let rest = self.concat_range(k, n);
        result.append(rest.as_str());
        proof {
            lemma_concat_split(self.graphemes(), k as int);
        }
        self.content = Self::convert_string_to_content(result.as_str());
        proof {
            assert(self.fragments() =~= content_of(result@));
        }
    }

    /// Splits this line at `grapheme_index`: the graphemes before the index
    /// stay in place and a new `Line` containing the remainder is returned.
    ///
    /// The index is clamped to the line's length, so splitting an empty line
    /// or splitting past the end of the line leaves this line intact and
    /// yields an empty remainder.
    pub fn split_at(&mut self, grapheme_index: usize) -> (remainder: Line)
        ensures
            old(self).split_post(*final(self), remainder, grapheme_index),
    {
        proof {
            use_type_invariant(&*self);
            self.lemma_sizes();
        }
        let ghost old_line = *self;
        let n = self.content.len();
        let index = if grapheme_index <= n {
            grapheme_index
        } else {
            n
        };
        let mut content: Vec<TextFragment> = Vec::new();
        std::mem::swap(&mut content, &mut self.content);
        let remainder = content.split_off(index);
        proof {
            let g = old_line.graphemes();
            lemma_concat_split(g, index as int);
            assert(raw_graphemes(content@) =~= g.subrange(0, index as int));
            assert(raw_graphemes(remainder@) =~= g.subrange(index as int, n as int));
            assert(forall|i: int| 0 <= i < content@.len() ==> content@[i] == old_line.content@[i]);
            assert(forall|i: int| 0 <= i < remainder@.len() ==> remainder@[i] == old_line.content@[index + i]);
        }
        self.content = content;
        proof {
            assert(self.fragments() =~= old_line.fragments().subrange(0, index as int));
            self.lemma_graphemes();
        }
        let result = Self { content: remainder, scroll_x: 0 };
        proof {
            assert(result.fragments() =~= old_line.fragments().subrange(index as int, n as int));
            result.lemma_graphemes();
        }
        result
    }

    /// Removes the grapheme cluster at `grapheme_index` from this line's content.
    pub fn delete_grapheme(&mut self, grapheme_index: usize)
        ensures
            final(self).fragments() == if grapheme_index < old(self).fragments().len() {
                old(self).fragments().remove(grapheme_index as int)
            } else {
                old(self).fragments()
            },
            final(self).fragments().len() <= final(self).text().len() <= old(self).text().len(),
            final(self).scroll() == old(self).scroll(),
    {
        proof {
            use_type_invariant(&*self);
            self.lemma_sizes();
        }
        if grapheme_index >= self.content.len() {
            return;
        }
        let ghost old_line = *self;
        proof {
            lemma_concat_split(old_line.graphemes(), grapheme_index as int);
        }
        let mut content: Vec<TextFragment> = Vec::new();
        std::mem::swap(&mut content, &mut self.content);
        content.remove(grapheme_index);
        proof {
            let g = old_line.graphemes();
            let i = grapheme_index as int;
            lemma_concat_split(g, i);
            lemma_concat_split(g.subrange(i, g.len() as int), 1);
            crate::common::textmodel::lemma_concat_append(g.subrange(0, i), g.subrange(i + 1, g.len() as int));
            assert(raw_graphemes(content@) =~= g.subrange(0, i) + g.subrange(i + 1, g.len() as int));
            assert(g.subrange(i, g.len() as int).subrange(1, g.len() - i) =~= g.subrange(i + 1, g.len() as int));
            assert(forall|k: int| 0 <= k < content@.len() ==> content@[k] == old_line.content@[if k < i { k } else { k + 1 }]);
        }
        self.content = content;
        proof {
            assert(self.fragments() =~= old_line.fragments().remove(grapheme_index as int));
            use_type_invariant(&*self);
            self.lemma_sizes();
            let g = old_line.graphemes();
            let i = grapheme_index as int;
            lemma_concat_split(g.subrange(0, i), i);
            assert(g.subrange(0, i).subrange(0, i) =~= g.subrange(0, i));
        }
    }

    /// Records the horizontal scroll offset used for this line.
    pub fn set_scroll_x(&mut self, scroll_x: usize)
        ensures
            final(self).fragments() == old(self).fragments(),
            final(self).scroll() == scroll_x,
    {
        proof {
            use_type_invariant(&*self);
        }
        self.scroll_x = scroll_x;
    }

    /// The horizontal scroll offset last used for this line.
    pub fn scroll_x(&self) -> (scroll_x: usize)
        ensures
            scroll_x == self.scroll(),
    {
        self.scroll_x
    }
}

} // verus!
