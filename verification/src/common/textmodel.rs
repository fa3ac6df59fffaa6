//! The mathematical model of a line of text: how a string is cut into
//! display fragments, how wide those fragments are, and what part of a line
//! is drawn for a range of screen columns.
use crate::common::constants::TAB_WIDTH_SPACES;
use crate::common::textfragment::{FragmentModel, GraphemeWidth};
use crate::common::unicode::{all_white_space, concat, is_control_char, spec_display_width, spec_extended_graphemes};
use vstd::prelude::*;

verus! {

/// The zero width joiner, which glues graphemes into one compound emoji.
pub const ZERO_WIDTH_JOINER: char = '\u{200d}';

/// The most characters a line may hold: every grapheme is at most a tab
/// wide, so the width of such a line always fits in a `usize`.
pub open spec fn line_capacity() -> nat {
    (usize::MAX / TAB_WIDTH_SPACES) as nat
}

/// The text drawn in place of a grapheme (or of a merged group of graphemes).
pub open spec fn replacement_for(g: Seq<char>) -> Option<Seq<char>> {
    if g == seq![' '] {
        None
    } else if g == seq!['\t'] {
        Some(Seq::new(TAB_WIDTH_SPACES as nat, |i: int| ' '))
    } else if spec_display_width(g) > 0 && all_white_space(g) {
        Some(seq!['\u{2423}'])
    } else if forall|i: int| 0 <= i < g.len() ==> #[trigger] is_control_char(g[i]) {
        Some(seq!['\u{25af}'])
    } else {
        None
    }
}

/// The width of a single grapheme.
pub open spec fn single_width(g: Seq<char>) -> GraphemeWidth {
    if g == seq!['\t'] {
        GraphemeWidth::Tab
    } else if spec_display_width(g) <= 1 {
        GraphemeWidth::Half
    } else {
        GraphemeWidth::Full
    }
}

/// The width of graphemes merged into one compound emoji.
pub open spec fn merged_width(g: Seq<char>) -> GraphemeWidth {
    if spec_display_width(g) > 1 {
        GraphemeWidth::Full
    } else {
        GraphemeWidth::Half
    }
}

/// Whether two neighbouring graphemes are joined by a zero width joiner.
pub open spec fn joins(a: Seq<char>, b: Seq<char>) -> bool {
    (a.len() > 0 && a.last() == ZERO_WIDTH_JOINER) || (b.len() > 0 && b[0] == ZERO_WIDTH_JOINER)
}

/// The index of the last grapheme of the joined run that starts at `i`.
pub open spec fn run_end(gs: Seq<Seq<char>>, i: int) -> int
    decreases gs.len() - i,
{
    if 0 <= i && i + 1 < gs.len() && joins(gs[i], gs[i + 1]) {
        run_end(gs, i + 1)
    } else {
        i
    }
}

/// The fragment made of the graphemes `gs[i..=j]`.
pub open spec fn run_fragment(gs: Seq<Seq<char>>, i: int, j: int) -> FragmentModel {
    if j == i {
        FragmentModel {
            grapheme: gs[i],
            rendered_width: single_width(gs[i]),
            replacement: replacement_for(gs[i]),
        }
    } else {
        let g = concat(gs.subrange(i, j + 1));
        FragmentModel { grapheme: g, rendered_width: merged_width(g), replacement: replacement_for(g) }
    }
}

pub proof fn lemma_run_end_bounds(gs: Seq<Seq<char>>, i: int)
    requires
        0 <= i < gs.len(),
    ensures
        i <= run_end(gs, i) < gs.len(),
    decreases gs.len() - i,
{
    if i + 1 < gs.len() && joins(gs[i], gs[i + 1]) {
        lemma_run_end_bounds(gs, i + 1);
    }
}

/// The fragments of the graphemes `gs[i..]`: each joined run becomes one fragment.
pub open spec fn fragments_from(gs: Seq<Seq<char>>, i: int) -> Seq<FragmentModel>
    decreases gs.len() - i,
{
    if i < 0 || i >= gs.len() {
        Seq::empty()
    } else {
        proof {
            lemma_run_end_bounds(gs, i);
        }
        let j = run_end(gs, i);
        seq![run_fragment(gs, i, j)] + fragments_from(gs, j + 1)
    }
}

/// The fragments a string is cut into.
pub open spec fn content_of(s: Seq<char>) -> Seq<FragmentModel> {
    fragments_from(spec_extended_graphemes(s), 0)
}

/// The graphemes of a sequence of fragments.
pub open spec fn graphemes_of(frags: Seq<FragmentModel>) -> Seq<Seq<char>> {
    frags.map_values(|f: FragmentModel| f.grapheme)
}

/// The text of a sequence of fragments.
pub open spec fn text_of(frags: Seq<FragmentModel>) -> Seq<char> {
    concat(graphemes_of(frags))
}

/// The number of columns the first `k` fragments occupy (all of them when `k`
/// exceeds their number).
pub open spec fn prefix_width(frags: Seq<FragmentModel>, k: int) -> nat
    decreases k,
{
    if k <= 0 {
        0
    } else if k > frags.len() {
        prefix_width(frags, frags.len() as int)
    } else {
        prefix_width(frags, k - 1) + frags[k - 1].rendered_width.columns()
    }
}

/// Whether fragment `i` starts before column `col` and ends after it, so
/// that a range of columns starting or ending at `col` cuts it.
pub open spec fn cuts(frags: Seq<FragmentModel>, col: int, i: int) -> bool {
    prefix_width(frags, i) < col < prefix_width(frags, i + 1)
}

/// Whether one of the first `k` fragments is cut at column `col`.
pub open spec fn cut_before(frags: Seq<FragmentModel>, col: int, k: int) -> bool {
    exists|i: int| 0 <= i < k && #[trigger] cuts(frags, col, i)
}

/// Whether fragment `i` lies wholly within the columns `start..end`.
pub open spec fn shows(frags: Seq<FragmentModel>, start: int, end: int, i: int) -> bool {
    start <= prefix_width(frags, i) && prefix_width(frags, i + 1) <= end
}

/// What is drawn, in order, for those of the first `k` fragments that lie
/// wholly within the columns `start..end`.
pub open spec fn shown_text(frags: Seq<FragmentModel>, start: int, end: int, k: int) -> Seq<char>
    decreases k,
{
    if k <= 0 {
        Seq::empty()
    } else {
        shown_text(frags, start, end, k - 1) + if shows(frags, start, end, k - 1) {
            frags[k - 1].display_text()
        } else {
            Seq::empty()
        }
    }
}

/// What is drawn for all fragments `from..to`.
pub open spec fn display_concat(frags: Seq<FragmentModel>, from: int, to: int) -> Seq<char>
    decreases to - from,
{
    if to <= from {
        Seq::empty()
    } else {
        display_concat(frags, from, to - 1) + frags[to - 1].display_text()
    }
}

/// The ellipsis drawn in place of a grapheme that the visible range cuts.
pub open spec fn ellipsis() -> Seq<char> {
    seq!['\u{2026}']
}

/// What is drawn of a line for the screen columns `start..end`: an ellipsis
/// where the start of the range cuts a grapheme, then every fragment lying
/// wholly within the range, then an ellipsis where the end of the range cuts
/// a grapheme.
pub open spec fn rendered(frags: Seq<FragmentModel>, start: int, end: int) -> Seq<char> {
    let n = frags.len() as int;
    (if cut_before(frags, start, n) {
        ellipsis()
    } else {
        Seq::empty()
    }) + shown_text(frags, start, end, n) + (if cut_before(frags, end, n) {
        ellipsis()
    } else {
        Seq::empty()
    })
}

/// The text of the fragments `frags` once `c` is inserted before fragment
/// `index` (after the last fragment if the index is past it).
pub open spec fn text_with(frags: Seq<FragmentModel>, index: int, c: char) -> Seq<char> {
    let g = graphemes_of(frags);
    let k = if index <= g.len() {
        index
    } else {
        g.len() as int
    };
    concat(g.subrange(0, k)) + seq![c] + concat(g.subrange(k, g.len() as int))
}

/// The text of the fragments before fragment `index` (all of them if the index is past them).
pub open spec fn text_before(frags: Seq<FragmentModel>, index: int) -> Seq<char> {
    let g = graphemes_of(frags);
    let k = if index <= g.len() {
        index
    } else {
        g.len() as int
    };
    concat(g.subrange(0, k))
}

/// The text of the fragments from fragment `index` on (none if the index is past them).
pub open spec fn text_after(frags: Seq<FragmentModel>, index: int) -> Seq<char> {
    let g = graphemes_of(frags);
    let k = if index <= g.len() {
        index
    } else {
        g.len() as int
    };
    concat(g.subrange(k, g.len() as int))
}

// ---------------------------------------------------------------------------
// Lemmas on concatenation and widths
// ---------------------------------------------------------------------------

pub proof fn lemma_concat_append(a: Seq<Seq<char>>, b: Seq<Seq<char>>)
    ensures
        concat(a + b) == concat(a) + concat(b),
    decreases b.len(),
{
    if b.len() == 0 {
        assert(a + b =~= a);
    } else {
        lemma_concat_append(a, b.drop_last());
        assert((a + b).drop_last() =~= a + b.drop_last());
    }
}

pub proof fn lemma_concat_singleton(g: Seq<char>)
    ensures
        concat(seq![g]) == g,
{
    assert(seq![g].drop_last() =~= Seq::<Seq<char>>::empty());
    assert(concat(Seq::<Seq<char>>::empty()) + g =~= g);
}

/// Splitting a sequence of strings at `k` splits their concatenation.
pub proof fn lemma_concat_split(parts: Seq<Seq<char>>, k: int)
    requires
        0 <= k <= parts.len(),
    ensures
        concat(parts) == concat(parts.subrange(0, k)) + concat(parts.subrange(k, parts.len() as int)),
{
    lemma_concat_append(parts.subrange(0, k), parts.subrange(k, parts.len() as int));
    assert(parts.subrange(0, k) + parts.subrange(k, parts.len() as int) =~= parts);
}

/// Extending a range of strings by one adds that string to the concatenation.
pub proof fn lemma_concat_extend(parts: Seq<Seq<char>>, i: int, j: int)
    requires
        0 <= i <= j < parts.len(),
    ensures
        concat(parts.subrange(i, j + 1)) == concat(parts.subrange(i, j)) + parts[j],
{
    assert(parts.subrange(i, j + 1).drop_last() =~= parts.subrange(i, j));
}

/// Non-empty strings: there are no more of them than characters in their concatenation.
pub proof fn lemma_concat_len(parts: Seq<Seq<char>>)
    requires
        forall|i: int| 0 <= i < parts.len() ==> #[trigger] parts[i].len() > 0,
    ensures
        parts.len() <= concat(parts).len(),
    decreases parts.len(),
{
    if parts.len() > 0 {
        let init = parts.drop_last();
        assert forall|i: int| 0 <= i < init.len() implies #[trigger] init[i].len() > 0 by {
            assert(init[i] == parts[i]);
        }
        lemma_concat_len(init);
    }
}

pub proof fn lemma_prefix_width_bound(frags: Seq<FragmentModel>, k: int)
    requires
        0 <= k <= frags.len(),
    ensures
        prefix_width(frags, k) <= TAB_WIDTH_SPACES * k,
    decreases k,
{
    if k > 0 {
        lemma_prefix_width_bound(frags, k - 1);
    }
}

/// The width of a prefix of a line never decreases as the prefix grows.
pub proof fn lemma_prefix_width_monotone(frags: Seq<FragmentModel>, i: int, j: int)
    requires
        i <= j,
    ensures
        prefix_width(frags, i) <= prefix_width(frags, j),
    decreases j - i,
{
    if i < j {
        lemma_prefix_width_monotone(frags, i, j - 1);
    }
}

/// Every fragment is at least one column wide, so a later prefix is strictly wider.
pub proof fn lemma_prefix_width_strict(frags: Seq<FragmentModel>, i: int, j: int)
    requires
        0 <= i < j <= frags.len(),
    ensures
        prefix_width(frags, i) < prefix_width(frags, j),
    decreases j - i,
{
    if i + 1 < j {
        lemma_prefix_width_strict(frags, i, j - 1);
    }
}

/// One more fragment is cut at `col` among the first `i + 1` exactly when
/// one of the first `i` is or fragment `i` is.
pub proof fn lemma_cut_before_step(frags: Seq<FragmentModel>, col: int, i: int)
    requires
        0 <= i,
    ensures
        cut_before(frags, col, i + 1) == (cut_before(frags, col, i) || cuts(frags, col, i)),
{
    if cut_before(frags, col, i + 1) && !cuts(frags, col, i) {
        let j = choose|j: int| 0 <= j < i + 1 && #[trigger] cuts(frags, col, j);
        assert(j < i);
    }
    if cut_before(frags, col, i) {
        let j = choose|j: int| 0 <= j < i && #[trigger] cuts(frags, col, j);
        assert(0 <= j < i + 1 && cuts(frags, col, j));
    }
    if cuts(frags, col, i) {
        assert(0 <= i < i + 1 && cuts(frags, col, i));
    }
}

/// When none of the first `k` fragments lies within the range, nothing of them is drawn.
pub proof fn lemma_nothing_shown(frags: Seq<FragmentModel>, start: int, end: int, k: int)
    requires
        forall|i: int| 0 <= i < k ==> !#[trigger] shows(frags, start, end, i),
    ensures
        shown_text(frags, start, end, k) == Seq::<char>::empty(),
    decreases k,
{
    if k > 0 {
        lemma_nothing_shown(frags, start, end, k - 1);
        assert(shown_text(frags, start, end, k - 1) + Seq::<char>::empty() =~= Seq::<char>::empty());
    }
}

proof fn lemma_map_cons(f: FragmentModel, rest: Seq<FragmentModel>)
    ensures
        graphemes_of(seq![f] + rest) == seq![f.grapheme] + graphemes_of(rest),
{
    assert(graphemes_of(seq![f] + rest) =~= seq![f.grapheme] + graphemes_of(rest));
}

/// The fragments of `gs[i..]` hold exactly the text of `gs[i..]`, each of
/// them non-empty when the graphemes are, and there are no more of them than graphemes.
pub proof fn lemma_fragments_from_text(gs: Seq<Seq<char>>, i: int)
    requires
        0 <= i <= gs.len(),
        forall|k: int| 0 <= k < gs.len() ==> #[trigger] gs[k].len() > 0,
    ensures
        text_of(fragments_from(gs, i)) == concat(gs.subrange(i, gs.len() as int)),
        fragments_from(gs, i).len() <= gs.len() - i,
        forall|k: int|
            0 <= k < fragments_from(gs, i).len() ==> #[trigger] fragments_from(gs, i)[k].grapheme.len() > 0,
    decreases gs.len() - i,
{
    if i == gs.len() {
        assert(gs.subrange(i, gs.len() as int) =~= Seq::<Seq<char>>::empty());
        assert(graphemes_of(Seq::<FragmentModel>::empty()) =~= Seq::<Seq<char>>::empty());
    } else {
        lemma_run_end_bounds(gs, i);
        let j = run_end(gs, i);
        let f = run_fragment(gs, i, j);
        let rest = fragments_from(gs, j + 1);
        lemma_fragments_from_text(gs, j + 1);
        assert(fragments_from(gs, i) == seq![f] + rest);
        // the fragment's grapheme is the concatenation of gs[i..=j]
        if j == i {
            assert(gs.subrange(i, j + 1) =~= seq![gs[i]]);
            lemma_concat_singleton(gs[i]);
        } else {
            lemma_concat_extend(gs, i, j);
        }
        assert(f.grapheme == concat(gs.subrange(i, j + 1)));
        assert(f.grapheme.len() > 0) by {
            lemma_concat_extend(gs, i, j);
        }
        lemma_map_cons(f, rest);
        lemma_concat_append(seq![f.grapheme], graphemes_of(rest));
        lemma_concat_singleton(f.grapheme);
        let tail = gs.subrange(i, gs.len() as int);
        lemma_concat_split(tail, j + 1 - i);
        assert(tail.subrange(0, j + 1 - i) =~= gs.subrange(i, j + 1));
        assert(tail.subrange(j + 1 - i, tail.len() as int) =~= gs.subrange(j + 1, gs.len() as int));
        assert forall|k: int|
            0 <= k < fragments_from(gs, i).len() implies #[trigger] fragments_from(gs, i)[k].grapheme.len()
            > 0 by {
            if k > 0 {
                assert(fragments_from(gs, i)[k] == rest[k - 1]);
            }
        }
    }
}

/// The fragments of a string hold exactly its text, each of them non-empty,
/// and there are no more of them than characters.
pub proof fn lemma_content_of(s: Seq<char>, gs: Seq<Seq<char>>)
    requires
        gs == spec_extended_graphemes(s),
        concat(gs) == s,
        forall|k: int| 0 <= k < gs.len() ==> #[trigger] gs[k].len() > 0,
    ensures
        text_of(content_of(s)) == s,
        content_of(s).len() <= s.len(),
        forall|k: int| 0 <= k < content_of(s).len() ==> #[trigger] content_of(s)[k].grapheme.len() > 0,
{
    lemma_fragments_from_text(gs, 0);
    assert(gs.subrange(0, gs.len() as int) =~= gs);
    lemma_concat_len(gs);
}

} // verus!
