//! The Unicode services the text model relies on: grapheme segmentation
//! (`unicode_segmentation`), display widths (`unicode_width`), and the
//! character classes the text model tests for.
use unicode_segmentation::UnicodeSegmentation;
use unicode_width::UnicodeWidthStr;
use vstd::prelude::*;

verus! {

/// The concatenation of a sequence of strings.
pub open spec fn concat(parts: Seq<Seq<char>>) -> Seq<char>
    decreases parts.len(),
{
    if parts.len() == 0 {
        Seq::empty()
    } else {
        concat(parts.drop_last()) + parts.last()
    }
}

/// The extended grapheme clusters of `text`, in order, as
/// `unicode_segmentation` computes them.
pub uninterp spec fn spec_extended_graphemes(text: Seq<char>) -> Seq<Seq<char>>;

/// The displayed width in columns of `text`, as `unicode_width` computes it.
pub uninterp spec fn spec_display_width(text: Seq<char>) -> usize;

/// Whether `c` has the Unicode White_Space property, as `char::is_whitespace`
/// tests: U+0009 to U+000D, U+0020, U+0085, U+00A0, U+1680, U+2000 to U+200A,
/// U+2028, U+2029, U+202F, U+205F and U+3000.
pub open spec fn is_white_space_char(c: char) -> bool {
    let code = c as u32;
    ||| 0x09 <= code <= 0x0d
    ||| code == 0x20
    ||| code == 0x85
    ||| code == 0xa0
    ||| code == 0x1680
    ||| 0x2000 <= code <= 0x200a
    ||| code == 0x2028
    ||| code == 0x2029
    ||| code == 0x202f
    ||| code == 0x205f
    ||| code == 0x3000
}

/// Whether `c` has the Unicode general category for control codes, Cc:
/// U+0000 to U+001F and U+007F to U+009F.
pub open spec fn is_control_char(c: char) -> bool {
    (c as u32) <= 0x1f || (0x7f <= (c as u32) && (c as u32) <= 0x9f)
}

/// Whether every character of `text` is white space.
pub open spec fn all_white_space(text: Seq<char>) -> bool {
    forall|i: int| 0 <= i < text.len() ==> #[trigger] is_white_space_char(text[i])
}

/// Splits `text` into its extended grapheme clusters with
/// `UnicodeSegmentation::graphemes(text, true)`.
///
/// Trusted: the result is the named segmentation of `text`; the crate's
/// iterator hands out consecutive, non-empty slices `text[start..next]`
/// from the first byte to the last, so the clusters are non-empty and
/// their concatenation is `text`.
#[verifier::external_body]
pub(crate) fn extended_graphemes(text: &str) -> (clusters: Vec<String>)
    ensures
        clusters@.map_values(|g: String| g@) == spec_extended_graphemes(text@),
        concat(clusters@.map_values(|g: String| g@)) == text@,
        forall|i: int| 0 <= i < clusters@.len() ==> #[trigger] clusters@[i]@.len() > 0,
{
    text.graphemes(true).map(|g| g.to_string()).collect()
}

/// The displayed width of `text`, computed by `UnicodeWidthStr::width`.
///
/// Trusted: the result is the named width of `text`; nothing more is claimed.
#[verifier::external_body]
pub(crate) fn display_width(text: &str) -> (width: usize)
    ensures
        width == spec_display_width(text@),
{
    UnicodeWidthStr::width(text)
}

/// Whether `c` is a control character (general category Cc), as `char::is_control` tests.
pub fn is_control(c: char) -> (result: bool)
    ensures
        result == is_control_char(c),
{
    let code = c as u32;
    code <= 0x1f || (0x7f <= code && code <= 0x9f)
}

/// Whether `c` is white space (the White_Space property), as `char::is_whitespace` tests.
pub fn is_white_space(c: char) -> (result: bool)
    ensures
        result == is_white_space_char(c),
{
    let code = c as u32;
    (0x09 <= code && code <= 0x0d) || code == 0x20 || code == 0x85 || code == 0xa0 || code == 0x1680
        || (0x2000 <= code && code <= 0x200a) || code == 0x2028 || code == 0x2029 || code == 0x202f
        || code == 0x205f || code == 0x3000
}

/// Whether `text` is made of white space only: what `text.trim().is_empty()` tests,
/// since `str::trim` removes exactly the White_Space characters at both ends.
pub(crate) fn is_blank(text: &str) -> (blank: bool)
    ensures
        blank == all_white_space(text@),
{
    let ghost all: Seq<char> = text@;
    for c in it: text.chars()
        invariant
            all == text@,
            it.seq() == all,
            forall|i: int| 0 <= i < it.index() ==> #[trigger] is_white_space_char(all[i]),
    {
        assert(c == all[it.index() as int]);
        if !is_white_space(c) {
            return false;
        }
    }
    true
}

/// Appends `c` to `s` with `String::push`.
///
/// Trusted: the documented effect of `String::push`, one character appended.
#[verifier::external_body]
pub(crate) fn push_char(s: &mut String, c: char)
    ensures
        final(s)@ == old(s)@.push(c),
{
    s.push(c)
}

} // verus!
