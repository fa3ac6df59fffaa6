use crate::common::constants::TAB_WIDTH_SPACES;
use vstd::prelude::*;

verus! {

/// How many columns a grapheme occupies on screen.
#[derive(Clone, Copy, Debug, PartialEq, Eq, Structural)]
pub enum GraphemeWidth {
    Half,
    Full,
    Tab,
}

impl GraphemeWidth {
    /// The number of columns.
    pub open spec fn columns(self) -> nat {
        match self {
            GraphemeWidth::Half => 1,
            GraphemeWidth::Full => 2,
            GraphemeWidth::Tab => TAB_WIDTH_SPACES as nat,
        }
    }
}

/// One grapheme of a line, with its rendered width and, where the grapheme
/// is not drawn as itself, the text drawn in its place.
pub struct TextFragment {
    pub grapheme: String,
    pub rendered_width: GraphemeWidth,
    pub replacement: Option<String>,
}

/// The mathematical value of a [`TextFragment`].
pub struct FragmentModel {
    pub grapheme: Seq<char>,
    pub rendered_width: GraphemeWidth,
    pub replacement: Option<Seq<char>>,
}

impl View for TextFragment {
    type V = FragmentModel;

    open spec fn view(&self) -> FragmentModel {
        FragmentModel {
            grapheme: self.grapheme@,
            rendered_width: self.rendered_width,
            replacement: match self.replacement {
                Some(r) => Some(r@),
                None => None,
            },
        }
    }
}

impl FragmentModel {
    /// What is drawn for the fragment: its replacement if it has one, else the grapheme.
    pub open spec fn display_text(self) -> Seq<char> {
        match self.replacement {
            Some(r) => r,
            None => self.grapheme,
        }
    }
}

impl TextFragment {
    pub fn from(grapheme: &str, rendered_width: GraphemeWidth, replacement: Option<String>) -> (fragment: Self)
        ensures
            fragment@.grapheme == grapheme@,
            fragment@.rendered_width == rendered_width,
            fragment.replacement == replacement,
    {
        Self { grapheme: String::from_str(grapheme), rendered_width: rendered_width, replacement: replacement }
    }

    /// The text drawn for this fragment.
    pub fn get_display_text(&self) -> (text: &str)
        ensures
            text@ == self@.display_text(),
    {
        match &self.replacement {
            Some(r) => r.as_str(),
            None => self.grapheme.as_str(),
        }
    }
}

} // verus!
