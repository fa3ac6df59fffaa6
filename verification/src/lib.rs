//! A small terminal text editor: the text model (graphemes, lines, buffer),
//! the caret and viewport logic of the view, and the mapping from key
//! presses to editor commands.

pub mod buffer;
pub mod common;
pub mod editor;
pub mod editorcommand;
pub mod laws;
pub mod view;
