# sted — the Simple Terminal EDitor

A small terminal text editor whose text model and editing logic are
verified with Verus. The trusted code is the few `external_body`
functions of `src/common/unicode.rs` and `src/editorcommand.rs`, each of
which makes one call into `unicode-segmentation`, `unicode-width` or `std`.

- `src/common/` — the text model: `unicode.rs` (grapheme segmentation and
  display widths, trusted, and the character classes, verified),
  `textmodel.rs` (the mathematical model of a line: fragments, widths,
  what is drawn for a range of columns, and lemmas), `textfragment.rs`,
  `line.rs` (a line of display fragments), `types.rs` (sizes, positions,
  locations, a plain byte-addressed line), `constants.rs`.
- `src/buffer.rs` — the lines of a file, with loading, insertion, line
  splitting, deletion and line merging.
- `src/view.rs` — the caret, scrolling, editing commands and rendering.
- `src/editorcommand.rs` — key presses and terminal events, the commands
  they map to, and the messages for those that map to none (the `{:?}`
  text of characters and strings is trusted to `std`).
- `src/editor.rs` — the editor state that turns events into commands.
- `src/laws.rs` — properties that span several operations.
- `app/` — the terminal front end (crossterm): raw mode, reading keys and
  files, drawing frames.
