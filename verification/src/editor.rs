use crate::common::constants::TAB_WIDTH_SPACES;
use crate::common::types::{Position, Size};
use crate::editorcommand::{event_command, EditorCommand, Event};
use crate::view::{Frame, View};
use vstd::prelude::*;
use vstd::view::View as _;

verus! {

/// The editor: a view onto the text, and whether the user asked to quit.
/// It turns terminal events into commands for the view; reading the events
/// and drawing what the view renders is left to the terminal front end.
pub struct Editor {
    should_quit: bool,
    view: View,
}

/// What the terminal shows after a refresh: what was redrawn, if anything,
/// and where the caret goes.
pub struct ScreenUpdate {
    pub frame: Option<Frame>,
    pub caret: Position,
}

impl Editor {
    /// The editor's view.
    pub closed spec fn view_state(self) -> View {
        self.view
    }

    /// Whether the user asked to quit.
    pub closed spec fn quitting(self) -> bool {
        self.should_quit
    }

    /// The caret stands on a line or just below the last one, and not
    /// further into its line than the line has characters.
    pub open spec fn wf(self) -> bool {
        self.view_state().caret_fits()
    }

    /// An editor showing `view`.
    pub fn with_view(view: View) -> (editor: Self)
        requires
            view.caret_fits(),
        ensures
            editor.view_state() == view,
            !editor.quitting(),
            editor.wf(),
    {
        Self { should_quit: false, view }
    }

    pub fn should_quit(&self) -> (quit: bool)
        ensures
            quit == self.quitting(),
    {
        self.should_quit
    }

    pub fn view(&self) -> (view: &View)
        ensures
            *view == self.view_state(),
    {
        &self.view
    }

    /// Carries out what `event` asks for: quitting, or a command for the
    /// view. Events that ask for nothing are ignored, and so is a character
    /// that would make its line longer than a line can be.
    pub fn evaluate_event(&mut self, event: Event)
        requires
            old(self).wf(),
        ensures
            final(self).wf(),
            match event_command(event) {
                Ok(EditorCommand::Quit) => final(self).quitting() && final(self).view_state() == old(
                    self,
                ).view_state(),
                Ok(command) => final(self).quitting() == old(self).quitting() && if old(
                    self,
                ).view_state().accepts(command) {
                    old(self).view_state().command_post(final(self).view_state(), command)
                } else {
                    final(self).view_state() == old(self).view_state()
                },
                Err(_) => final(self).view_state() == old(self).view_state() && final(self).quitting()
                    == old(self).quitting(),
            },
    {
        match EditorCommand::try_from(event) {
            Ok(EditorCommand::Quit) => {
                self.should_quit = true;
            },
            Ok(command) => {
                if self.has_room_for(command) {
                    self.view.handle_command(command);
                }
            },
            Err(_) => (),
        }
    }

    /// Whether the view can carry out `command`.
    fn has_room_for(&self, command: EditorCommand) -> (room: bool)
        requires
            self.wf(),
        ensures
            room == self.view_state().accepts(command),
    {
        match command {
            EditorCommand::Insert(_) => {
                let y = self.view.location.y;
                if y < self.view.buffer.lines.len() {
                    self.view.buffer.lines[y].text_len() < usize::MAX / TAB_WIDTH_SPACES
                } else {
                    true
                }
            },
            _ => true,
        }
    }

    /// Resizes the view to the terminal's new size.
    pub fn process_resize_event(&mut self, width: usize, height: usize)
        requires
            old(self).wf(),
        ensures
            final(self).wf(),
            final(self).view_state() == (View {
                size: Size { width, height },
                modified: true,
                ..old(self).view_state()
            }),
            final(self).quitting() == old(self).quitting(),
    {
        self.view.resize(Size { width, height });
    }

    /// Renders the view and reports where the caret is drawn.
    pub fn refresh_screen(&mut self) -> (update: ScreenUpdate)
        requires
            old(self).wf(),
        ensures
            final(self).wf(),
            final(self).quitting() == old(self).quitting(),
            final(self).view_state().location == old(self).view_state().location,
            final(self).view_state().buffer.lines@ == old(self).view_state().buffer.lines@,
            final(self).view_state().scroll_offset == old(self).view_state().scroll_offset,
            final(self).view_state().size == old(self).view_state().size,
            old(self).view_state().renders(update.frame),
            !final(self).view_state().modified,
            update.caret == final(self).view_state().caret_position(),
    {
        let frame = self.view.render();
        let caret = self.view.get_caret_position();
        ScreenUpdate { frame, caret }
    }
}

} // verus!
