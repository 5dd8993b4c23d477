//! The editor shell: the quit flag and the view, with the one decision the
//! event loop needs — route a quit command to the flag and everything else
//! to the view.  Reading input events and drawing stay outside the library.

use vstd::prelude::*;
use crate::editorcommand::EditorCommand;
use crate::screen::Size;
use crate::view::{View, spec_handled};

verus! {

/// The whole editor state.
pub struct Editor {
    pub should_quit: bool,
    pub view: View,
}

impl Editor {
    /// A fresh editor over an empty document in a viewport of the given
    /// size.
    pub fn new(size: Size) -> (e: Editor)
        ensures
            !e.should_quit,
            e.view.wf(),
            e.view.buffer.spec_height() == 0,
            e.view.size == size,
            e.view.needs_redraw,
    {
        Editor { should_quit: false, view: View::new(size) }
    }

    /// Applies one command: quit raises the quit flag and leaves the view
    /// alone; every other command goes to the view.
    pub fn process_command(&mut self, command: EditorCommand)
        requires
            old(self).view.wf(),
        ensures
            final(self).view.wf(),
            command == EditorCommand::Quit ==> final(self).should_quit && final(self).view == old(
                self,
            ).view,
            command != EditorCommand::Quit ==> final(self).should_quit == old(self).should_quit
                && spec_handled(old(self).view, final(self).view, command),
    {
        match command {
            EditorCommand::Quit => {
                self.should_quit = true;
            },
            _ => {
                self.view.handle_command(command);
            },
        }
    }
}

} // verus!
