//! The abstract commands the editor core understands.  Decoding raw input
//! events into these commands happens outside the library.

use vstd::prelude::*;
use crate::screen::Size;

verus! {

/// A cursor motion.
#[derive(Clone, Copy, PartialEq, Eq, Structural, Debug)]
pub enum Direction {
    PageUp,
    PageDown,
    Home,
    End,
    Up,
    Down,
    Left,
    Right,
}

/// One editing or viewport command.
#[derive(Clone, Copy, PartialEq, Eq, Structural, Debug)]
pub enum EditorCommand {
    Move(Direction),
    Resize(Size),
    Quit,
    Insert(char),
    BackSpace,
    Delete,
    Enter,
}

} // verus!
