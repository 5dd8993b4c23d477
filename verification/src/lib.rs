//! A small line-oriented text editor core.
//!
//! The library models one line of text as a sequence of Unicode grapheme
//! clusters with display-width classes, a document as a sequence of such
//! lines, and a view that maps logical text positions to screen coordinates
//! under scrolling.  All terminal I/O stays outside the library: the view
//! hands back plain strings and coordinates for a display sink to draw.

pub mod unicode;
pub mod line;
pub mod screen;
pub mod buffer;
pub mod editorcommand;
pub mod view;
pub mod statusbar;
pub mod editor;
