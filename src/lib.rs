//! State model, reducer and view composition of a two-pane editor: one pane
//! for Unicode text, one shown in the Preeti glyph-mapped font.

pub mod buffer;
pub mod message;
pub mod state;
pub mod layout;
pub mod laws;
