//! The closed set of events through which the editor's state changes.

use vstd::prelude::*;
use iced::widget::text_editor::Action;

verus! {

/// Smallest font size that a pane's size control offers.
pub const MIN_FONT_SIZE: u16 = 8;

/// Largest font size that a pane's size control offers.
pub const MAX_FONT_SIZE: u16 = 100;

/// A font size that the size controls can produce.
pub open spec fn size_in_range(s: u16) -> bool {
    MIN_FONT_SIZE <= s && s <= MAX_FONT_SIZE
}

/// One state change of the editor.
#[derive(Debug, Clone, PartialEq)]
pub enum Message {
    /// Switch to the dark theme (`true`) or the light one (`false`).
    ThemeChange(bool),
    /// Show (`true`) or hide (`false`) the Preeti pane.
    TogglePreeti(bool),
    /// New font size of the Unicode pane.
    UniFontSize(u16),
    /// New font size of the Preeti pane.
    PreFontSize(u16),
    /// An edit of the Unicode pane's buffer.
    Unicode(Action),
    /// An edit of the Preeti pane's buffer.
    Preeti(Action),
}

impl Message {
    /// The payload is one that the producing control can emit: a font size
    /// lies within the size controls' range.
    pub open spec fn is_valid_spec(&self) -> bool {
        match self {
            Message::UniFontSize(s) => size_in_range(*s),
            Message::PreFontSize(s) => size_in_range(*s),
            _ => true,
        }
    }

    /// Whether the payload is one that the producing control can emit.
    pub fn is_valid(&self) -> (r: bool)
        ensures
            r == self.is_valid_spec(),
    {
        match self {
            Message::UniFontSize(s) => MIN_FONT_SIZE <= *s && *s <= MAX_FONT_SIZE,
            Message::PreFontSize(s) => MIN_FONT_SIZE <= *s && *s <= MAX_FONT_SIZE,
            _ => true,
        }
    }
}

} // verus!
