//! The declarative widget tree that the editor shows, derived from its state.

use vstd::prelude::*;
use iced::widget::text_editor::Action;
use crate::message::{Message, MAX_FONT_SIZE, MIN_FONT_SIZE};
use crate::state::{AppView, Uni2Preeti};

verus! {

/// Which of the two panes a widget belongs to.
#[derive(Debug, Clone, Copy, PartialEq, Eq)]
pub enum PaneId {
    Unicode,
    Preeti,
}

impl PaneId {
    /// The event that an edit in this pane's editor emits.
    pub open spec fn edit_message_spec(self, action: Action) -> Message {
        match self {
            PaneId::Unicode => Message::Unicode(action),
            PaneId::Preeti => Message::Preeti(action),
        }
    }

    /// The event that this pane's size control emits for a size.
    pub open spec fn size_message_spec(self, size: u16) -> Message {
        match self {
            PaneId::Unicode => Message::UniFontSize(size),
            PaneId::Preeti => Message::PreFontSize(size),
        }
    }

    /// The event that an edit in this pane's editor emits.
    pub fn edit_message(self, action: Action) -> (r: Message)
        ensures
            r == self.edit_message_spec(action),
    {
        match self {
            PaneId::Unicode => Message::Unicode(action),
            PaneId::Preeti => Message::Preeti(action),
        }
    }

    /// The event that this pane's size control emits for a size.
    pub fn size_message(self, size: u16) -> (r: Message)
        ensures
            r == self.size_message_spec(size),
    {
        match self {
            PaneId::Unicode => Message::UniFontSize(size),
            PaneId::Preeti => Message::PreFontSize(size),
        }
    }
}

/// A slider over a closed range of font sizes, at a current value.
#[derive(Debug, Clone, Copy, PartialEq, Eq)]
pub struct SizeControl {
    pub min: u16,
    pub max: u16,
    pub value: u16,
}

/// A text-editing surface with its size control beneath it.
#[derive(Debug, Clone, Copy, PartialEq, Eq)]
pub struct EditorPane {
    /// The pane whose buffer the editor shows and edits.
    pub pane: PaneId,
    /// Font size of the editor's text.
    pub font_size: u16,
    /// The text is drawn in the Preeti font face.
    pub preeti_font: bool,
    /// The slider that sets `font_size`.
    pub size_control: SizeControl,
}

/// The region right of the Unicode pane.
#[derive(Debug, Clone, PartialEq)]
pub enum PreetiRegion {
    /// Only a button that shows the Preeti pane.
    Collapsed { expand: Message },
    /// The Preeti pane and a button that hides it.
    Expanded { pane: EditorPane, collapse: Message },
}

/// Gap between the widgets of the control bar, and its padding.
pub const BAR_SPACING: u16 = 10;

/// Gap between an editor and its size control.
pub const PANE_SPACING: u16 = 5;

/// Gap between the bar and the panes, and between the two panes.
pub const ROOT_SPACING: u16 = 20;

/// Padding around the whole screen.
pub const ROOT_PADDING: u16 = 25;

/// Width of the button that shows or hides the Preeti pane.
pub const SIDE_BUTTON_WIDTH: u16 = 25;

/// The switch between the dark and the light theme.
#[derive(Debug, Clone, Copy, PartialEq, Eq)]
pub struct ThemeToggle {
    /// The toggle is on: the dark theme is selected.
    pub is_on: bool,
}

impl ThemeToggle {
    /// The event that turning the toggle to `on` emits.
    pub open spec fn emit_spec(self, on: bool) -> Message {
        Message::ThemeChange(on)
    }

    /// The event that turning the toggle to `on` emits.
    pub fn emit(self, on: bool) -> (r: Message)
        ensures
            r == self.emit_spec(on),
    {
        Message::ThemeChange(on)
    }
}

/// The bar at the top: a row of an empty space that takes the free width,
/// then the theme toggle, which so stands at the right end.
#[derive(Debug, Clone, Copy, PartialEq, Eq)]
pub struct ControlBar {
    pub toggle: ThemeToggle,
}

/// A row of two panes: `left` beside `right`.
#[derive(Debug, Clone, PartialEq)]
pub struct PaneRow {
    /// The Unicode pane.
    pub left: EditorPane,
    /// The Preeti region.
    pub right: PreetiRegion,
}

/// The whole screen: a column of the control bar (`top`) stacked above the
/// row of panes (`bottom`).
#[derive(Debug, Clone, PartialEq)]
pub struct ViewTree {
    pub top: ControlBar,
    pub bottom: PaneRow,
}

/// The editor pane of `pane` at font size `size`.
pub open spec fn editor_pane_spec(pane: PaneId, size: u16) -> EditorPane {
    EditorPane {
        pane,
        font_size: size,
        preeti_font: pane == PaneId::Preeti,
        size_control: SizeControl { min: MIN_FONT_SIZE, max: MAX_FONT_SIZE, value: size },
    }
}

/// The screen that a state shows.
pub open spec fn layout_of(s: AppView) -> ViewTree {
    ViewTree {
        top: ControlBar { toggle: ThemeToggle { is_on: s.dark_theme } },
        bottom: PaneRow {
            left: editor_pane_spec(PaneId::Unicode, s.uni_size),
            right: if s.show_preeti {
                PreetiRegion::Expanded {
                    pane: editor_pane_spec(PaneId::Preeti, s.pre_size),
                    collapse: Message::TogglePreeti(false),
                }
            } else {
                PreetiRegion::Collapsed { expand: Message::TogglePreeti(true) }
            },
        },
    }
}

fn editor_pane(pane: PaneId, size: u16) -> (r: EditorPane)
    ensures
        r == editor_pane_spec(pane, size),
{
    EditorPane {
        pane,
        font_size: size,
        preeti_font: match pane {
            PaneId::Unicode => false,
            PaneId::Preeti => true,
        },
        size_control: SizeControl { min: MIN_FONT_SIZE, max: MAX_FONT_SIZE, value: size },
    }
}

impl Uni2Preeti {
    /// The screen for the current state; the state is not changed.
    pub fn view(&self) -> (r: ViewTree)
        ensures
            r == layout_of(self.model()),
    {
        let preeti = if self.show_preeti() {
            PreetiRegion::Expanded {
                pane: editor_pane(PaneId::Preeti, self.pre_size()),
                collapse: Message::TogglePreeti(false),
            }
        } else {
            PreetiRegion::Collapsed { expand: Message::TogglePreeti(true) }
        };
        ViewTree {
            top: ControlBar { toggle: ThemeToggle { is_on: self.dark_theme() } },
            bottom: PaneRow { left: editor_pane(PaneId::Unicode, self.uni_size()), right: preeti },
        }
    }
}

} // verus!
