//! The editor's single state, its reducer and its theme.

use vstd::prelude::*;
use iced::Theme;
use crate::buffer::{cursor_of, has_selection, lines_of, performs, EditorBuffer};
use crate::message::{size_in_range, Message};

verus! {

/// Font size of the Unicode pane at startup.
pub const INITIAL_UNI_SIZE: u16 = 20;

/// Font size of the Preeti pane at startup.
pub const INITIAL_PRE_SIZE: u16 = 25;

/// What the proofs see of the editor's state.
pub struct AppView {
    /// The dark theme is selected.
    pub dark_theme: bool,
    /// The Preeti pane is shown.
    pub show_preeti: bool,
    /// Font size of the Unicode pane.
    pub uni_size: u16,
    /// Font size of the Preeti pane.
    pub pre_size: u16,
    /// The Unicode pane's buffer, as a whole value.
    pub unicode: EditorBuffer,
    /// The Preeti pane's buffer, as a whole value.
    pub preeti: EditorBuffer,
}

/// The theme that the flag selects.
pub open spec fn theme_for(dark_theme: bool) -> Theme {
    if dark_theme {
        Theme::Dark
    } else {
        Theme::Light
    }
}

impl AppView {
    /// Both font sizes lie within the size controls' range.
    pub open spec fn wf(self) -> bool {
        size_in_range(self.uni_size) && size_in_range(self.pre_size)
    }

    /// The settings of a freshly started editor, whose buffers are empty:
    /// one empty line each, the cursor at its start, nothing selected.
    pub open spec fn is_initial(self) -> bool {
        &&& lines_of(self.unicode) == seq![Seq::<u8>::empty()]
        &&& lines_of(self.preeti) == seq![Seq::<u8>::empty()]
        &&& cursor_of(self.unicode) == (0nat, 0nat)
        &&& cursor_of(self.preeti) == (0nat, 0nat)
        &&& !has_selection(self.unicode)
        &&& !has_selection(self.preeti)
        &&& self.dark_theme
        &&& !self.show_preeti
        &&& self.uni_size == INITIAL_UNI_SIZE
        &&& self.pre_size == INITIAL_PRE_SIZE
    }

    /// `post` is a state that `m` can lead to from `self`: the field that
    /// `m` names takes its payload, or, for an edit, the buffer that it names
    /// becomes what the editor makes of it under the action; every other
    /// field is kept.
    pub open spec fn steps_to(self, m: Message, post: AppView) -> bool {
        match m {
            Message::ThemeChange(v) => post == (AppView { dark_theme: v, ..self }),
            Message::TogglePreeti(v) => post == (AppView { show_preeti: v, ..self }),
            Message::UniFontSize(s) => post == (AppView { uni_size: s, ..self }),
            Message::PreFontSize(s) => post == (AppView { pre_size: s, ..self }),
            Message::Unicode(a) => post == (AppView { unicode: post.unicode, ..self })
                && performs(self.unicode, a, post.unicode),
            Message::Preeti(a) => post == (AppView { preeti: post.preeti, ..self })
                && performs(self.preeti, a, post.preeti),
        }
    }
}

/// The editor's state: theme, visibility of the Preeti pane, the two font
/// sizes and the two buffers.
pub struct Uni2Preeti {
    dark_theme: bool,
    show_preeti: bool,
    uni_size: u16,
    pre_size: u16,
    unicode: EditorBuffer,
    preeti: EditorBuffer,
}

impl Uni2Preeti {
    /// What the proofs see of this state.
    pub closed spec fn model(&self) -> AppView {
        AppView {
            dark_theme: self.dark_theme,
            show_preeti: self.show_preeti,
            uni_size: self.uni_size,
            pre_size: self.pre_size,
            unicode: self.unicode,
            preeti: self.preeti,
        }
    }
}

impl Default for Uni2Preeti {
    /// Dark theme, Preeti pane hidden, sizes 20 and 25, both buffers empty.
    fn default() -> (r: Self)
        ensures
            r.model().is_initial(),
            r.model().wf(),
    {
        Uni2Preeti {
            dark_theme: true,
            show_preeti: false,
            uni_size: INITIAL_UNI_SIZE,
            pre_size: INITIAL_PRE_SIZE,
            unicode: EditorBuffer::new(),
            preeti: EditorBuffer::new(),
        }
    }
}

impl Uni2Preeti {
    /// Applies one event: the field that it names changes, nothing else.
    pub fn update(&mut self, message: Message)
        requires
            old(self).model().wf(),
            message.is_valid_spec(),
        ensures
            old(self).model().steps_to(message, final(self).model()),
            final(self).model().wf(),
    {
        match message {
            Message::ThemeChange(theme) => {
                self.dark_theme = theme;
            },
            Message::TogglePreeti(v) => self.show_preeti = v,
            Message::UniFontSize(s) => self.uni_size = s,
            Message::PreFontSize(s) => self.pre_size = s,
            Message::Unicode(action) => {
                self.unicode.perform(action);
            },
            Message::Preeti(action) => {
                self.preeti.perform(action);
            },
        }
    }

    /// The dark theme is selected.
    pub fn dark_theme(&self) -> (r: bool)
        ensures
            r == self.model().dark_theme,
    {
        self.dark_theme
    }

    /// The Preeti pane is shown.
    pub fn show_preeti(&self) -> (r: bool)
        ensures
            r == self.model().show_preeti,
    {
        self.show_preeti
    }

    /// Font size of the Unicode pane.
    pub fn uni_size(&self) -> (r: u16)
        ensures
            r == self.model().uni_size,
    {
        self.uni_size
    }

    /// Font size of the Preeti pane.
    pub fn pre_size(&self) -> (r: u16)
        ensures
            r == self.model().pre_size,
    {
        self.pre_size
    }

    /// The Unicode pane's buffer.
    pub fn unicode(&self) -> (r: &EditorBuffer)
        ensures
            *r == self.model().unicode,
    {
        &self.unicode
    }

    /// The Preeti pane's buffer.
    pub fn preeti(&self) -> (r: &EditorBuffer)
        ensures
            *r == self.model().preeti,
    {
        &self.preeti
    }

    /// The theme that the state selects: dark or light.
    pub fn theme(&self) -> (r: Theme)
        ensures
            r == theme_for(self.model().dark_theme),
    {
        if self.dark_theme {
            Theme::Dark
        } else {
            Theme::Light
        }
    }
}

} // verus!
