//! Properties that hold of every run of the reducer and of the view.

use vstd::prelude::*;
use iced::widget::text_editor::Action;
use iced::Theme;
use crate::layout::layout_of;
use crate::message::Message;
use crate::state::{theme_for, AppView};

verus! {

/// Every step from a valid event keeps both font sizes within range.
pub proof fn lemma_step_keeps_sizes(pre: AppView, m: Message, post: AppView)
    requires
        pre.wf(),
        m.is_valid_spec(),
        pre.steps_to(m, post),
    ensures
        post.wf(),
{
}

/// Along any run of valid events from a state whose font sizes are in range,
/// every state reached has both font sizes in range.
pub proof fn lemma_sizes_stay_in_range(states: Seq<AppView>, events: Seq<Message>)
    requires
        states.len() == events.len() + 1,
        states[0].wf(),
        forall|i: int| 0 <= i < events.len() ==> #[trigger] events[i].is_valid_spec(),
        forall|i: int| 0 <= i < events.len() ==> states[i].steps_to(#[trigger] events[i], states[i + 1]),
    ensures
        forall|i: int| 0 <= i < states.len() ==> #[trigger] states[i].wf(),
    decreases events.len(),
{
    if events.len() > 0 {
        let n = events.len() - 1;
        lemma_sizes_stay_in_range(states.take(n + 1), events.take(n));
        assert(states[n].wf()) by {
            assert(states.take(n + 1)[n] == states[n]);
        }
        lemma_step_keeps_sizes(states[n], events[n], states[n + 1]);
        assert forall|i: int| 0 <= i < states.len() implies #[trigger] states[i].wf() by {
            if i <= n {
                assert(states.take(n + 1)[i] == states[i]);
            }
        }
    }
}

/// Showing the Preeti pane and hiding it again leaves it hidden, as at
/// startup, and leaves both buffers and every other setting as they were; from
/// a state with the pane hidden the round trip changes nothing.
pub proof fn lemma_toggle_round_trip(s0: AppView, s1: AppView, s2: AppView)
    requires
        s0.steps_to(Message::TogglePreeti(true), s1),
        s1.steps_to(Message::TogglePreeti(false), s2),
    ensures
        !s2.show_preeti,
        s2.unicode == s0.unicode,
        s2.preeti == s0.preeti,
        s2 == (AppView { show_preeti: false, ..s0 }),
        !s0.show_preeti ==> s2 == s0,
{
}

/// An edit of the Unicode buffer leaves the Preeti buffer and every setting
/// as they were, and an edit of the Preeti buffer leaves the Unicode buffer
/// and every setting as they were.
pub proof fn lemma_buffers_independent(s0: AppView, action: Action, s1: AppView, s2: AppView)
    requires
        s0.steps_to(Message::Unicode(action), s1),
        s0.steps_to(Message::Preeti(action), s2),
    ensures
        s1.preeti == s0.preeti,
        s1 == (AppView { unicode: s1.unicode, ..s0 }),
        s2.unicode == s0.unicode,
        s2 == (AppView { preeti: s2.preeti, ..s0 }),
{
}

/// After `ThemeChange(true)` the theme is dark, after `ThemeChange(false)` it
/// is light.
pub proof fn lemma_theme_change(s0: AppView, v: bool, s1: AppView)
    requires
        s0.steps_to(Message::ThemeChange(v), s1),
    ensures
        theme_for(s1.dark_theme) == (if v { Theme::Dark } else { Theme::Light }),
{
}

/// Dark and light are the only themes that a state selects.
pub proof fn lemma_theme_dark_or_light(s: AppView)
    ensures
        theme_for(s.dark_theme) == Theme::Dark || theme_for(s.dark_theme) == Theme::Light,
{
}

/// The screen depends on the settings alone: two states with the same theme
/// flag, pane visibility and font sizes show identical trees, whatever their
/// buffers hold.
pub proof fn lemma_view_depends_on_settings(a: AppView, b: AppView)
    requires
        a.dark_theme == b.dark_theme,
        a.show_preeti == b.show_preeti,
        a.uni_size == b.uni_size,
        a.pre_size == b.pre_size,
    ensures
        layout_of(a) == layout_of(b),
{
}

/// The Preeti region is expanded exactly when the pane is shown; expanded, it
/// holds the Preeti pane at its font size and a button that hides it,
/// collapsed, only a button that shows it.
pub proof fn lemma_region_follows_visibility(s: AppView)
    ensures
        s.show_preeti <==> layout_of(s).bottom.right is Expanded,
        s.show_preeti ==> layout_of(s).bottom.right->Expanded_pane.font_size == s.pre_size
            && layout_of(s).bottom.right->Expanded_collapse == Message::TogglePreeti(false),
        !s.show_preeti ==> layout_of(s).bottom.right->Collapsed_expand == Message::TogglePreeti(true),
{
}

/// Every control of the screen is bound to its own event: the toggle emits
/// `ThemeChange`, the left pane edits and resizes the Unicode buffer, and the
/// Preeti pane, when shown, the Preeti buffer.
pub proof fn lemma_controls_emit_their_events(s: AppView, on: bool, a: Action, size: u16)
    ensures
        layout_of(s).top.toggle.emit_spec(on) == Message::ThemeChange(on),
        layout_of(s).bottom.left.pane.edit_message_spec(a) == Message::Unicode(a),
        layout_of(s).bottom.left.pane.size_message_spec(size) == Message::UniFontSize(size),
        s.show_preeti ==> layout_of(s).bottom.right->Expanded_pane.pane.edit_message_spec(a)
            == Message::Preeti(a),
        s.show_preeti ==> layout_of(s).bottom.right->Expanded_pane.pane.size_message_spec(size)
            == Message::PreFontSize(size),
{
}

} // verus!
