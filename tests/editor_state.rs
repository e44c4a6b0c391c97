use iced::widget::text_editor::{Action, Edit, Motion};
use iced::Theme;
use uni2preeti::layout::{
    ControlBar, EditorPane, PaneId, PaneRow, PreetiRegion, SizeControl, ThemeToggle, ViewTree,
};
use uni2preeti::message::{Message, MAX_FONT_SIZE, MIN_FONT_SIZE};
use uni2preeti::state::Uni2Preeti;

fn insert(c: char) -> Action {
    Action::Edit(Edit::Insert(c))
}

fn unicode_text(s: &Uni2Preeti) -> String {
    s.unicode().content.text()
}

fn preeti_text(s: &Uni2Preeti) -> String {
    s.preeti().content.text()
}

#[test]
fn defaults_are_dark_collapsed_twenty_and_twenty_five() {
    let s = Uni2Preeti::default();
    assert!(s.dark_theme());
    assert!(!s.show_preeti());
    assert_eq!(s.uni_size(), 20);
    assert_eq!(s.pre_size(), 25);
    assert_eq!(unicode_text(&s), "\n");
    assert_eq!(preeti_text(&s), "\n");
}

#[test]
fn scenario_expand_resize_and_type() {
    let mut s = Uni2Preeti::default();

    s.update(Message::TogglePreeti(true));
    assert!(s.show_preeti());
    match s.view().bottom.right {
        PreetiRegion::Expanded { pane, collapse } => {
            assert_eq!(pane.pane, PaneId::Preeti);
            assert_eq!(pane.size_control.value, 25);
            assert_eq!(collapse, Message::TogglePreeti(false));
        }
        PreetiRegion::Collapsed { .. } => panic!("the Preeti pane should be shown"),
    }
    assert_eq!(s.view().bottom.left.size_control.value, 20);

    s.update(Message::PreFontSize(40));
    assert_eq!(s.pre_size(), 40);
    assert_eq!(s.uni_size(), 20);

    s.update(Message::Unicode(insert('a')));
    assert_eq!(unicode_text(&s), "a\n");
    assert_eq!(preeti_text(&s), "\n");
}

#[test]
fn toggle_round_trip_restores_collapsed_and_keeps_buffers() {
    let mut s = Uni2Preeti::default();
    s.update(Message::Unicode(insert('x')));
    s.update(Message::Preeti(insert('y')));
    s.update(Message::TogglePreeti(true));
    s.update(Message::TogglePreeti(false));
    assert!(!s.show_preeti());
    assert_eq!(unicode_text(&s), "x\n");
    assert_eq!(preeti_text(&s), "y\n");
    assert_eq!(s.view(), Uni2Preeti::default().view());
}

#[test]
fn source_edit_leaves_mapped_buffer_unchanged() {
    let mut s = Uni2Preeti::default();
    s.update(Message::Preeti(insert('k')));
    let before = preeti_text(&s);
    s.update(Message::Unicode(insert('a')));
    s.update(Message::Unicode(insert('b')));
    s.update(Message::Unicode(Action::Move(Motion::Left)));
    s.update(Message::Unicode(Action::Edit(Edit::Backspace)));
    assert_eq!(preeti_text(&s), before);
    assert_eq!(unicode_text(&s), "b\n");
}

#[test]
fn mapped_edit_leaves_source_buffer_unchanged() {
    let mut s = Uni2Preeti::default();
    s.update(Message::Unicode(insert('u')));
    let before = unicode_text(&s);
    s.update(Message::Preeti(insert('p')));
    s.update(Message::Preeti(Action::Edit(Edit::Enter)));
    assert_eq!(unicode_text(&s), before);
    assert_eq!(preeti_text(&s), "p\n");
}

#[test]
fn edits_leave_settings_unchanged() {
    let mut s = Uni2Preeti::default();
    s.update(Message::Unicode(insert('a')));
    s.update(Message::Preeti(insert('b')));
    assert!(s.dark_theme());
    assert!(!s.show_preeti());
    assert_eq!(s.uni_size(), 20);
    assert_eq!(s.pre_size(), 25);
}

#[test]
fn theme_change_selects_dark_or_light() {
    let mut s = Uni2Preeti::default();
    assert_eq!(s.theme(), Theme::Dark);
    s.update(Message::ThemeChange(false));
    assert!(!s.dark_theme());
    assert_eq!(s.theme(), Theme::Light);
    s.update(Message::ThemeChange(true));
    assert_eq!(s.theme(), Theme::Dark);
}

#[test]
fn font_sizes_follow_their_events_only() {
    let mut s = Uni2Preeti::default();
    s.update(Message::UniFontSize(8));
    assert_eq!(s.uni_size(), 8);
    assert_eq!(s.pre_size(), 25);
    s.update(Message::PreFontSize(100));
    assert_eq!(s.pre_size(), 100);
    assert_eq!(s.uni_size(), 8);
}

#[test]
fn sizes_stay_in_range_along_a_run() {
    let mut s = Uni2Preeti::default();
    let events = vec![
        Message::UniFontSize(8),
        Message::PreFontSize(100),
        Message::TogglePreeti(true),
        Message::UniFontSize(100),
        Message::Unicode(insert('z')),
        Message::PreFontSize(8),
        Message::ThemeChange(false),
    ];
    for e in events {
        assert!(e.is_valid());
        s.update(e);
        assert!(s.uni_size() >= MIN_FONT_SIZE && s.uni_size() <= MAX_FONT_SIZE);
        assert!(s.pre_size() >= MIN_FONT_SIZE && s.pre_size() <= MAX_FONT_SIZE);
    }
}

#[test]
fn size_events_outside_the_range_are_invalid() {
    assert!(!Message::UniFontSize(7).is_valid());
    assert!(!Message::PreFontSize(101).is_valid());
    assert!(!Message::UniFontSize(0).is_valid());
    assert!(Message::UniFontSize(8).is_valid());
    assert!(Message::PreFontSize(100).is_valid());
    assert!(Message::ThemeChange(false).is_valid());
    assert!(Message::Preeti(insert('q')).is_valid());
}

#[test]
fn view_of_defaults_is_collapsed() {
    let s = Uni2Preeti::default();
    let expected = ViewTree {
        top: ControlBar { toggle: ThemeToggle { is_on: true } },
        bottom: PaneRow {
            left: EditorPane {
                pane: PaneId::Unicode,
                font_size: 20,
                preeti_font: false,
                size_control: SizeControl { min: 8, max: 100, value: 20 },
            },
            right: PreetiRegion::Collapsed { expand: Message::TogglePreeti(true) },
        },
    };
    assert_eq!(s.view(), expected);
}

#[test]
fn view_of_expanded_state() {
    let mut s = Uni2Preeti::default();
    s.update(Message::TogglePreeti(true));
    s.update(Message::PreFontSize(40));
    s.update(Message::ThemeChange(false));
    let expected = ViewTree {
        top: ControlBar { toggle: ThemeToggle { is_on: false } },
        bottom: PaneRow {
            left: EditorPane {
                pane: PaneId::Unicode,
                font_size: 20,
                preeti_font: false,
                size_control: SizeControl { min: 8, max: 100, value: 20 },
            },
            right: PreetiRegion::Expanded {
                pane: EditorPane {
                    pane: PaneId::Preeti,
                    font_size: 40,
                    preeti_font: true,
                    size_control: SizeControl { min: 8, max: 100, value: 40 },
                },
                collapse: Message::TogglePreeti(false),
            },
        },
    };
    assert_eq!(s.view(), expected);
}

#[test]
fn view_twice_gives_identical_trees() {
    let mut s = Uni2Preeti::default();
    s.update(Message::TogglePreeti(true));
    let first = s.view();
    let second = s.view();
    assert_eq!(first, second);
}

#[test]
fn view_ignores_buffer_contents() {
    let mut s = Uni2Preeti::default();
    let before = s.view();
    s.update(Message::Unicode(insert('a')));
    s.update(Message::Preeti(insert('b')));
    assert_eq!(s.view(), before);
}

#[test]
fn pane_ids_route_events() {
    assert_eq!(PaneId::Unicode.edit_message(insert('a')), Message::Unicode(insert('a')));
    assert_eq!(PaneId::Preeti.edit_message(insert('a')), Message::Preeti(insert('a')));
    assert_eq!(PaneId::Unicode.size_message(30), Message::UniFontSize(30));
    assert_eq!(PaneId::Preeti.size_message(30), Message::PreFontSize(30));
}

#[test]
fn cloned_message_is_equal() {
    let m = Message::Preeti(insert('c'));
    assert_eq!(m.clone(), m);
}

#[test]
fn theme_toggle_emits_theme_change() {
    let toggle = Uni2Preeti::default().view().top.toggle;
    assert!(toggle.is_on);
    assert_eq!(toggle.emit(false), Message::ThemeChange(false));
    assert_eq!(toggle.emit(true), Message::ThemeChange(true));
}

#[test]
fn typing_after_a_cursor_move_inserts_at_the_cursor() {
    let mut s = Uni2Preeti::default();
    s.update(Message::Unicode(insert('a')));
    s.update(Message::Unicode(insert('c')));
    s.update(Message::Unicode(Action::Move(Motion::Left)));
    s.update(Message::Unicode(insert('b')));
    assert_eq!(unicode_text(&s), "abc\n");
}

#[test]
fn typing_a_multibyte_character() {
    let mut s = Uni2Preeti::default();
    s.update(Message::Preeti(insert('\u{915}')));
    s.update(Message::Preeti(insert('x')));
    assert_eq!(preeti_text(&s), "\u{915}x\n");
    assert_eq!(unicode_text(&s), "\n");
}

#[test]
fn non_edit_actions_keep_the_text() {
    let mut s = Uni2Preeti::default();
    s.update(Message::Unicode(insert('q')));
    s.update(Message::Unicode(Action::SelectAll));
    s.update(Message::Unicode(Action::Move(Motion::Home)));
    s.update(Message::Unicode(Action::Scroll { lines: 3 }));
    assert_eq!(unicode_text(&s), "q\n");
}
