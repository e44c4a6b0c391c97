//! The outside values that the state carries: iced's editor content, the edit
//! actions that it applies, and iced's theme.

use vstd::prelude::*;
use iced::widget::text_editor::{Action, Content, Edit, Motion};

verus! {

/// One operation of iced's text editor (move, select, edit, click, ...);
/// its variants are visible to the proofs.
#[verifier::external_type_specification]
pub struct ExAction(Action);

/// A change of the text that iced's editor applies at the cursor.
#[verifier::external_type_specification]
pub struct ExEdit(Edit);

/// A cursor movement of iced's text editor.
#[verifier::external_type_specification]
pub struct ExMotion(Motion);

/// A position on screen, where a click or a drag lands; carried through,
/// never read.
#[verifier::external_type_specification]
#[verifier::external_body]
#[verifier::reject_recursive_types(T)]
pub struct ExPoint<T>(iced::Point<T>);

/// Relies on the `Clone` that iced derives for `Action`: a field-by-field
/// copy.
pub assume_specification[ <Action as Clone>::clone ](a: &Action) -> (r: Action)
    ensures
        r == *a,
;

/// A user-defined palette of iced's theme; carried through, never read.
#[verifier::external_type_specification]
#[verifier::external_body]
pub struct ExCustom(iced::theme::Custom);

/// iced's theme; its variants are visible to the proofs.
#[verifier::external_type_specification]
pub struct ExTheme(iced::Theme);

/// The lines that a buffer holds, each as the UTF-8 bytes of its text
/// without the line ending (what iced's `Content::line` hands out).
pub uninterp spec fn lines_of(b: EditorBuffer) -> Seq<Seq<u8>>;

/// The buffer's cursor: the index of its line and its byte offset within
/// that line (what iced's `Content::cursor_position` hands out).
pub uninterp spec fn cursor_of(b: EditorBuffer) -> (nat, nat);

/// Some text of the buffer is selected.
pub uninterp spec fn has_selection(b: EditorBuffer) -> bool;

/// A control character: Unicode's general category Cc, as `char::is_control`
/// decides it.
pub open spec fn is_control(c: char) -> bool {
    let v = c as u32;
    v <= 0x1f || (0x7f <= v && v <= 0x9f)
}

/// The UTF-8 encoding of a character.
pub open spec fn utf8_of(c: char) -> Seq<u8> {
    let v = c as u32;
    if v < 0x80 {
        seq![v as u8]
    } else if v < 0x800 {
        seq![(0xc0 + v / 64) as u8, (0x80 + v % 64) as u8]
    } else if v < 0x10000 {
        seq![(0xe0 + v / 4096) as u8, (0x80 + (v / 64) % 64) as u8, (0x80 + v % 64) as u8]
    } else {
        seq![
            (0xf0 + v / 262144) as u8,
            (0x80 + (v / 4096) % 64) as u8,
            (0x80 + (v / 64) % 64) as u8,
            (0x80 + v % 64) as u8,
        ]
    }
}

/// `lines` with `bytes` put into line `at.0` before byte offset `at.1`.
pub open spec fn insert_in_line(lines: Seq<Seq<u8>>, at: (nat, nat), bytes: Seq<u8>) -> Seq<Seq<u8>> {
    let line = lines[at.0 as int];
    lines.update(at.0 as int, line.subrange(0, at.1 as int) + bytes + line.subrange(at.1 as int, line.len() as int))
}

/// The character that an action types, if it is the insertion of one.
pub open spec fn typed_char(a: Action) -> Option<char> {
    match a {
        Action::Edit(Edit::Insert(c)) => Some(c),
        _ => None,
    }
}

/// The action is an edit: it types, pastes, breaks a line or deletes.
pub open spec fn is_edit(a: Action) -> bool {
    a is Edit
}

/// The cursor of `b` lies within its lines.
pub open spec fn cursor_in_text(b: EditorBuffer) -> bool {
    cursor_of(b).0 < lines_of(b).len() && cursor_of(b).1 <= lines_of(b)[cursor_of(b).0 as int].len()
}

/// `post` is what `pre` can become under `a`: an action that is no edit
/// keeps the text; typing a character that is no control character, with
/// nothing selected and the cursor within the text, puts its UTF-8 bytes at
/// the cursor and moves the cursor past them, with nothing selected.
pub open spec fn performs(pre: EditorBuffer, a: Action, post: EditorBuffer) -> bool {
    &&& !is_edit(a) ==> lines_of(post) == lines_of(pre)
    &&& (typed_char(a) is Some && !is_control(typed_char(a)->0) && !has_selection(pre)
        && cursor_in_text(pre)) ==> {
        let c = typed_char(a)->0;
        &&& lines_of(post) == insert_in_line(lines_of(pre), cursor_of(pre), utf8_of(c))
        &&& cursor_of(post) == (cursor_of(pre).0, cursor_of(pre).1 + utf8_of(c).len())
        &&& !has_selection(post)
    }
}

/// The text of one pane and its cursor, held in iced's editor content.
///
/// The proofs see a buffer through its lines, its cursor and whether text is
/// selected; what the editor does beyond what `perform` states is left open.
#[verifier::external_body]
pub struct EditorBuffer {
    /// The editor content, read by the host to draw the pane.
    pub content: Content,
}

impl EditorBuffer {
    /// Relies on iced's `Content::new`: a fresh content holds one empty
    /// line, with the cursor at its start and nothing selected.
    #[verifier::external_body]
    pub fn new() -> (r: EditorBuffer)
        ensures
            lines_of(r) == seq![Seq::<u8>::empty()],
            cursor_of(r) == (0nat, 0nat),
            !has_selection(r),
    {
        EditorBuffer { content: Content::new() }
    }

    /// Relies on iced's `Content::perform`, which hands the action to the
    /// cosmic-text editor: an action that is no edit changes no line; typing
    /// a character that is no control character, with nothing selected,
    /// puts its UTF-8 bytes at the cursor and moves the cursor past them.
    #[verifier::external_body]
    pub fn perform(&mut self, action: Action)
        ensures
            !(action is Edit) ==> lines_of(*final(self)) == lines_of(*old(self)),
            (typed_char(action) is Some && !is_control(typed_char(action)->0)
                && !has_selection(*old(self)) && cursor_in_text(*old(self))) ==> (
                lines_of(*final(self)) == insert_in_line(
                    lines_of(*old(self)),
                    cursor_of(*old(self)),
                    utf8_of(typed_char(action)->0),
                )
                && cursor_of(*final(self)) == (
                    cursor_of(*old(self)).0,
                    cursor_of(*old(self)).1 + utf8_of(typed_char(action)->0).len(),
                )
                && !has_selection(*final(self))
            ),
    {
        self.content.perform(action)
    }
}

} // verus!
