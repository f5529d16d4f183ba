//! A chat message: a text box with vim-style key handling.
//!
//! Each key handler is specified by its plan: the commands it sends to the
//! text box and the event it returns. What each command does to the text box
//! is `op_effect`, taken from the contracts of the wrappers in `editor`, so a
//! handler's contract says what its key does to the text, the cursor, the
//! selection, the yank buffer and the cursor style, as far as those contracts
//! fix it.
use crate::editor::{
    self, EditorView, Motion, TextBox, copy_effect, cut_effect, edit_effect, editor_view,
    erase_at_effect, erase_back_effect, input_effect, is_fresh, motion_effect, paste_effect,
    redo_effect, selection_deleted, split_line, textarea_block, textarea_cursor,
    textarea_cursor_line_highlighted,
    textarea_lines, textarea_word_wrap, typed_char, undo_effect,
};
use crate::keys::{AppEvent, Key, KeyInput};
use crate::mode::{CursorStyle, Mode};
use vstd::prelude::*;
use vstd::string::StrSliceExecFns;
use vstd::utf8::encode_utf8;

verus! {

/// Where a message stands on screen: the input being typed, or an output, and
/// whether it holds the focus.
#[derive(Clone, Copy, Debug, PartialEq, Eq, Structural)]
pub enum State {
    FocusedInput,
    UnfocusedInput,
    FocusedOutput,
    UnfocusedOutput,
}

/// The background a message is drawn on.
#[derive(Clone, Copy, Debug, PartialEq, Eq, Structural)]
pub enum Backdrop {
    /// The terminal's own background.
    Plain,
    Black,
    DarkGray,
}

/// The caret drawn before a message: `>` for the input, `●` for an output
/// still focused, and `✓` for a settled output.
pub open spec fn state_caret(s: State) -> Seq<char> {
    match s {
        State::FocusedOutput => "●"@,
        State::UnfocusedOutput => "✓"@,
        State::FocusedInput => ">"@,
        State::UnfocusedInput => ">"@,
    }
}

/// The background of a message: black for the focused input, dark gray for an
/// unfocused input, none for outputs.
pub open spec fn state_backdrop(s: State) -> Backdrop {
    match s {
        State::FocusedOutput | State::UnfocusedOutput => Backdrop::Plain,
        State::FocusedInput => Backdrop::Black,
        State::UnfocusedInput => Backdrop::DarkGray,
    }
}

impl State {
    /// The caret drawn before a message in this state.
    pub fn caret(&self) -> (c: &'static str)
        ensures
            c@ == state_caret(*self),
    {
        match self {
            State::FocusedOutput => "●",
            State::UnfocusedOutput => "✓",
            State::FocusedInput => ">",
            State::UnfocusedInput => ">",
        }
    }

    /// The background of a message in this state.
    pub fn backdrop(&self) -> (b: Backdrop)
        ensures
            b == state_backdrop(*self),
    {
        match self {
            State::FocusedOutput | State::UnfocusedOutput => Backdrop::Plain,
            State::FocusedInput => Backdrop::Black,
            State::UnfocusedInput => Backdrop::DarkGray,
        }
    }
}

/// The padding, in cells on each side, of the caret and the text box of a
/// message.
pub const MESSAGE_PADDING: u16 = 1;

/// Whether a message may be written.
#[derive(Clone, Copy, Debug, PartialEq, Eq, Structural)]
pub enum Access {
    ReadOnly,
    Writeable,
}

/// A command that a message sends to its text box.
#[derive(Clone, Copy, Debug, PartialEq, Eq, Structural)]
pub enum TextOp {
    Move(Motion),
    InsertNewline,
    InsertChar(char),
    DeleteChar,
    DeleteNextChar,
    Undo,
    Redo,
    Paste,
    Copy,
    Cut,
    StartSelection,
    CancelSelection,
    SetCursorStyle(CursorStyle),
    Input(KeyInput),
}

/// What a key does: the commands sent to the text box, in order, and the event
/// handed back to the application.
pub type Plan = (Seq<TextOp>, AppEvent);

/// The state that `focus` leads to.
pub open spec fn focused(s: State) -> State {
    match s {
        State::UnfocusedInput => State::FocusedInput,
        State::UnfocusedOutput => State::FocusedOutput,
        _ => s,
    }
}

/// The state that `unfocus` leads to.
pub open spec fn unfocused(s: State) -> State {
    match s {
        State::FocusedInput => State::UnfocusedInput,
        State::FocusedOutput => State::UnfocusedOutput,
        _ => s,
    }
}

/// The length in bytes of a line in UTF-8.
pub open spec fn byte_len(line: Seq<char>) -> usize {
    encode_utf8(line).len() as usize
}

/// The cursor stands before the last byte of its line: its column is less than
/// the line's length in bytes, less one (and not below zero).
pub open spec fn before_line_end(lines: Seq<Seq<char>>, cursor: (usize, usize)) -> bool {
    let len = byte_len(lines[cursor.0 as int]);
    cursor.1 < (if len == 0 { 0 } else { len - 1 })
}

/// A character stands under the cursor: its column is less than the number
/// of characters of its line.
pub open spec fn on_char(lines: Seq<Seq<char>>, cursor: (usize, usize)) -> bool {
    cursor.1 < lines[cursor.0 as int].len()
}

/// The column of the cursor equals the length in bytes of its line.
pub open spec fn at_byte_end(lines: Seq<Seq<char>>, cursor: (usize, usize)) -> bool {
    byte_len(lines[cursor.0 as int]) == cursor.1
}

/// The motion that a key selects while moving around, if any.
pub open spec fn traversal_motion(key: Key) -> Option<Motion> {
    match key {
        Key::Char(c) => if c == 'h' {
            Some(Motion::Back)
        } else if c == 'j' {
            Some(Motion::Down)
        } else if c == 'k' {
            Some(Motion::Up)
        } else if c == 'l' {
            Some(Motion::Forward)
        } else if c == 'w' || c == 'W' {
            Some(Motion::WordForward)
        } else if c == 'e' || c == 'E' {
            Some(Motion::WordEnd)
        } else if c == 'b' || c == 'B' {
            Some(Motion::WordBack)
        } else if c == '^' || c == '_' {
            Some(Motion::Head)
        } else if c == '$' {
            Some(Motion::End)
        } else if c == '{' {
            Some(Motion::ParagraphBack)
        } else if c == '}' {
            Some(Motion::ParagraphForward)
        } else {
            None
        },
        _ => None,
    }
}

/// The commands a key sends while moving around: one motion, or none.
pub open spec fn traversal_ops(key: Key) -> Seq<TextOp> {
    match traversal_motion(key) {
        Some(m) => seq![TextOp::Move(m)],
        None => seq![],
    }
}

/// An operator applied to the selection: `y` copies it, `c` and `d` cut it.
pub open spec fn operation_plan(op: char) -> Plan {
    if op == 'y' {
        (seq![TextOp::Copy], AppEvent::NormalMode)
    } else if op == 'c' {
        (seq![TextOp::Cut], AppEvent::InsertMode)
    } else if op == 'd' {
        (seq![TextOp::Cut], AppEvent::NormalMode)
    } else {
        (seq![], AppEvent::NoOp)
    }
}

/// A key in normal mode. `before_end` tells whether the cursor stands before
/// the end of its line.
pub open spec fn normal_plan(input: KeyInput, before_end: bool) -> Plan {
    match input.key {
        Key::Char(c) => if c == 'q' {
            (seq![], AppEvent::Quit)
        } else if c == 'i' {
            (seq![], AppEvent::InsertMode)
        } else if c == 'I' {
            (seq![TextOp::Move(Motion::Head)], AppEvent::InsertMode)
        } else if c == 'a' {
            (
                if before_end {
                    seq![TextOp::Move(Motion::Forward)]
                } else {
                    seq![]
                },
                AppEvent::InsertMode,
            )
        } else if c == 'A' {
            (seq![TextOp::Move(Motion::End)], AppEvent::InsertMode)
        } else if c == 'o' {
            (seq![TextOp::Move(Motion::End), TextOp::InsertNewline], AppEvent::InsertMode)
        } else if c == 'O' {
            (
                seq![TextOp::Move(Motion::Head), TextOp::InsertNewline, TextOp::Move(Motion::Up)],
                AppEvent::InsertMode,
            )
        } else if c == 'x' {
            (seq![TextOp::DeleteNextChar], AppEvent::NoOp)
        } else if c == 'X' {
            (seq![TextOp::DeleteChar], AppEvent::NoOp)
        } else if c == 'v' {
            (seq![], AppEvent::VisualMode)
        } else if c == 'r' {
            if input.ctrl {
                (seq![TextOp::Redo], AppEvent::NoOp)
            } else {
                (seq![], AppEvent::ReplaceMode(false))
            }
        } else if c == 'R' {
            (seq![], AppEvent::ReplaceMode(true))
        } else if c == 'y' || c == 'c' || c == 'd' {
            (seq![], AppEvent::OperationMode(c))
        } else if c == 'u' || c == 'U' {
            (seq![TextOp::Undo], AppEvent::NoOp)
        } else if c == 'p' {
            (seq![TextOp::Paste], AppEvent::NoOp)
        } else {
            (traversal_ops(input.key), AppEvent::NoOp)
        },
        Key::Enter => (seq![], AppEvent::Submit),
        _ => (seq![], AppEvent::NoOp),
    }
}

/// The event of a key in normal mode. The cursor plays no part in it: it
/// only decides what `a` sends to the text box.
pub open spec fn normal_event(input: KeyInput) -> AppEvent {
    normal_plan(input, false).1
}

/// A key in insert mode: handed to the text box as typed text.
pub open spec fn insert_plan(input: KeyInput) -> Plan {
    (seq![TextOp::Input(input)], AppEvent::NoOp)
}

/// A key in visual mode.
pub open spec fn visual_plan(input: KeyInput) -> Plan {
    match input.key {
        Key::Char(c) => if c == 'v' {
            (seq![TextOp::CancelSelection], AppEvent::NormalMode)
        } else if c == 'u' || c == 'U' {
            (seq![], AppEvent::NormalMode)
        } else if c == 'y' || c == 'c' || c == 'd' {
            operation_plan(c)
        } else if c == 'p' {
            (seq![TextOp::Paste], AppEvent::NormalMode)
        } else {
            (traversal_ops(input.key), AppEvent::NoOp)
        },
        _ => (seq![], AppEvent::NoOp),
    }
}

/// A key in replace mode. A character replaces the one under the cursor when
/// `can_replace`; unless `keep` holds, it also ends the mode.
pub open spec fn replace_plan(input: KeyInput, keep: bool, can_replace: bool) -> Plan {
    match input.key {
        Key::Char(c) => (
            if can_replace {
                seq![TextOp::DeleteNextChar, TextOp::InsertChar(c)]
            } else {
                seq![]
            },
            if keep {
                AppEvent::NoOp
            } else {
                AppEvent::NormalMode
            },
        ),
        _ => (seq![], AppEvent::NoOp),
    }
}

/// A key while the operator `op` waits for its motion. A repeated operator key
/// selects the whole line; any other key starts a selection and moves.
pub open spec fn pending_plan(input: KeyInput, op: char) -> Plan {
    let select = match input.key {
        Key::Char(c) => if c == 'y' || c == 'c' || c == 'd' {
            seq![TextOp::Move(Motion::Head), TextOp::StartSelection, TextOp::Move(Motion::End)]
        } else {
            seq![TextOp::StartSelection] + traversal_ops(input.key)
        },
        _ => seq![TextOp::StartSelection] + traversal_ops(input.key),
    };
    (select + operation_plan(op).0, operation_plan(op).1)
}

/// A key in any mode. `before_end` and `can_replace` describe the cursor when
/// the key arrives (see `Message::cursor_before_line_end` and
/// `Message::cursor_can_replace`).
pub open spec fn key_plan(mode: Mode, input: KeyInput, before_end: bool, can_replace: bool) -> Plan {
    match mode {
        Mode::Normal => normal_plan(input, before_end),
        Mode::Insert => insert_plan(input),
        Mode::Visual => visual_plan(input),
        Mode::Replace(keep) => replace_plan(input, keep, can_replace),
        Mode::Operator(op) => pending_plan(input, op),
    }
}

/// What one command does to the text box, as the wrappers in `editor` state it.
pub open spec fn op_effect(before: EditorView, op: TextOp, after: EditorView) -> bool {
    match op {
        TextOp::Move(m) => motion_effect(before, m, after),
        TextOp::InsertNewline => edit_effect(before, after, split_line(selection_deleted(before))),
        TextOp::InsertChar(c) => edit_effect(before, after, typed_char(selection_deleted(before), c)),
        TextOp::DeleteChar => erase_back_effect(before, after),
        TextOp::DeleteNextChar => erase_at_effect(before, after),
        TextOp::Undo => undo_effect(before, after),
        TextOp::Redo => redo_effect(before, after),
        TextOp::Paste => paste_effect(before, after),
        TextOp::Copy => copy_effect(before, after),
        TextOp::Cut => cut_effect(before, after),
        TextOp::StartSelection => after == (EditorView { selection: Some(before.cursor), ..before }),
        TextOp::CancelSelection => after == (EditorView { selection: None, ..before }),
        TextOp::SetCursorStyle(s) => after == (EditorView { cursor_style: Some(s), ..before }),
        TextOp::Input(input) => input_effect(before, input, after),
    }
}

/// Sending the commands `ops` in order can take the text box from `before` to
/// `after`.
pub open spec fn plan_effect(before: EditorView, ops: Seq<TextOp>, after: EditorView) -> bool
    decreases ops.len(),
{
    if ops.len() == 0 {
        after == before
    } else {
        exists|mid: EditorView|
            #[trigger] op_effect(before, ops[0], mid) && plan_effect(mid, ops.drop_first(), after)
    }
}

/// One more command extends a plan.
pub proof fn lemma_plan_push(a: EditorView, ops: Seq<TextOp>, b: EditorView, op: TextOp, c: EditorView)
    requires
        plan_effect(a, ops, b),
        op_effect(b, op, c),
    ensures
        plan_effect(a, ops.push(op), c),
    decreases ops.len(),
{
    let next = ops.push(op);
    if ops.len() == 0 {
        assert(next.drop_first() =~= Seq::<TextOp>::empty());
        assert(op_effect(a, next[0], c) && plan_effect(c, next.drop_first(), c));
    } else {
        let mid = choose|mid: EditorView|
            #[trigger] op_effect(a, ops[0], mid) && plan_effect(mid, ops.drop_first(), b);
        lemma_plan_push(mid, ops.drop_first(), b, op, c);
        assert(next.drop_first() =~= ops.drop_first().push(op));
        assert(op_effect(a, next[0], mid) && plan_effect(mid, next.drop_first(), c));
    }
}

/// The empty plan leaves the text box as it is.
pub proof fn lemma_plan_empty(a: EditorView)
    ensures
        plan_effect(a, Seq::<TextOp>::empty(), a),
        forall|b: EditorView| plan_effect(a, Seq::<TextOp>::empty(), b) ==> b == a,
{
    assert(Seq::<TextOp>::empty().len() == 0);
}

/// A plan of one command is that command.
pub proof fn lemma_plan_one(a: EditorView, op: TextOp, b: EditorView)
    ensures
        plan_effect(a, seq![op], b) <==> op_effect(a, op, b),
{
    assert(seq![op].drop_first() =~= Seq::<TextOp>::empty());
    if op_effect(a, op, b) {
        assert(op_effect(a, seq![op][0], b) && plan_effect(b, seq![op].drop_first(), b));
    }
    if plan_effect(a, seq![op], b) {
        let mid = choose|mid: EditorView|
            #[trigger] op_effect(a, seq![op][0], mid) && plan_effect(mid, seq![op].drop_first(), b);
        assert(mid == b);
    }
}

/// The commands that leave the text as it was.
pub open spec fn keeps_text(op: TextOp) -> bool {
    match op {
        TextOp::Move(_) | TextOp::Copy | TextOp::StartSelection | TextOp::CancelSelection
        | TextOp::SetCursorStyle(_) => true,
        _ => false,
    }
}

/// The commands that leave both the text and the cursor as they were.
pub open spec fn keeps_text_and_cursor(op: TextOp) -> bool {
    match op {
        TextOp::Copy | TextOp::StartSelection | TextOp::CancelSelection | TextOp::SetCursorStyle(_) => true,
        _ => false,
    }
}

/// What a plan leaves alone: the text, when every command keeps it; the
/// cursor too, when no command moves it or edits; and the cursor style and the
/// mask, when no command sets the style.
pub proof fn lemma_plan_frame(a: EditorView, ops: Seq<TextOp>, b: EditorView)
    requires
        plan_effect(a, ops, b),
    ensures
        (forall|i: int| 0 <= i < ops.len() ==> keeps_text(#[trigger] ops[i])) ==> b.lines == a.lines,
        (forall|i: int| 0 <= i < ops.len() ==> keeps_text_and_cursor(#[trigger] ops[i]))
            ==> b.lines == a.lines && b.cursor == a.cursor,
        (forall|i: int| 0 <= i < ops.len() ==> !(#[trigger] ops[i] is SetCursorStyle))
            ==> b.cursor_style == a.cursor_style,
        b.masked == a.masked,
    decreases ops.len(),
{
    if ops.len() > 0 {
        let mid = choose|mid: EditorView|
            #[trigger] op_effect(a, ops[0], mid) && plan_effect(mid, ops.drop_first(), b);
        lemma_plan_frame(mid, ops.drop_first(), b);
        let rest = ops.drop_first();
        assert(forall|i: int| 0 <= i < rest.len() ==> rest[i] == ops[i + 1]);
    }
}

/// After a plan that sets the cursor style first and never again, the cursor
/// is drawn in that style.
pub proof fn lemma_plan_style_set_first(a: EditorView, s: CursorStyle, rest: Seq<TextOp>, b: EditorView)
    requires
        plan_effect(a, seq![TextOp::SetCursorStyle(s)] + rest, b),
        forall|i: int| 0 <= i < rest.len() ==> !(#[trigger] rest[i] is SetCursorStyle),
    ensures
        b.cursor_style == Some(s),
{
    let ops = seq![TextOp::SetCursorStyle(s)] + rest;
    assert(ops[0] == TextOp::SetCursorStyle(s));
    assert(ops.drop_first() =~= rest);
    let mid = choose|mid: EditorView|
        #[trigger] op_effect(a, ops[0], mid) && plan_effect(mid, ops.drop_first(), b);
    lemma_plan_frame(mid, rest, b);
}

/// `after` follows `before` by sending `ops` to the text box; where the
/// message stands and whether it may be written stay as they were.
pub open spec fn carried_out(before: Message, after: Message, ops: Seq<TextOp>) -> bool {
    &&& plan_effect(before.editor(), ops, after.editor())
    &&& after.state == before.state
    &&& after.access == before.access
}

/// A message: its text box, where it stands, and whether it may be written.
pub struct Message {
    pub textarea: TextBox,
    pub state: State,
    pub access: Access,
}

impl Default for Message {
    fn default() -> (m: Self)
        ensures
            is_fresh(m.editor()),
            textarea_word_wrap(m.textarea),
            !textarea_cursor_line_highlighted(m.textarea),
            m.state == State::FocusedInput,
            !m.writeable(),
    {
        Self::new()
    }
}

impl Message {
    /// What the library reads of the message's text box.
    pub open spec fn editor(&self) -> EditorView {
        editor_view(self.textarea)
    }

    /// Whether the message may be written.
    pub open spec fn writeable(&self) -> bool {
        self.access == Access::Writeable
    }

    /// The lines of the message's text.
    pub open spec fn text(&self) -> Seq<Seq<char>> {
        textarea_lines(self.textarea)
    }

    /// Whether the cursor stands before the end of its line.
    pub open spec fn cursor_before_line_end(&self) -> bool {
        before_line_end(textarea_lines(self.textarea), textarea_cursor(self.textarea))
    }

    /// Whether the replace keys replace at the cursor: it stands before the
    /// end of its line (see `cursor_before_line_end`), or a character stands
    /// under it, or its column equals its line's length in bytes.
    pub open spec fn cursor_can_replace(&self) -> bool {
        ||| self.cursor_before_line_end()
        ||| on_char(textarea_lines(self.textarea), textarea_cursor(self.textarea))
        ||| at_byte_end(textarea_lines(self.textarea), textarea_cursor(self.textarea))
    }

    /// A fresh input message: one empty line, the cursor at its start, focused,
    /// read-only, with word wrap and no highlight of the cursor line.
    pub fn new() -> (m: Self)
        ensures
            is_fresh(m.editor()),
            textarea_word_wrap(m.textarea),
            !textarea_cursor_line_highlighted(m.textarea),
            m.state == State::FocusedInput,
            !m.writeable(),
    {
        let mut textarea = editor::new_textarea();
        editor::set_word_wrap(&mut textarea);
        editor::clear_cursor_line_style(&mut textarea);
        Message { textarea, access: Access::ReadOnly, state: State::FocusedInput }
    }

    /// Sends one command to the text box. `done` are the commands sent since
    /// the text box was at `start`.
    fn perform(&mut self, op: TextOp, Ghost(start): Ghost<EditorView>, Ghost(done): Ghost<Seq<TextOp>>)
        requires
            plan_effect(start, done, old(self).editor()),
        ensures
            op_effect(old(self).editor(), op, final(self).editor()),
            plan_effect(start, done.push(op), final(self).editor()),
            final(self).state == old(self).state,
            final(self).access == old(self).access,
    {
        let ghost before = self.editor();
        match op {
            TextOp::Move(m) => editor::move_cursor(&mut self.textarea, m),
            TextOp::InsertNewline => editor::insert_newline(&mut self.textarea),
            TextOp::InsertChar(c) => editor::insert_char(&mut self.textarea, c),
            TextOp::DeleteChar => {
                editor::delete_char(&mut self.textarea);
            },
            TextOp::DeleteNextChar => {
                editor::delete_next_char(&mut self.textarea);
            },
            TextOp::Undo => {
                editor::undo(&mut self.textarea);
            },
            TextOp::Redo => {
                editor::redo(&mut self.textarea);
            },
            TextOp::Paste => {
                editor::paste(&mut self.textarea);
            },
            TextOp::Copy => editor::copy(&mut self.textarea),
            TextOp::Cut => {
                editor::cut(&mut self.textarea);
            },
            TextOp::StartSelection => editor::start_selection(&mut self.textarea),
            TextOp::CancelSelection => editor::cancel_selection(&mut self.textarea),
            TextOp::SetCursorStyle(s) => editor::set_cursor_style(&mut self.textarea, s),
            TextOp::Input(input) => {
                editor::input_without_shortcuts(&mut self.textarea, input);
            },
        }
        proof {
            lemma_plan_push(start, done, before, op, self.editor());
        }
    }

    /// The number of lines of text; there is always at least one.
    pub fn num_lines(&self) -> (n: usize)
        ensures
            n == self.text().len(),
            n >= 1,
    {
        editor::lines(&self.textarea).len()
    }

    /// Draws the cursor in the given style. Nothing else changes.
    pub fn set_cursor_style(&mut self, style: CursorStyle)
        ensures
            final(self).editor() == (EditorView { cursor_style: Some(style), ..old(self).editor() }),
            final(self).state == old(self).state,
            final(self).access == old(self).access,
            textarea_word_wrap(final(self).textarea) == textarea_word_wrap(old(self).textarea),
            textarea_cursor_line_highlighted(final(self).textarea) == textarea_cursor_line_highlighted(
                old(self).textarea,
            ),
    {
        editor::set_cursor_style(&mut self.textarea, style);
    }

    /// Draws the cursor in the terminal's own style. Nothing else changes.
    pub fn clear_cursor_style(&mut self)
        ensures
            final(self).editor() == (EditorView {
                cursor_style: Some(CursorStyle::Plain),
                ..old(self).editor()
            }),
            final(self).state == old(self).state,
            final(self).access == old(self).access,
            textarea_word_wrap(final(self).textarea) == textarea_word_wrap(old(self).textarea),
            textarea_cursor_line_highlighted(final(self).textarea) == textarea_cursor_line_highlighted(
                old(self).textarea,
            ),
    {
        editor::set_cursor_style(&mut self.textarea, CursorStyle::Plain);
    }

    /// Frames the text box as it is drawn: on the backdrop of the message's
    /// state (the one its caret is drawn on), padded by `MESSAGE_PADDING`
    /// cells. Nothing else that the library reads of it changes.
    pub fn frame(&mut self)
        ensures
            textarea_block(final(self).textarea) == Some((state_backdrop(old(self).state), MESSAGE_PADDING)),
            final(self).editor() == old(self).editor(),
            final(self).state == old(self).state,
            final(self).access == old(self).access,
            textarea_word_wrap(final(self).textarea) == textarea_word_wrap(old(self).textarea),
            textarea_cursor_line_highlighted(final(self).textarea) == textarea_cursor_line_highlighted(
                old(self).textarea,
            ),
    {
        let backdrop = self.state.backdrop();
        editor::set_backdrop(&mut self.textarea, backdrop, MESSAGE_PADDING);
    }

    /// Starts a selection at the cursor. Nothing else changes.
    pub fn start_selection(&mut self)
        ensures
            final(self).editor() == (EditorView {
                selection: Some(old(self).editor().cursor),
                ..old(self).editor()
            }),
            final(self).state == old(self).state,
            final(self).access == old(self).access,
    {
        let ghost start = self.editor();
        self.perform(TextOp::StartSelection, Ghost(start), Ghost(Seq::empty()));
    }

    /// Ends the selection, if any. Nothing else changes.
    pub fn cancel_selection(&mut self)
        ensures
            final(self).editor() == (EditorView { selection: None, ..old(self).editor() }),
            final(self).state == old(self).state,
            final(self).access == old(self).access,
    {
        let ghost start = self.editor();
        self.perform(TextOp::CancelSelection, Ghost(start), Ghost(Seq::empty()));
    }

    /// Makes the message read-only.
    pub fn revoke_write_access(&mut self)
        ensures
            !final(self).writeable(),
            final(self).state == old(self).state,
            final(self).textarea == old(self).textarea,
    {
        self.access = Access::ReadOnly;
    }

    /// Makes the message writeable.
    pub fn grant_write_access(&mut self)
        ensures
            final(self).writeable(),
            final(self).state == old(self).state,
            final(self).textarea == old(self).textarea,
    {
        self.access = Access::Writeable;
    }

    /// Gives the message the focus; a focused message stays as it is.
    pub fn focus(&mut self)
        ensures
            final(self).state == focused(old(self).state),
            final(self).access == old(self).access,
            final(self).textarea == old(self).textarea,
    {
        match self.state {
            State::UnfocusedInput => self.state = State::FocusedInput,
            State::UnfocusedOutput => self.state = State::FocusedOutput,
            _ => {},
        }
    }

    /// Takes the focus away; an unfocused message stays as it is.
    pub fn unfocus(&mut self)
        ensures
            final(self).state == unfocused(old(self).state),
            final(self).access == old(self).access,
            final(self).textarea == old(self).textarea,
    {
        match self.state {
            State::FocusedInput => self.state = State::UnfocusedInput,
            State::FocusedOutput => self.state = State::UnfocusedOutput,
            _ => {},
        }
    }

    /// Whether the cursor stands before the last byte of its line.
    fn is_before_line_end(textarea: &TextBox) -> (r: bool)
        ensures
            r == before_line_end(textarea_lines(*textarea), textarea_cursor(*textarea)),
    {
        let cursor = editor::cursor(textarea);
        let lines = editor::lines(textarea);
        cursor.1 < lines[cursor.0].as_str().len().saturating_sub(1)
    }

    /// Whether a character stands under the cursor.
    fn is_on_char(textarea: &TextBox) -> (r: bool)
        ensures
            r == on_char(textarea_lines(*textarea), textarea_cursor(*textarea)),
    {
        let cursor = editor::cursor(textarea);
        let lines = editor::lines(textarea);
        cursor.1 < lines[cursor.0].as_str().unicode_len()
    }

    /// Whether the cursor column equals the length in bytes of its line.
    fn is_at_byte_end(textarea: &TextBox) -> (r: bool)
        ensures
            r == at_byte_end(textarea_lines(*textarea), textarea_cursor(*textarea)),
    {
        let cursor = editor::cursor(textarea);
        let lines = editor::lines(textarea);
        lines[cursor.0].as_str().len() == cursor.1
    }

    /// Sends the motion of a traversal key, if any.
    fn handle_traversal(&mut self, input: KeyInput, Ghost(start): Ghost<EditorView>, Ghost(done): Ghost<Seq<TextOp>>)
        requires
            plan_effect(start, done, old(self).editor()),
        ensures
            plan_effect(start, done + traversal_ops(input.key), final(self).editor()),
            traversal_motion(input.key) matches Some(m) ==> op_effect(
                old(self).editor(),
                TextOp::Move(m),
                final(self).editor(),
            ),
            traversal_motion(input.key) is None ==> *final(self) == *old(self),
            final(self).state == old(self).state,
            final(self).access == old(self).access,
    {
        let m = match input.key {
            Key::Char('h') => Some(Motion::Back),
            Key::Char('j') => Some(Motion::Down),
            Key::Char('k') => Some(Motion::Up),
            Key::Char('l') => Some(Motion::Forward),
            Key::Char('w') | Key::Char('W') => Some(Motion::WordForward),
            Key::Char('e') | Key::Char('E') => Some(Motion::WordEnd),
            Key::Char('b') | Key::Char('B') => Some(Motion::WordBack),
            Key::Char('^') | Key::Char('_') => Some(Motion::Head),
            Key::Char('$') => Some(Motion::End),
            Key::Char('{') => Some(Motion::ParagraphBack),
            Key::Char('}') => Some(Motion::ParagraphForward),
            _ => None,
        };
        assert(m == traversal_motion(input.key));
        match m {
            Some(m) => {
                self.perform(TextOp::Move(m), Ghost(start), Ghost(done));
                assert(done.push(TextOp::Move(m)) =~= done + traversal_ops(input.key));
            },
            None => {
                assert(done =~= done + traversal_ops(input.key));
            },
        }
    }

    /// Handles a key in normal mode: sends the commands of `normal_plan` and
    /// returns its event, which depends on the key alone.
    pub fn handle_normal_mode(&mut self, input: KeyInput) -> (ev: AppEvent)
        ensures
            carried_out(*old(self), *final(self), normal_plan(input, old(self).cursor_before_line_end()).0),
            ev == normal_plan(input, old(self).cursor_before_line_end()).1,
            ev == normal_event(input),
    {
        let ghost start = self.editor();
        proof {
            lemma_plan_empty(start);
        }
        let ghost none = Seq::<TextOp>::empty();
        let ghost before_end = self.cursor_before_line_end();
        let ev = match input.key {
            Key::Char('q') => AppEvent::Quit,
            Key::Char('i') => AppEvent::InsertMode,
            Key::Char('I') => {
                self.perform(TextOp::Move(Motion::Head), Ghost(start), Ghost(none));
                AppEvent::InsertMode
            },
            Key::Char('a') => {
                if Self::is_before_line_end(&self.textarea) {
                    self.perform(TextOp::Move(Motion::Forward), Ghost(start), Ghost(none));
                }
                AppEvent::InsertMode
            },
            Key::Char('A') => {
                self.perform(TextOp::Move(Motion::End), Ghost(start), Ghost(none));
                AppEvent::InsertMode
            },
            Key::Char('o') => {
                self.perform(TextOp::Move(Motion::End), Ghost(start), Ghost(none));
                self.perform(TextOp::InsertNewline, Ghost(start), Ghost(Seq::empty().push(TextOp::Move(Motion::End))));
                assert(normal_plan(input, before_end).0 =~= Seq::empty().push(TextOp::Move(Motion::End)).push(
                    TextOp::InsertNewline,
                ));
                AppEvent::InsertMode
            },
            Key::Char('O') => {
                self.perform(TextOp::Move(Motion::Head), Ghost(start), Ghost(none));
                self.perform(TextOp::InsertNewline, Ghost(start), Ghost(Seq::empty().push(TextOp::Move(Motion::Head))));
                self.perform(
                    TextOp::Move(Motion::Up),
                    Ghost(start),
                    Ghost(Seq::empty().push(TextOp::Move(Motion::Head)).push(TextOp::InsertNewline)),
                );
                assert(normal_plan(input, before_end).0 =~= Seq::empty().push(TextOp::Move(Motion::Head)).push(
                    TextOp::InsertNewline,
                ).push(TextOp::Move(Motion::Up)));
                AppEvent::InsertMode
            },
            Key::Char('x') => {
                self.perform(TextOp::DeleteNextChar, Ghost(start), Ghost(none));
                AppEvent::NoOp
            },
            Key::Char('X') => {
                self.perform(TextOp::DeleteChar, Ghost(start), Ghost(none));
                AppEvent::NoOp
            },
            Key::Char('v') => AppEvent::VisualMode,
            Key::Char('r') if !input.ctrl => AppEvent::ReplaceMode(false),
            Key::Char('R') => AppEvent::ReplaceMode(true),
            Key::Char(op) if op == 'y' || op == 'c' || op == 'd' => AppEvent::OperationMode(op),
            Key::Char('u') | Key::Char('U') => {
                self.perform(TextOp::Undo, Ghost(start), Ghost(none));
                AppEvent::NoOp
            },
            Key::Char('r') => {
                self.perform(TextOp::Redo, Ghost(start), Ghost(none));
                AppEvent::NoOp
            },
            Key::Char('p') => {
                self.perform(TextOp::Paste, Ghost(start), Ghost(none));
                AppEvent::NoOp
            },
            Key::Enter => AppEvent::Submit,
            _ => {
                self.handle_traversal(input, Ghost(start), Ghost(none));
                assert(none + traversal_ops(input.key) =~= traversal_ops(input.key));
                AppEvent::NoOp
            },
        };
        ev
    }

    /// Handles a key in insert mode: it goes to the text box as typed text.
    pub fn handle_insert_mode(&mut self, input: KeyInput) -> (ev: AppEvent)
        ensures
            carried_out(*old(self), *final(self), insert_plan(input).0),
            ev == insert_plan(input).1,
    {
        let ghost start = self.editor();
        self.perform(TextOp::Input(input), Ghost(start), Ghost(Seq::empty()));
        AppEvent::NoOp
    }

    /// Handles a key in visual mode: sends the commands of `visual_plan`.
    pub fn handle_visual_mode(&mut self, input: KeyInput) -> (ev: AppEvent)
        ensures
            carried_out(*old(self), *final(self), visual_plan(input).0),
            ev == visual_plan(input).1,
    {
        let ghost start = self.editor();
        proof {
            lemma_plan_empty(start);
        }
        let ghost none = Seq::<TextOp>::empty();
        match input.key {
            Key::Char('v') => {
                self.perform(TextOp::CancelSelection, Ghost(start), Ghost(none));
                AppEvent::NormalMode
            },
            Key::Char('u') | Key::Char('U') => AppEvent::NormalMode,
            Key::Char(op) if op == 'y' || op == 'c' || op == 'd' => {
                let ev = self.handle_operation(op, Ghost(start), Ghost(none));
                assert(none + operation_plan(op).0 =~= operation_plan(op).0);
                ev
            },
            Key::Char('p') => {
                self.perform(TextOp::Paste, Ghost(start), Ghost(none));
                AppEvent::NormalMode
            },
            _ => {
                self.handle_traversal(input, Ghost(start), Ghost(none));
                assert(none + traversal_ops(input.key) =~= traversal_ops(input.key));
                AppEvent::NoOp
            },
        }
    }

    /// Handles a key in replace mode: sends the commands of `replace_plan`.
    pub fn handle_replace(&mut self, input: KeyInput, replace_mode: bool) -> (ev: AppEvent)
        ensures
            carried_out(
                *old(self),
                *final(self),
                replace_plan(
                    input,
                    replace_mode,
                    old(self).cursor_can_replace(),
                ).0,
            ),
            ev == replace_plan(
                input,
                replace_mode,
                old(self).cursor_can_replace(),
            ).1,
    {
        let ghost start = self.editor();
        proof {
            lemma_plan_empty(start);
        }
        if let Key::Char(c) = input.key {
            // Replace the character under the cursor
            if Self::is_before_line_end(&self.textarea) || Self::is_on_char(&self.textarea)
                || Self::is_at_byte_end(&self.textarea) {
                self.perform(TextOp::DeleteNextChar, Ghost(start), Ghost(Seq::empty()));
                self.perform(TextOp::InsertChar(c), Ghost(start), Ghost(Seq::empty().push(TextOp::DeleteNextChar)));
                assert(seq![TextOp::DeleteNextChar, TextOp::InsertChar(c)] =~= Seq::empty().push(
                    TextOp::DeleteNextChar,
                ).push(TextOp::InsertChar(c)));
            }
            if !replace_mode {
                return AppEvent::NormalMode;
            }
        }
        AppEvent::NoOp
    }

    /// Handles the key that follows an operator: sends the commands of
    /// `pending_plan`.
    pub fn handle_operation_pending(&mut self, input: KeyInput, op: char) -> (ev: AppEvent)
        ensures
            carried_out(*old(self), *final(self), pending_plan(input, op).0),
            ev == pending_plan(input, op).1,
    {
        let ghost start = self.editor();
        let ghost selected: Seq<TextOp>;
        match input.key {
            Key::Char(c) if c == 'y' || c == 'c' || c == 'd' => {
                self.perform(TextOp::Move(Motion::Head), Ghost(start), Ghost(Seq::empty()));
                self.perform(TextOp::StartSelection, Ghost(start), Ghost(Seq::empty().push(TextOp::Move(Motion::Head))));
                self.perform(
                    TextOp::Move(Motion::End),
                    Ghost(start),
                    Ghost(Seq::empty().push(TextOp::Move(Motion::Head)).push(TextOp::StartSelection)),
                );
                proof {
                    selected = seq![TextOp::Move(Motion::Head), TextOp::StartSelection, TextOp::Move(Motion::End)];
                    assert(selected =~= Seq::empty().push(TextOp::Move(Motion::Head)).push(
                        TextOp::StartSelection,
                    ).push(TextOp::Move(Motion::End)));
                }
            },
            _ => {
                self.perform(TextOp::StartSelection, Ghost(start), Ghost(Seq::empty()));
                self.handle_traversal(input, Ghost(start), Ghost(Seq::empty().push(TextOp::StartSelection)));
                proof {
                    selected = seq![TextOp::StartSelection] + traversal_ops(input.key);
                    assert(selected =~= Seq::empty().push(TextOp::StartSelection) + traversal_ops(input.key));
                }
            },
        }
        let ev = self.handle_operation(op, Ghost(start), Ghost(selected));
        assert(selected + operation_plan(op).0 =~= pending_plan(input, op).0);
        ev
    }

    fn handle_operation(&mut self, op: char, Ghost(start): Ghost<EditorView>, Ghost(done): Ghost<Seq<TextOp>>) -> (ev: AppEvent)
        requires
            plan_effect(start, done, old(self).editor()),
        ensures
            plan_effect(start, done + operation_plan(op).0, final(self).editor()),
            operation_plan(op).0.len() == 1 ==> op_effect(
                old(self).editor(),
                operation_plan(op).0[0],
                final(self).editor(),
            ),
            operation_plan(op).0.len() == 0 ==> *final(self) == *old(self),
            ev == operation_plan(op).1,
            final(self).state == old(self).state,
            final(self).access == old(self).access,
    {
        match op {
            'y' => {
                self.perform(TextOp::Copy, Ghost(start), Ghost(done));
                assert(done.push(TextOp::Copy) =~= done + operation_plan(op).0);
                AppEvent::NormalMode
            },
            'c' => {
                self.perform(TextOp::Cut, Ghost(start), Ghost(done));
                assert(done.push(TextOp::Cut) =~= done + operation_plan(op).0);
                AppEvent::InsertMode
            },
            'd' => {
                self.perform(TextOp::Cut, Ghost(start), Ghost(done));
                assert(done.push(TextOp::Cut) =~= done + operation_plan(op).0);
                AppEvent::NormalMode
            },
            _ => {
                assert(done =~= done + operation_plan(op).0);
                AppEvent::NoOp
            },
        }
    }

    /// Handles one key press in the given mode: sends the commands of
    /// `key_plan` to the text box and returns its event.
    pub fn handle_key_event(&mut self, mode: &Mode, input: KeyInput) -> (ev: AppEvent)
        ensures
            carried_out(
                *old(self),
                *final(self),
                key_plan(*mode, input, old(self).cursor_before_line_end(), old(self).cursor_can_replace()).0,
            ),
            ev == key_plan(*mode, input, old(self).cursor_before_line_end(), old(self).cursor_can_replace()).1,
    {
        match mode {
            Mode::Normal => self.handle_normal_mode(input),
            Mode::Insert => self.handle_insert_mode(input),
            Mode::Visual => self.handle_visual_mode(input),
            Mode::Replace(keep) => self.handle_replace(input, *keep),
            Mode::Operator(c) => self.handle_operation_pending(input, *c),
        }
    }
}

} // verus!
