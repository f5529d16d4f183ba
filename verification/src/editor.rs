//! The text area of the `ratatui-textarea` crate, as the library drives it.
//!
//! The text area is held in `TextBox`, an opaque struct (the area's generic
//! `From` impl keeps it from being declared as an outside type). What the
//! library reads of it is named here: its lines, its cursor, its selection,
//! its cursor style, whether it masks its text, its undo history, its yank
//! buffer, where each motion would take its cursor, and the frame it is drawn
//! in. Every command that the library sends it goes through one of the
//! wrappers below, whose contracts say what the command does to these.
use crate::keys::{Key, KeyInput};
use crate::message::Backdrop;
use crate::mode::{CursorStyle, ModeColor};
use ratatui::style::{Color, Modifier, Style};
use ratatui::widgets::{Block, Padding};
use ratatui_textarea::{CursorMove, Input, TextArea, WrapMode};
use vstd::prelude::*;

verus! {

/// The text area of one message.
#[verifier::external_body]
pub struct TextBox {
    pub area: TextArea<'static>,
}

/// The lines of a text area, each as its characters.
pub uninterp spec fn textarea_lines(t: TextBox) -> Seq<Seq<char>>;

/// The cursor of a text area: its row and its column, counted in characters.
pub uninterp spec fn textarea_cursor(t: TextBox) -> (usize, usize);

/// Where the ongoing selection of a text area started, if one is ongoing.
pub uninterp spec fn textarea_selection(t: TextBox) -> Option<(usize, usize)>;

/// The style the cursor of a text area is drawn in, when it is one that
/// `CursorStyle` describes, and `None` otherwise.
pub uninterp spec fn textarea_cursor_style(t: TextBox) -> Option<CursorStyle>;

/// Whether a text area draws a mask character in place of its text.
pub uninterp spec fn textarea_masked(t: TextBox) -> bool;

/// The lines that undoing would bring back: those the most recent edit that
/// can still be undone started from, if there is one.
pub uninterp spec fn textarea_undo_text(t: TextBox) -> Option<Seq<Seq<char>>>;

/// The lines that redoing would bring back: those after the most recently
/// undone edit, if it can be redone.
pub uninterp spec fn textarea_redo_text(t: TextBox) -> Option<Seq<Seq<char>>>;

/// Whether a text area records its edits for undoing (the most edits its
/// history keeps is not zero).
pub uninterp spec fn textarea_keeps_history(t: TextBox) -> bool;

/// Whether a text area wraps long lines at word boundaries.
pub uninterp spec fn textarea_word_wrap(t: TextBox) -> bool;

/// Whether a text area highlights the line of its cursor.
pub uninterp spec fn textarea_cursor_line_highlighted(t: TextBox) -> bool;

/// The yank buffer of a text area, line by line: a piece of one line is one
/// entry, a chunk over several lines one entry per line.
pub uninterp spec fn textarea_yank(t: TextBox) -> Seq<Seq<char>>;

/// Where the cursor of a text area lands when it is moved by `m`.
pub uninterp spec fn textarea_motion_target(t: TextBox, m: Motion) -> (usize, usize);

/// The frame a text area is drawn in, when it was given one by
/// `set_backdrop`: the backdrop of its block and the padding on each side.
pub uninterp spec fn textarea_block(t: TextBox) -> Option<(Backdrop, u16)>;

/// What the library reads of a text area.
pub struct EditorView {
    pub lines: Seq<Seq<char>>,
    pub cursor: (usize, usize),
    pub selection: Option<(usize, usize)>,
    pub cursor_style: Option<CursorStyle>,
    pub masked: bool,
    pub undo: Option<Seq<Seq<char>>>,
    pub redo: Option<Seq<Seq<char>>>,
    pub keeps_history: bool,
    pub yank: Seq<Seq<char>>,
    /// Where each motion would take the cursor from here.
    pub targets: spec_fn(Motion) -> (usize, usize),
}

/// The view of a text area.
pub open spec fn editor_view(t: TextBox) -> EditorView {
    EditorView {
        lines: textarea_lines(t),
        cursor: textarea_cursor(t),
        selection: textarea_selection(t),
        cursor_style: textarea_cursor_style(t),
        masked: textarea_masked(t),
        undo: textarea_undo_text(t),
        redo: textarea_redo_text(t),
        keeps_history: textarea_keeps_history(t),
        yank: textarea_yank(t),
        targets: |m: Motion| textarea_motion_target(t, m),
    }
}

/// A text area as `TextArea::default` makes it: one empty line, the cursor at
/// its start, no selection, no mask, the cursor drawn in the area's own style,
/// no history, and one empty piece in the yank buffer.
pub open spec fn is_fresh(v: EditorView) -> bool {
    &&& v.lines == seq![Seq::<char>::empty()]
    &&& v.cursor == (0usize, 0usize)
    &&& v.selection == None::<(usize, usize)>
    &&& v.cursor_style == None::<CursorStyle>
    &&& !v.masked
    &&& v.undo == None::<Seq<Seq<char>>>
    &&& v.redo == None::<Seq<Seq<char>>>
    &&& v.keeps_history
    &&& v.yank == seq![Seq::<char>::empty()]
}

/// The line the cursor is on.
pub open spec fn cursor_line(v: EditorView) -> Seq<char> {
    v.lines[v.cursor.0 as int]
}

/// A position lies on the text: its row is a line and its column at most
/// that line's character count.
pub open spec fn pos_in_text(lines: Seq<Seq<char>>, p: (usize, usize)) -> bool {
    p.0 < lines.len() && p.1 <= lines[p.0 as int].len()
}

/// The cursor's column is within its line (at most its character count).
pub open spec fn cursor_in_line(v: EditorView) -> bool {
    pos_in_text(v.lines, v.cursor)
}

/// The cursor's line holds printable ASCII and tabs only, and the text area
/// shows no mask, so each of its characters takes at least one cell on
/// screen.
pub open spec fn printable_ascii_line(v: EditorView) -> bool {
    &&& !v.masked
    &&& forall|i: int|
        0 <= i < cursor_line(v).len() ==> (' ' <= #[trigger] cursor_line(v)[i] <= '~' || cursor_line(v)[i]
            == '\t')
}

/// Position `a` comes before position `b` in the text.
pub open spec fn pos_before(a: (usize, usize), b: (usize, usize)) -> bool {
    a.0 < b.0 || (a.0 == b.0 && a.1 < b.1)
}

/// The cursor, and the start of the selection if one is ongoing, lie on the
/// text.
pub open spec fn selection_placed(v: EditorView) -> bool {
    &&& cursor_in_line(v)
    &&& v.selection matches Some(s) ==> pos_in_text(v.lines, s)
}

/// The selected range, its start first: `None` when no selection is ongoing
/// or when its two ends meet.
pub open spec fn selection_range(v: EditorView) -> Option<((usize, usize), (usize, usize))> {
    match v.selection {
        Some(s) => if pos_before(s, v.cursor) {
            Some((s, v.cursor))
        } else if pos_before(v.cursor, s) {
            Some((v.cursor, s))
        } else {
            None
        },
        None => None,
    }
}

/// The text from `s` to `e`, line by line.
pub open spec fn text_between(lines: Seq<Seq<char>>, s: (usize, usize), e: (usize, usize)) -> Seq<Seq<char>> {
    if s.0 == e.0 {
        seq![lines[s.0 as int].subrange(s.1 as int, e.1 as int)]
    } else {
        seq![lines[s.0 as int].skip(s.1 as int)] + lines.subrange(s.0 + 1, e.0 as int) + seq![
            lines[e.0 as int].take(e.1 as int),
        ]
    }
}

/// The lines once the text from `s` to `e` is taken out: what stood before
/// `s` joins what stood after `e`.
pub open spec fn without_between(lines: Seq<Seq<char>>, s: (usize, usize), e: (usize, usize)) -> Seq<Seq<char>> {
    lines.take(s.0 as int) + seq![lines[s.0 as int].take(s.1 as int) + lines[e.0 as int].skip(e.1 as int)]
        + lines.skip(e.0 + 1)
}

/// The view once the selected text is deleted (without yanking it) and the
/// selection ended; the cursor goes to where the selection began.
pub open spec fn selection_deleted(v: EditorView) -> EditorView {
    match selection_range(v) {
        Some((s, e)) => EditorView { lines: without_between(v.lines, s, e), cursor: s, selection: None, ..v },
        None => EditorView { selection: None, ..v },
    }
}

/// The selection, the cursor style, the mask, the undo history and the yank
/// buffer stay.
pub open spec fn same_but_text(before: EditorView, after: EditorView) -> bool {
    &&& after.selection == before.selection
    &&& after.cursor_style == before.cursor_style
    &&& after.masked == before.masked
    &&& after.undo == before.undo
    &&& after.redo == before.redo
    &&& after.keeps_history == before.keeps_history
    &&& after.yank == before.yank
}

/// What an edit records for undoing: when it changed nothing, the undo
/// history stays; when it changed the text and the text area records edits,
/// undoing brings back the text from before it, and there is nothing left to
/// redo.
pub open spec fn records_edit(before: EditorView, after: EditorView, changed: bool) -> bool {
    &&& after.keeps_history == before.keeps_history
    &&& !changed ==> after.undo == before.undo && after.redo == before.redo
    &&& (changed && before.keeps_history) ==> after.undo == Some(before.lines) && after.redo == None::<
        Seq<Seq<char>>,
    >
}

/// Only the cursor moved.
pub open spec fn same_but_cursor(before: EditorView, after: EditorView) -> bool {
    &&& same_but_text(before, after)
    &&& after.lines == before.lines
}

/// What every edit keeps: the cursor style, the mask, whether edits are
/// recorded, and the yank buffer; and it ends the selection.
pub open spec fn edit_frame(before: EditorView, after: EditorView) -> bool {
    &&& after.selection == None::<(usize, usize)>
    &&& after.cursor_style == before.cursor_style
    &&& after.masked == before.masked
    &&& after.keeps_history == before.keeps_history
    &&& after.yank == before.yank
}

/// The effect of an edit that first deletes the selected text, if any: lines
/// and cursor become `text`, computed from the view after that deletion; when
/// nothing was selected the edit is recorded for undoing.
pub open spec fn edit_effect(
    before: EditorView,
    after: EditorView,
    text: (Seq<Seq<char>>, (usize, usize)),
) -> bool {
    &&& edit_frame(before, after)
    &&& selection_placed(before) ==> {
        &&& after.lines == text.0
        &&& after.cursor == text.1
        &&& selection_range(before) is None ==> records_edit(before, after, text.0 != before.lines)
    }
}

/// The text after splitting the cursor's line at the cursor; the cursor goes
/// to the start of the new line.
pub open spec fn split_line(v: EditorView) -> (Seq<Seq<char>>, (usize, usize)) {
    let (r, c) = v.cursor;
    let line = cursor_line(v);
    (
        v.lines.take(r as int) + seq![line.take(c as int), line.skip(c as int)] + v.lines.skip(r + 1),
        ((r + 1) as usize, 0usize),
    )
}

/// The text after putting `ch` in at the cursor; the cursor moves one right.
pub open spec fn put_char(v: EditorView, ch: char) -> (Seq<Seq<char>>, (usize, usize)) {
    let (r, c) = v.cursor;
    let line = cursor_line(v);
    (v.lines.update(r as int, line.take(c as int) + seq![ch] + line.skip(c as int)), (r, (c + 1) as usize))
}

/// The text after `insert_char(ch)`: a newline character splits the line.
pub open spec fn typed_char(v: EditorView, ch: char) -> (Seq<Seq<char>>, (usize, usize)) {
    if ch == '\n' || ch == '\r' {
        split_line(v)
    } else {
        put_char(v, ch)
    }
}

/// The text after putting the lines `y` in at the cursor: one line goes into
/// the cursor's line and the cursor moves past it; with several, the cursor's
/// line is split around them and the cursor ends after the last.
pub open spec fn put_lines(v: EditorView, y: Seq<Seq<char>>) -> (Seq<Seq<char>>, (usize, usize)) {
    let (r, c) = v.cursor;
    let line = cursor_line(v);
    let n = y.len();
    if n == 1 {
        (v.lines.update(r as int, line.take(c as int) + y[0] + line.skip(c as int)), (r, (c + y[0].len()) as usize))
    } else {
        (
            v.lines.take(r as int) + seq![line.take(c as int) + y[0]] + y.subrange(1, n - 1) + seq![
                y[n - 1] + line.skip(c as int),
            ] + v.lines.skip(r + 1),
            ((r + n - 1) as usize, y[n - 1].len() as usize),
        )
    }
}

/// The text after deleting the character before the cursor: at the start of
/// a line the line joins the one above, and at the start of the text nothing
/// happens.
pub open spec fn erase_before(v: EditorView) -> (Seq<Seq<char>>, (usize, usize)) {
    let (r, c) = v.cursor;
    let line = cursor_line(v);
    if c == 0 {
        if r == 0 {
            (v.lines, v.cursor)
        } else {
            let prev = v.lines[r - 1];
            (
                v.lines.take(r - 1) + seq![prev + line] + v.lines.skip(r + 1),
                ((r - 1) as usize, prev.len() as usize),
            )
        }
    } else {
        (v.lines.update(r as int, line.take(c - 1) + line.skip(c as int)), (r, (c - 1) as usize))
    }
}

/// What deleting backwards does: with text selected, that text goes and
/// nothing else; otherwise the character before the cursor goes (see
/// `erase_before`). It is one edit: when the text changed, undoing brings
/// it back.
pub open spec fn erase_back_effect(before: EditorView, after: EditorView) -> bool {
    &&& edit_frame(before, after)
    &&& records_edit(before, after, after.lines != before.lines)
    &&& selection_placed(before) ==> match selection_range(before) {
        Some(_) => {
            &&& after.lines == selection_deleted(before).lines
            &&& after.cursor == selection_deleted(before).cursor
        },
        None => {
            &&& after.lines == erase_before(before).0
            &&& after.cursor == erase_before(before).1
        },
    }
}

/// What deleting the character under the cursor does, where the crate's
/// source fixes it: with text selected, that text goes and nothing else;
/// otherwise, inside a line whose characters each take a cell, that character
/// goes and the cursor stays; at the end of a line the next line joins it; at
/// the end of the text nothing happens. It is one edit: when the text
/// changed, undoing brings it back.
pub open spec fn erase_at_effect(before: EditorView, after: EditorView) -> bool {
    let (r, c) = before.cursor;
    let line = cursor_line(before);
    &&& edit_frame(before, after)
    &&& records_edit(before, after, after.lines != before.lines)
    &&& selection_placed(before) ==> match selection_range(before) {
        Some(_) => {
            &&& after.lines == selection_deleted(before).lines
            &&& after.cursor == selection_deleted(before).cursor
        },
        None => {
            &&& c < line.len() && printable_ascii_line(before) ==> {
                &&& after.lines == before.lines.update(r as int, line.take(c as int) + line.skip(c + 1))
                &&& after.cursor == before.cursor
            }
            &&& c == line.len() && r + 1 < before.lines.len() ==> {
                &&& after.lines == before.lines.take(r as int) + seq![line + before.lines[r + 1]]
                    + before.lines.skip(r + 2)
                &&& after.cursor == before.cursor
            }
            &&& c == line.len() && r + 1 == before.lines.len() ==> {
                &&& after.lines == before.lines
                &&& after.cursor == before.cursor
            }
        },
    }
}

/// What a motion does: the cursor goes to the motion's target, and the text,
/// the selection, the cursor style, the mask, the history and the yank buffer
/// stay. Where the crate's source fixes the target it is stated: `Head` goes
/// to column 0, `End` to the end of the line, and `Forward` one character
/// right inside a line whose characters each take a cell.
pub open spec fn motion_effect(before: EditorView, m: Motion, after: EditorView) -> bool {
    let (r, c) = before.cursor;
    &&& same_but_cursor(before, after)
    &&& after.cursor == (before.targets)(m)
    &&& m == Motion::Head ==> after.cursor == (r, 0usize)
    &&& (m == Motion::End && r < before.lines.len()) ==> {
        &&& after.cursor.0 == r
        &&& after.cursor.1 == cursor_line(before).len()
    }
    &&& (m == Motion::Forward && cursor_in_line(before) && c < cursor_line(before).len()
        && printable_ascii_line(before)) ==> after.cursor == (r, (c + 1) as usize)
}

/// What cutting the selection does: the selection ends; with none ongoing,
/// nothing else changes; with text selected, that text goes into the yank
/// buffer and out of the lines, the cursor goes to where it began, and the
/// cut is recorded for undoing.
pub open spec fn cut_effect(before: EditorView, after: EditorView) -> bool {
    &&& after.selection == None::<(usize, usize)>
    &&& after.cursor_style == before.cursor_style
    &&& after.masked == before.masked
    &&& after.keeps_history == before.keeps_history
    &&& before.selection == None::<(usize, usize)> ==> {
        &&& after.lines == before.lines
        &&& after.cursor == before.cursor
        &&& after.undo == before.undo
        &&& after.redo == before.redo
        &&& after.yank == before.yank
    }
    &&& selection_placed(before) ==> match selection_range(before) {
        Some((s, e)) => {
            &&& after.lines == without_between(before.lines, s, e)
            &&& after.cursor == s
            &&& after.yank == text_between(before.lines, s, e)
            &&& records_edit(before, after, true)
        },
        None => {
            &&& after.lines == before.lines
            &&& after.cursor == before.cursor
            &&& after.undo == before.undo
            &&& after.redo == before.redo
            &&& after.yank == before.yank
        },
    }
}

/// What copying the selection does: the selection ends and, with text
/// selected, that text goes into the yank buffer; nothing else changes.
pub open spec fn copy_effect(before: EditorView, after: EditorView) -> bool {
    &&& after == (EditorView { selection: None, yank: after.yank, ..before })
    &&& before.selection == None::<(usize, usize)> ==> after.yank == before.yank
    &&& selection_placed(before) ==> after.yank == match selection_range(before) {
        Some((s, e)) => text_between(before.lines, s, e),
        None => before.yank,
    }
}

/// What pasting does: the selected text, if any, is deleted, then the yank
/// buffer goes in at the cursor (see `put_lines`).
pub open spec fn paste_effect(before: EditorView, after: EditorView) -> bool {
    &&& edit_frame(before, after)
    &&& before.yank.len() > 0 ==> edit_effect(before, after, put_lines(selection_deleted(before), before.yank))
}

/// What undoing does, where the crate's source fixes it: see `undo`.
pub open spec fn undo_effect(before: EditorView, after: EditorView) -> bool {
    &&& after.cursor_style == before.cursor_style
    &&& after.masked == before.masked
    &&& after.keeps_history == before.keeps_history
    &&& after.yank == before.yank
    &&& match before.undo {
        Some(text) => {
            &&& after.lines == text
            &&& before.keeps_history ==> after.redo == Some(before.lines)
        },
        None => after == before,
    }
}

/// What redoing does, where the crate's source fixes it: see `redo`.
pub open spec fn redo_effect(before: EditorView, after: EditorView) -> bool {
    &&& after.cursor_style == before.cursor_style
    &&& after.masked == before.masked
    &&& after.keeps_history == before.keeps_history
    &&& after.yank == before.yank
    &&& match before.redo {
        Some(text) => {
            &&& after.lines == text
            &&& before.keeps_history ==> after.undo == Some(before.lines)
        },
        None => after == before,
    }
}

/// What a key handed to the text area does: a character typed without Control
/// or Alt goes in, Enter splits the line, Backspace and Delete erase, Tab and
/// the mouse wheel leave the cursor style, the mask and the yank buffer, and
/// any other key changes nothing.
pub open spec fn input_effect(before: EditorView, input: KeyInput, after: EditorView) -> bool {
    match input.key {
        Key::Char(ch) => if !input.ctrl && !input.alt {
            edit_effect(before, after, typed_char(selection_deleted(before), ch))
        } else {
            after == before
        },
        Key::Enter => edit_effect(before, after, split_line(selection_deleted(before))),
        Key::Backspace => erase_back_effect(before, after),
        Key::Delete => erase_at_effect(before, after),
        Key::Tab => if !input.ctrl && !input.alt {
            edit_frame(before, after)
        } else {
            after == before
        },
        Key::MouseScrollDown | Key::MouseScrollUp => {
            &&& after.lines == before.lines
            &&& same_but_text(before, after)
        },
        Key::Esc | Key::Other => after == before,
    }
}

/// A cursor motion that the editor knows.
#[derive(Clone, Copy, Debug, PartialEq, Eq, Structural)]
pub enum Motion {
    Forward,
    Back,
    Up,
    Down,
    Head,
    End,
    WordForward,
    WordEnd,
    WordBack,
    ParagraphForward,
    ParagraphBack,
}

/// `TextArea::default`: one empty line, the cursor at its start, no
/// selection, no mask, the cursor drawn reversed in the terminal's colours,
/// no history yet (edits are recorded), one empty piece in the yank buffer,
/// no wrapping, and the cursor's line underlined.
#[verifier::external_body]
pub fn new_textarea() -> (t: TextBox)
    ensures
        textarea_lines(t) == seq![Seq::<char>::empty()],
        textarea_cursor(t) == (0usize, 0usize),
        textarea_selection(t) == None::<(usize, usize)>,
        textarea_cursor_style(t) == None::<CursorStyle>,
        !textarea_masked(t),
        textarea_undo_text(t) == None::<Seq<Seq<char>>>,
        textarea_redo_text(t) == None::<Seq<Seq<char>>>,
        textarea_keeps_history(t),
        textarea_yank(t) == seq![Seq::<char>::empty()],
        !textarea_word_wrap(t),
        textarea_cursor_line_highlighted(t),
{
    TextBox { area: TextArea::default() }
}

/// `TextArea::set_wrap_mode` with word wrapping. The text area lays its lines
/// out again, so where the motions that follow the screen lead may change;
/// nothing else changes.
#[verifier::external_body]
pub fn set_word_wrap(t: &mut TextBox)
    ensures
        editor_view(*final(t)) == (EditorView { targets: editor_view(*final(t)).targets, ..editor_view(*old(t)) }),
        textarea_word_wrap(*final(t)),
        textarea_cursor_line_highlighted(*final(t)) == textarea_cursor_line_highlighted(*old(t)),
{
    t.area.set_wrap_mode(WrapMode::Word)
}

/// `TextArea::set_cursor_line_style` with the default style, which turns the
/// highlight of the cursor's line off. Nothing else changes.
#[verifier::external_body]
pub fn clear_cursor_line_style(t: &mut TextBox)
    ensures
        editor_view(*final(t)) == editor_view(*old(t)),
        textarea_word_wrap(*final(t)) == textarea_word_wrap(*old(t)),
        !textarea_cursor_line_highlighted(*final(t)),
{
    t.area.set_cursor_line_style(Style::default())
}

/// `TextArea::set_block` with a block on `backdrop` (converted to the
/// terminal's colours), padded by `padding` cells on each side. The text area
/// is then framed so; nothing else changes.
#[verifier::external_body]
pub(crate) fn set_backdrop(t: &mut TextBox, backdrop: Backdrop, padding: u16)
    ensures
        textarea_block(*final(t)) == Some((backdrop, padding)),
        editor_view(*final(t)) == editor_view(*old(t)),
        textarea_word_wrap(*final(t)) == textarea_word_wrap(*old(t)),
        textarea_cursor_line_highlighted(*final(t)) == textarea_cursor_line_highlighted(*old(t)),
{
    t.area.set_block(match backdrop {
        Backdrop::Plain => Block::default(),
        Backdrop::Black => Block::default().style(Style::default().bg(Color::Black)),
        Backdrop::DarkGray => Block::default().style(Style::default().bg(Color::DarkGray)),
    }.padding(Padding::uniform(padding)))
}

/// `TextArea::lines`: the lines of the text. The crate documents that there is
/// always at least one.
#[verifier::external_body]
pub fn lines<'s>(t: &'s TextBox) -> (r: &'s [String])
    ensures
        r@.len() == textarea_lines(*t).len(),
        forall|i: int| 0 <= i < r@.len() ==> #[trigger] r@[i]@ == textarea_lines(*t)[i],
        r@.len() > 0,
{
    t.area.lines()
}

/// `TextArea::cursor`: the row and the column of the cursor. The crate keeps
/// the row on one of the lines (its editing methods index the line at the
/// cursor's row), and that is stated too.
#[verifier::external_body]
pub fn cursor(t: &TextBox) -> (r: (usize, usize))
    ensures
        r == textarea_cursor(*t),
        r.0 < textarea_lines(*t).len(),
{
    let c = t.area.cursor();
    (c.0, c.1)
}

/// `TextArea::move_cursor`: see `motion_effect`. The cursor goes to the
/// motion's target. The word and paragraph motions, `Head` and `End` find it
/// from the lines and the cursor alone; `Forward`, `Back`, `Up` and `Down`
/// step over the lines as last laid out on screen (wrapped, and with each
/// character as wide as it is drawn), which is why the target is named over
/// the whole text area. The targets are stated in full only for `Head`,
/// `End` and `Forward` within a line.
#[verifier::external_body]
pub fn move_cursor(t: &mut TextBox, m: Motion)
    ensures
        motion_effect(editor_view(*old(t)), m, editor_view(*final(t))),
        textarea_cursor(*final(t)) == textarea_motion_target(*old(t), m),
{
    t.area.move_cursor(match m {
        Motion::Forward => CursorMove::Forward,
        Motion::Back => CursorMove::Back,
        Motion::Up => CursorMove::Up,
        Motion::Down => CursorMove::Down,
        Motion::Head => CursorMove::Head,
        Motion::End => CursorMove::End,
        Motion::WordForward => CursorMove::WordForward,
        Motion::WordEnd => CursorMove::WordEnd,
        Motion::WordBack => CursorMove::WordBack,
        Motion::ParagraphForward => CursorMove::ParagraphForward,
        Motion::ParagraphBack => CursorMove::ParagraphBack,
    })
}

/// `TextArea::insert_newline`: the selected text, if any, is deleted, then
/// the line splits at the cursor; see `edit_effect` and `split_line`.
#[verifier::external_body]
pub fn insert_newline(t: &mut TextBox)
    ensures
        edit_effect(
            editor_view(*old(t)),
            editor_view(*final(t)),
            split_line(selection_deleted(editor_view(*old(t)))),
        ),
{
    t.area.insert_newline()
}

/// `TextArea::insert_char`: the selected text, if any, is deleted, then the
/// character goes in; see `edit_effect` and `typed_char`.
#[verifier::external_body]
pub fn insert_char(t: &mut TextBox, c: char)
    ensures
        edit_effect(
            editor_view(*old(t)),
            editor_view(*final(t)),
            typed_char(selection_deleted(editor_view(*old(t))), c),
        ),
{
    t.area.insert_char(c)
}

/// `TextArea::delete_char`, the character before the cursor, or the selected
/// text: see `erase_back_effect`. What it returns is not stated.
#[verifier::external_body]
pub fn delete_char(t: &mut TextBox) -> (r: bool)
    ensures
        erase_back_effect(editor_view(*old(t)), editor_view(*final(t))),
{
    t.area.delete_char()
}

/// `TextArea::delete_next_char`, the character under the cursor, or the
/// selected text: see `erase_at_effect`. What it returns, and what it does on
/// a line with characters drawn no cell wide, are not stated.
#[verifier::external_body]
pub fn delete_next_char(t: &mut TextBox) -> (r: bool)
    ensures
        erase_at_effect(editor_view(*old(t)), editor_view(*final(t))),
{
    t.area.delete_next_char()
}

/// `TextArea::undo`: with an edit to undo, the text goes back to what it was
/// before that edit, and redoing would bring it forward again; with none,
/// nothing changes. The cursor style, the mask and the yank buffer stay.
/// Where the cursor goes, and what a further undo would do, are not stated.
#[verifier::external_body]
pub fn undo(t: &mut TextBox) -> (r: bool)
    ensures
        undo_effect(editor_view(*old(t)), editor_view(*final(t))),
{
    t.area.undo()
}

/// `TextArea::redo`: with an undone edit to redo, the text becomes what it was
/// after that edit, and undoing would take it back again; with none, nothing
/// changes. The cursor style, the mask and the yank buffer stay. Where the
/// cursor goes, and what a further redo would do, are not stated.
#[verifier::external_body]
pub fn redo(t: &mut TextBox) -> (r: bool)
    ensures
        redo_effect(editor_view(*old(t)), editor_view(*final(t))),
{
    t.area.redo()
}

/// `TextArea::paste` of the yank buffer: see `paste_effect`. What it returns
/// is not stated.
#[verifier::external_body]
pub fn paste(t: &mut TextBox) -> (r: bool)
    ensures
        paste_effect(editor_view(*old(t)), editor_view(*final(t))),
{
    t.area.paste()
}

/// `TextArea::copy`: see `copy_effect`.
#[verifier::external_body]
pub fn copy(t: &mut TextBox)
    ensures
        copy_effect(editor_view(*old(t)), editor_view(*final(t))),
{
    t.area.copy()
}

/// `TextArea::cut` of the selection: see `cut_effect`. What it returns is not
/// stated.
#[verifier::external_body]
pub fn cut(t: &mut TextBox) -> (r: bool)
    ensures
        cut_effect(editor_view(*old(t)), editor_view(*final(t))),
{
    t.area.cut()
}

/// `TextArea::start_selection`: a selection starts at the cursor. Nothing else
/// changes.
#[verifier::external_body]
pub fn start_selection(t: &mut TextBox)
    ensures
        editor_view(*final(t)) == (EditorView {
            selection: Some(textarea_cursor(*old(t))),
            ..editor_view(*old(t))
        }),
{
    t.area.start_selection()
}

/// `TextArea::cancel_selection`: no selection remains. Nothing else changes.
#[verifier::external_body]
pub fn cancel_selection(t: &mut TextBox)
    ensures
        editor_view(*final(t)) == (EditorView { selection: None, ..editor_view(*old(t)) }),
{
    t.area.cancel_selection()
}

/// `TextArea::set_cursor_style`, with the style converted to the crate's. The
/// cursor is then drawn in that style; nothing else changes.
#[verifier::external_body]
pub fn set_cursor_style(t: &mut TextBox, style: CursorStyle)
    ensures
        editor_view(*final(t)) == (EditorView { cursor_style: Some(style), ..editor_view(*old(t)) }),
        textarea_word_wrap(*final(t)) == textarea_word_wrap(*old(t)),
        textarea_cursor_line_highlighted(*final(t)) == textarea_cursor_line_highlighted(*old(t)),
{
    t.area.set_cursor_style(match style {
        CursorStyle::Plain => Style::default(),
        CursorStyle::Reversed(c) => Style::default().fg(match c {
            ModeColor::Reset => Color::Reset,
            ModeColor::LightBlue => Color::LightBlue,
            ModeColor::LightRed => Color::LightRed,
            ModeColor::LightYellow => Color::LightYellow,
            ModeColor::LightGreen => Color::LightGreen,
        }).add_modifier(Modifier::REVERSED),
    })
}

/// `TextArea::input_without_shortcuts`, with the key converted to the crate's:
/// see `input_effect`. What it returns is not stated.
#[verifier::external_body]
pub fn input_without_shortcuts(t: &mut TextBox, input: KeyInput) -> (r: bool)
    ensures
        input_effect(editor_view(*old(t)), input, editor_view(*final(t))),
{
    let key = match input.key {
        Key::Char(c) => ratatui_textarea::Key::Char(c),
        Key::Enter => ratatui_textarea::Key::Enter,
        Key::Tab => ratatui_textarea::Key::Tab,
        Key::Backspace => ratatui_textarea::Key::Backspace,
        Key::Delete => ratatui_textarea::Key::Delete,
        Key::Esc => ratatui_textarea::Key::Esc,
        Key::MouseScrollDown => ratatui_textarea::Key::MouseScrollDown,
        Key::MouseScrollUp => ratatui_textarea::Key::MouseScrollUp,
        Key::Other => ratatui_textarea::Key::Null,
    };
    t.area.input_without_shortcuts(Input { key, ctrl: input.ctrl, alt: input.alt, shift: input.shift })
}

} // verus!
