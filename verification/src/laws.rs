//! Properties of the mode machine that hold across the key handlers and the
//! event handler.
use crate::app::{app_key_plan, event_ops, is_quit_key, mode_after, running_after};
use crate::keys::{AppEvent, Key, KeyInput};
use crate::message::{
    TextOp, focused, normal_plan, operation_plan, pending_plan, State, unfocused,
};
use crate::mode::{CursorStyle, Mode, mode_color};
use vstd::prelude::*;

verus! {

/// Esc leads back to normal mode from every mode, leaves the text alone, and
/// keeps the application running.
pub proof fn escape_returns_to_normal(mode: Mode, running: bool, input: KeyInput, before_end: bool, can_replace: bool)
    requires
        input.key == Key::Esc,
    ensures
        app_key_plan(mode, input, before_end, can_replace).0 == Seq::<TextOp>::empty(),
        mode_after(mode, app_key_plan(mode, input, before_end, can_replace).1) == Mode::Normal,
        running_after(running, app_key_plan(mode, input, before_end, can_replace).1) == running,
{
}

/// Control-C stops the application from every mode and leaves the text alone.
pub proof fn control_c_quits(mode: Mode, running: bool, input: KeyInput, before_end: bool, can_replace: bool)
    requires
        is_quit_key(input),
    ensures
        app_key_plan(mode, input, before_end, can_replace).0 == Seq::<TextOp>::empty(),
        !running_after(running, app_key_plan(mode, input, before_end, can_replace).1),
        mode_after(mode, app_key_plan(mode, input, before_end, can_replace).1) == mode,
{
}

/// In insert mode every key other than Esc and Control-C is typed into the
/// text box, and the mode stays insert.
pub proof fn insert_mode_types_keys(running: bool, input: KeyInput, before_end: bool, can_replace: bool)
    requires
        !is_quit_key(input),
        input.key != Key::Esc,
    ensures
        app_key_plan(Mode::Insert, input, before_end, can_replace).0 == seq![TextOp::Input(input)],
        mode_after(Mode::Insert, app_key_plan(Mode::Insert, input, before_end, can_replace).1) == Mode::Insert,
        running_after(running, app_key_plan(Mode::Insert, input, before_end, can_replace).1) == running,
{
}

/// A single replace (`r`) takes one character and returns to normal mode.
pub proof fn single_replace_returns_to_normal(c: char, input: KeyInput, before_end: bool, can_replace: bool)
    requires
        input.key == Key::Char(c),
        !is_quit_key(input),
    ensures
        mode_after(
            Mode::Replace(false),
            app_key_plan(Mode::Replace(false), input, before_end, can_replace).1,
        ) == Mode::Normal,
{
}

/// Continuous replace (`R`) stays in replace mode until Esc or Control-C.
pub proof fn continuous_replace_stays(input: KeyInput, before_end: bool, can_replace: bool)
    requires
        !is_quit_key(input),
        input.key != Key::Esc,
    ensures
        mode_after(
            Mode::Replace(true),
            app_key_plan(Mode::Replace(true), input, before_end, can_replace).1,
        ) == Mode::Replace(true),
{
}

/// A replacement, when one can happen at the cursor (see
/// `Message::cursor_can_replace`), swaps the character under the cursor for
/// the typed one: it deletes the next character, then inserts the new one.
pub proof fn replace_swaps_one_character(keep: bool, c: char, input: KeyInput, before_end: bool, can_replace: bool)
    requires
        input.key == Key::Char(c),
        !is_quit_key(input),
    ensures
        app_key_plan(Mode::Replace(keep), input, before_end, can_replace).0 == (if can_replace {
            seq![TextOp::DeleteNextChar, TextOp::InsertChar(c)]
        } else {
            seq![]
        }),
{
}

/// A pending operator (`y`, `c` or `d`) is resolved by the next key other than
/// Esc and Control-C: a selection is started, and then `y` copies it and returns
/// to normal mode, `d` cuts it and returns to normal mode, and `c` cuts it and
/// goes to insert mode.
pub proof fn pending_operator_resolves(op: char, input: KeyInput, before_end: bool, can_replace: bool)
    requires
        op == 'y' || op == 'c' || op == 'd',
        !is_quit_key(input),
        input.key != Key::Esc,
    ensures
        ({
            let plan = app_key_plan(Mode::Operator(op), input, before_end, can_replace);
            &&& mode_after(Mode::Operator(op), plan.1) == (if op == 'c' {
                Mode::Insert
            } else {
                Mode::Normal
            })
            &&& plan.0.contains(TextOp::StartSelection)
            &&& plan.0.last() == (if op == 'y' {
                TextOp::Copy
            } else {
                TextOp::Cut
            })
        }),
{
    let plan = pending_plan(input, op);
    match input.key {
        Key::Char(c) => {
            if c == 'y' || c == 'c' || c == 'd' {
                assert(plan.0[1] == TextOp::StartSelection);
            } else {
                assert(plan.0[0] == TextOp::StartSelection);
            }
        },
        _ => {
            assert(plan.0[0] == TextOp::StartSelection);
        },
    }
}

/// Every key of `i`, `I`, `a`, `A`, `o` and `O` enters insert mode from normal
/// mode.
pub proof fn insert_keys_enter_insert(c: char, input: KeyInput, before_end: bool)
    requires
        input.key == Key::Char(c),
        c == 'i' || c == 'I' || c == 'a' || c == 'A' || c == 'o' || c == 'O',
    ensures
        normal_plan(input, before_end).1 == AppEvent::InsertMode,
{
}

/// In normal mode no key but Enter submits, and Enter always does.
pub proof fn only_enter_submits(input: KeyInput, before_end: bool)
    ensures
        (normal_plan(input, before_end).1 == AppEvent::Submit) <==> input.key == Key::Enter,
{
}

/// Each mode change draws the input's cursor in the new mode's style first;
/// entering visual mode then starts a selection, and entering normal, insert
/// or replace mode ends any selection.
pub proof fn mode_change_sets_cursor(mode: Mode, ev: AppEvent)
    requires
        ev != AppEvent::Submit,
        ev != AppEvent::Quit,
        ev != AppEvent::NoOp,
    ensures
        event_ops(mode, ev)[0] == TextOp::SetCursorStyle(
            CursorStyle::Reversed(mode_color(mode_after(mode, ev))),
        ),
        ev == AppEvent::VisualMode ==> event_ops(mode, ev).last() == TextOp::StartSelection,
        (ev == AppEvent::NormalMode || ev == AppEvent::InsertMode || ev is ReplaceMode)
            ==> event_ops(mode, ev).last() == TextOp::CancelSelection,
{
}

/// Events that change nothing: `NoOp` leaves mode, running state and input
/// alone, and `Quit` only stops the application.
pub proof fn idle_events_change_nothing(mode: Mode, running: bool)
    ensures
        mode_after(mode, AppEvent::NoOp) == mode,
        running_after(running, AppEvent::NoOp) == running,
        event_ops(mode, AppEvent::NoOp) == Seq::<TextOp>::empty(),
        mode_after(mode, AppEvent::Quit) == mode,
        event_ops(mode, AppEvent::Quit) == Seq::<TextOp>::empty(),
{
}

/// Giving the focus undoes taking it, and taking it undoes giving it; both
/// are idempotent.
pub proof fn focus_round_trip(s: State)
    ensures
        (s == State::FocusedInput || s == State::FocusedOutput) ==> focused(unfocused(s)) == s,
        (s == State::UnfocusedInput || s == State::UnfocusedOutput) ==> unfocused(focused(s)) == s,
        focused(focused(s)) == focused(s),
        unfocused(unfocused(s)) == unfocused(s),
{
}

/// An operator other than `y`, `c` and `d` does nothing.
pub proof fn unknown_operator_does_nothing(op: char)
    requires
        op != 'y' && op != 'c' && op != 'd',
    ensures
        operation_plan(op) == (Seq::<TextOp>::empty(), AppEvent::NoOp),
{
}

/// The event a key press leads to never depends on the text: where the
/// cursor stands only decides what a key sends to the text box.
pub proof fn key_events_ignore_text(mode: Mode, input: KeyInput, b1: bool, r1: bool, b2: bool, r2: bool)
    ensures
        app_key_plan(mode, input, b1, r1).1 == app_key_plan(mode, input, b2, r2).1,
        normal_plan(input, b1).1 == normal_plan(input, b2).1,
{
}

/// In normal mode only `i`, `I`, `a`, `A`, `o` and `O` enter insert mode.
pub proof fn only_insert_keys_enter_insert(input: KeyInput, before_end: bool)
    ensures
        normal_plan(input, before_end).1 == AppEvent::InsertMode ==> {
            ||| input.key == Key::Char('i')
            ||| input.key == Key::Char('I')
            ||| input.key == Key::Char('a')
            ||| input.key == Key::Char('A')
            ||| input.key == Key::Char('o')
            ||| input.key == Key::Char('O')
        },
{
}

/// The editing keys of normal mode (`x`, `X`, `u`, `U`, `p` and Control-R)
/// leave the application in normal mode.
pub proof fn normal_edits_stay_normal(c: char, input: KeyInput, before_end: bool, can_replace: bool)
    requires
        input.key == Key::Char(c),
        c == 'x' || c == 'X' || c == 'u' || c == 'U' || c == 'p' || (c == 'r' && input.ctrl),
        !is_quit_key(input),
    ensures
        normal_plan(input, before_end).1 == AppEvent::NoOp,
        mode_after(Mode::Normal, app_key_plan(Mode::Normal, input, before_end, can_replace).1) == Mode::Normal,
{
}

/// In visual mode `c` ends in insert mode, to type what replaces the cut
/// text; `y`, `d`, `p`, `v`, `u` and `U` end in normal mode.
pub proof fn visual_keys_resolve(c: char, input: KeyInput, before_end: bool, can_replace: bool)
    requires
        input.key == Key::Char(c),
        c == 'y' || c == 'c' || c == 'd' || c == 'p' || c == 'v' || c == 'u' || c == 'U',
        !is_quit_key(input),
    ensures
        mode_after(Mode::Visual, app_key_plan(Mode::Visual, input, before_end, can_replace).1) == (if c == 'c' {
            Mode::Insert
        } else {
            Mode::Normal
        }),
{
}

} // verus!
