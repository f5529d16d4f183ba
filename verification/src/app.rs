//! The application state: the mode, the input being typed and the messages
//! sent so far, with the rules that move between them.
//!
//! The terminal loop lives outside the library. It draws, waits for an event
//! and hands key presses to `App::handle_key_events`, whose returned event it
//! queues, and queued events to `App::handle_app_event`.
use crate::keys::{AppEvent, Key, KeyInput};
use crate::message::{
    Message, Plan, TextOp, carried_out, key_plan, lemma_plan_frame,
    lemma_plan_one, lemma_plan_push, lemma_plan_style_set_first, operation_plan, traversal_ops,
};
use crate::mode::{CursorStyle, Mode, mode_color};
use crate::editor::{EditorView, is_fresh, textarea_cursor_line_highlighted, textarea_word_wrap};
use vstd::prelude::*;

verus! {

/// Control with `c` or `C` and no other modifier: the key that quits from any
/// mode.
pub open spec fn is_quit_key(input: KeyInput) -> bool {
    &&& (input.key == Key::Char('c') || input.key == Key::Char('C'))
    &&& input.ctrl
    &&& !input.alt
    &&& !input.shift
    &&& !input.extra_modifiers
}

/// What a key press does at the application level: Control-C quits, Esc goes
/// back to normal mode, and any other key goes to the input message.
pub open spec fn app_key_plan(mode: Mode, input: KeyInput, before_end: bool, can_replace: bool) -> Plan {
    if is_quit_key(input) {
        (seq![], AppEvent::Quit)
    } else if input.key == Key::Esc {
        (seq![], AppEvent::NormalMode)
    } else {
        key_plan(mode, input, before_end, can_replace)
    }
}

/// The mode after an event.
pub open spec fn mode_after(mode: Mode, ev: AppEvent) -> Mode {
    match ev {
        AppEvent::NormalMode => Mode::Normal,
        AppEvent::InsertMode => Mode::Insert,
        AppEvent::VisualMode => Mode::Visual,
        AppEvent::ReplaceMode(keep) => Mode::Replace(keep),
        AppEvent::OperationMode(op) => Mode::Operator(op),
        AppEvent::Submit => Mode::Normal,
        AppEvent::Quit | AppEvent::NoOp => mode,
    }
}

/// Whether the application still runs after an event.
pub open spec fn running_after(running: bool, ev: AppEvent) -> bool {
    if ev == AppEvent::Quit {
        false
    } else {
        running
    }
}

/// The commands that an event other than `Submit` sends to the input message:
/// the cursor of the new mode, then the start of a selection when entering
/// visual mode, or the end of any selection when entering normal, insert or
/// replace mode.
pub open spec fn event_ops(mode: Mode, ev: AppEvent) -> Seq<TextOp> {
    let style = seq![TextOp::SetCursorStyle(CursorStyle::Reversed(mode_color(mode_after(mode, ev))))];
    match ev {
        AppEvent::NormalMode | AppEvent::InsertMode | AppEvent::ReplaceMode(_) => style.push(
            TextOp::CancelSelection,
        ),
        AppEvent::VisualMode => style.push(TextOp::StartSelection),
        AppEvent::OperationMode(_) => style,
        _ => seq![],
    }
}

/// Whether a message is a fresh input, as `Message::new` makes it, whose cursor
/// has then been given the style of normal mode.
pub open spec fn fresh_normal_input(m: Message) -> bool {
    &&& is_fresh(EditorView { cursor_style: None, ..m.editor() })
    &&& m.editor().cursor_style == Some(CursorStyle::Reversed(mode_color(Mode::Normal)))
    &&& textarea_word_wrap(m.textarea)
    &&& !textarea_cursor_line_highlighted(m.textarea)
    &&& m.state == crate::message::State::FocusedInput
    &&& !m.writeable()
}

/// The cursor shows the mode: it is drawn in the mode's style, or, in normal
/// mode, in the text area's own style, which it has until it is first styled.
pub open spec fn cursor_shows_mode(style: Option<CursorStyle>, mode: Mode) -> bool {
    match style {
        Some(s) => s == CursorStyle::Reversed(mode_color(mode)),
        None => mode == Mode::Normal,
    }
}

/// No key sets the cursor style: only mode changes do.
pub proof fn lemma_key_plans_set_no_style(mode: Mode, input: KeyInput, before_end: bool, can_replace: bool)
    ensures
        forall|i: int|
            0 <= i < app_key_plan(mode, input, before_end, can_replace).0.len()
                ==> !(#[trigger] app_key_plan(mode, input, before_end, can_replace).0[i] is SetCursorStyle),
{
    let ops = app_key_plan(mode, input, before_end, can_replace).0;
    assert forall|i: int| 0 <= i < ops.len() implies !(#[trigger] ops[i] is SetCursorStyle) by {
        let t = traversal_ops(input.key);
        assert(forall|j: int| 0 <= j < t.len() ==> t[j] is Move);
        if let Mode::Operator(op) = mode {
            let o = operation_plan(op).0;
            assert(forall|j: int| 0 <= j < o.len() ==> o[j] is Copy || o[j] is Cut);
        }
    }
}

/// The application.
pub struct App {
    pub running: bool,
    pub mode: Mode,
    pub user_input: Message,
    pub messages: Vec<Message>,
}

impl Default for App {
    fn default() -> (a: Self)
        ensures
            a.running,
            a.mode == Mode::Normal,
            is_fresh(a.user_input.editor()),
            a.user_input.state == crate::message::State::FocusedInput,
            !a.user_input.writeable(),
            a.messages@.len() == 0,
            a.cursor_matches_mode(),
    {
        App { running: true, mode: Mode::Normal, user_input: Message::new(), messages: Vec::new() }
    }
}

impl App {
    /// The input's cursor shows the current mode.
    pub open spec fn cursor_matches_mode(&self) -> bool {
        cursor_shows_mode(self.user_input.editor().cursor_style, self.mode)
    }

    /// A running application in normal mode, with an empty input and no
    /// messages.
    pub fn new() -> (a: Self)
        ensures
            a.running,
            a.mode == Mode::Normal,
            is_fresh(a.user_input.editor()),
            a.user_input.state == crate::message::State::FocusedInput,
            !a.user_input.writeable(),
            a.messages@.len() == 0,
            a.cursor_matches_mode(),
    {
        Self::default()
    }

    /// Handles one key press and returns the event that it asks for.
    pub fn handle_key_events(&mut self, input: KeyInput) -> (ev: AppEvent)
        ensures
            ev == app_key_plan(
                old(self).mode,
                input,
                old(self).user_input.cursor_before_line_end(),
                old(self).user_input.cursor_can_replace(),
            ).1,
            carried_out(
                old(self).user_input,
                final(self).user_input,
                app_key_plan(
                    old(self).mode,
                    input,
                    old(self).user_input.cursor_before_line_end(),
                    old(self).user_input.cursor_can_replace(),
                ).0,
            ),
            final(self).mode == old(self).mode,
            final(self).running == old(self).running,
            final(self).messages@ == old(self).messages@,
            old(self).cursor_matches_mode() ==> final(self).cursor_matches_mode(),
            (is_quit_key(input) || input.key == Key::Esc) ==> final(self).user_input == old(self).user_input,
    {
        let ghost before = self.user_input.editor();
        let ghost plan = app_key_plan(
            self.mode,
            input,
            self.user_input.cursor_before_line_end(),
            self.user_input.cursor_can_replace(),
        );
        let ev = match input.key {
            Key::Char(c) if (c == 'c' || c == 'C') && input.ctrl && !input.alt && !input.shift
                && !input.extra_modifiers => AppEvent::Quit,
            Key::Esc => AppEvent::NormalMode,
            _ => {
                let mode = self.mode;
                self.user_input.handle_key_event(&mode, input)
            },
        };
        proof {
            lemma_key_plans_set_no_style(
                old(self).mode,
                input,
                old(self).user_input.cursor_before_line_end(),
                old(self).user_input.cursor_can_replace(),
            );
            lemma_plan_frame(before, plan.0, self.user_input.editor());
        }
        ev
    }

    /// Handles an event that a key press asked for.
    pub fn handle_app_event(&mut self, ev: AppEvent)
        ensures
            final(self).mode == mode_after(old(self).mode, ev),
            final(self).running == running_after(old(self).running, ev),
            ev != AppEvent::Submit ==> {
                &&& carried_out(old(self).user_input, final(self).user_input, event_ops(old(self).mode, ev))
                &&& final(self).user_input.text() == old(self).user_input.text()
                &&& final(self).user_input.editor().cursor == old(self).user_input.editor().cursor
                &&& final(self).messages@ == old(self).messages@
            },
            ev == AppEvent::Submit ==> {
                &&& final(self).messages@.len() == old(self).messages@.len() + 1
                &&& final(self).messages@.take(old(self).messages@.len() as int) == old(self).messages@
                &&& final(self).messages@.last().editor() == (EditorView {
                    cursor_style: Some(CursorStyle::Plain),
                    ..old(self).user_input.editor()
                })
                &&& final(self).messages@.last().state == old(self).user_input.state
                &&& final(self).messages@.last().access == old(self).user_input.access
                &&& fresh_normal_input(final(self).user_input)
            },
            old(self).cursor_matches_mode() ==> final(self).cursor_matches_mode(),
    {
        let ghost v0 = self.user_input.editor();
        let ghost old_mode = self.mode;
        match ev {
            AppEvent::NormalMode => {
                self.change_mode(Mode::Normal);
                let ghost v1 = self.user_input.editor();
                self.user_input.cancel_selection();
                proof {
                    let set = TextOp::SetCursorStyle(CursorStyle::Reversed(mode_color(Mode::Normal)));
                    lemma_plan_one(v0, set, v1);
                    lemma_plan_push(v0, seq![set], v1, TextOp::CancelSelection, self.user_input.editor());
                }
            },
            AppEvent::InsertMode => {
                self.change_mode(Mode::Insert);
                let ghost v1 = self.user_input.editor();
                self.user_input.cancel_selection();
                proof {
                    let set = TextOp::SetCursorStyle(CursorStyle::Reversed(mode_color(Mode::Insert)));
                    lemma_plan_one(v0, set, v1);
                    lemma_plan_push(v0, seq![set], v1, TextOp::CancelSelection, self.user_input.editor());
                }
            },
            AppEvent::VisualMode => {
                self.change_mode(Mode::Visual);
                let ghost v1 = self.user_input.editor();
                self.user_input.start_selection();
                proof {
                    let set = TextOp::SetCursorStyle(CursorStyle::Reversed(mode_color(Mode::Visual)));
                    lemma_plan_one(v0, set, v1);
                    lemma_plan_push(v0, seq![set], v1, TextOp::StartSelection, self.user_input.editor());
                }
            },
            AppEvent::ReplaceMode(keep) => {
                self.change_mode(Mode::Replace(keep));
                let ghost v1 = self.user_input.editor();
                self.user_input.cancel_selection();
                proof {
                    let set = TextOp::SetCursorStyle(CursorStyle::Reversed(mode_color(Mode::Replace(keep))));
                    lemma_plan_one(v0, set, v1);
                    lemma_plan_push(v0, seq![set], v1, TextOp::CancelSelection, self.user_input.editor());
                }
            },
            AppEvent::OperationMode(op) => {
                self.change_mode(Mode::Operator(op));
                proof {
                    let set = TextOp::SetCursorStyle(CursorStyle::Reversed(mode_color(Mode::Operator(op))));
                    lemma_plan_one(v0, set, self.user_input.editor());
                }
            },
            AppEvent::Submit => {
                self.user_input.clear_cursor_style();
                let mut submitted = Message::new();
                std::mem::swap(&mut submitted, &mut self.user_input);
                self.messages.push(submitted);
                self.change_mode(Mode::Normal);
            },
            AppEvent::Quit => self.quit(),
            AppEvent::NoOp => {},
        }
        proof {
            let ops = event_ops(old_mode, ev);
            let v = self.user_input.editor();
            if ev != AppEvent::Submit {
                assert forall|i: int| 0 <= i < ops.len() implies crate::message::keeps_text_and_cursor(
                    #[trigger] ops[i],
                ) by {
                    if ops.len() == 2 {
                        assert(i == 0 || i == 1);
                    }
                }
                lemma_plan_frame(v0, ops, v);
                if ops.len() > 0 {
                    let style = CursorStyle::Reversed(mode_color(mode_after(old_mode, ev)));
                    assert(ops =~= seq![TextOp::SetCursorStyle(style)] + ops.drop_first());
                    lemma_plan_style_set_first(v0, style, ops.drop_first(), v);
                }
            }
        }
    }

    /// Switches to a mode and draws the input's cursor in its style.
    fn change_mode(&mut self, mode: Mode)
        ensures
            final(self).mode == mode,
            final(self).running == old(self).running,
            final(self).messages@ == old(self).messages@,
            final(self).user_input.editor() == (EditorView {
                cursor_style: Some(CursorStyle::Reversed(mode_color(mode))),
                ..old(self).user_input.editor()
            }),
            final(self).user_input.state == old(self).user_input.state,
            final(self).user_input.access == old(self).user_input.access,
            textarea_word_wrap(final(self).user_input.textarea) == textarea_word_wrap(
                old(self).user_input.textarea,
            ),
            textarea_cursor_line_highlighted(final(self).user_input.textarea)
                == textarea_cursor_line_highlighted(old(self).user_input.textarea),
    {
        self.mode = mode;
        let style = self.mode.cursor_style();
        self.user_input.set_cursor_style(style);
    }

    /// The periodic tick. Nothing is updated on it.
    pub fn tick(&self) {
    }

    /// Stops the application.
    pub fn quit(&mut self)
        ensures
            !final(self).running,
            final(self).mode == old(self).mode,
            final(self).user_input == old(self).user_input,
            final(self).messages@ == old(self).messages@,
            old(self).cursor_matches_mode() ==> final(self).cursor_matches_mode(),
    {
        self.running = false;
    }
}

} // verus!
