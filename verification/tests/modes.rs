use rubberducky::keys::{AppEvent, Key, KeyInput};
use rubberducky::layout::{input_height, message_areas, message_height, screen_layout, Rect};
use rubberducky::message::{Backdrop, Message, State};
use rubberducky::mode::{CursorStyle, Mode, ModeColor};

#[test]
fn labels_of_modes() {
    assert_eq!(Mode::Normal.label(), "NORMAL");
    assert_eq!(Mode::Insert.label(), "INSERT");
    assert_eq!(Mode::Replace(true).label(), "REPLACE");
    assert_eq!(Mode::Replace(false).label(), "REPLACE");
    assert_eq!(Mode::Visual.label(), "VISUAL");
    assert_eq!(Mode::Operator('y').label(), "O-PENDING(y)");
    assert_eq!(Mode::Operator('é').label(), "O-PENDING(é)");
}

#[test]
fn colours_and_cursors_of_modes() {
    assert_eq!(Mode::Normal.color(), ModeColor::Reset);
    assert_eq!(Mode::Insert.color(), ModeColor::LightBlue);
    assert_eq!(Mode::Replace(false).color(), ModeColor::LightRed);
    assert_eq!(Mode::Visual.color(), ModeColor::LightYellow);
    assert_eq!(Mode::Operator('d').color(), ModeColor::LightGreen);
    assert_eq!(Mode::Insert.cursor_style(), CursorStyle::Reversed(ModeColor::LightBlue));
    assert_eq!(Mode::Normal.cursor_style(), CursorStyle::Reversed(ModeColor::Reset));
}

#[test]
fn help_of_modes() {
    assert_eq!(Mode::Normal.help(), "type q to quit, type i to enter insert mode");
    assert_eq!(Mode::Insert.help(), "type Esc to back to normal mode");
    assert_eq!(Mode::Replace(true).help(), "type Esc to back to normal mode");
    assert_eq!(
        Mode::Visual.help(),
        "type y to yank, type d to delete, type Esc to back to normal mode"
    );
    assert_eq!(Mode::Operator('c').help(), "move cursor to apply operator");
}

#[test]
fn focus_and_unfocus() {
    let mut m = Message::new();
    assert_eq!(m.state, State::FocusedInput);
    m.focus();
    assert_eq!(m.state, State::FocusedInput);
    m.unfocus();
    assert_eq!(m.state, State::UnfocusedInput);
    m.unfocus();
    assert_eq!(m.state, State::UnfocusedInput);
    m.focus();
    assert_eq!(m.state, State::FocusedInput);
    m.state = State::FocusedOutput;
    m.unfocus();
    assert_eq!(m.state, State::UnfocusedOutput);
    m.focus();
    assert_eq!(m.state, State::FocusedOutput);
}

#[test]
fn new_message_has_one_empty_line() {
    let m = Message::new();
    assert_eq!(m.num_lines(), 1);
    assert_eq!(m.textarea.area.lines(), [""]);
    assert_eq!(m.textarea.area.cursor(), (0, 0));
    let d = Message::default();
    assert_eq!(d.num_lines(), 1);
}

#[test]
fn write_access_does_not_touch_text() {
    let mut m = Message::new();
    m.grant_write_access();
    m.revoke_write_access();
    assert_eq!(m.textarea.area.lines(), [""]);
}

#[test]
fn input_heights_are_clamped() {
    assert_eq!(input_height(0), 5);
    assert_eq!(input_height(1), 5);
    assert_eq!(input_height(5), 5);
    assert_eq!(input_height(7), 7);
    assert_eq!(input_height(12), 12);
    assert_eq!(input_height(13), 12);
    assert_eq!(input_height(1000), 12);
    // the count is taken as a u16 first: 65536 lines wrap to 0 rows
    assert_eq!(input_height(65536), 5);
    assert_eq!(input_height(65536 + 8), 8);
}

#[test]
fn message_heights_add_padding() {
    assert_eq!(message_height(0), 2);
    assert_eq!(message_height(1), 3);
    assert_eq!(message_height(10), 12);
    assert_eq!(message_height(65534), 0);
}

#[test]
fn key_inputs() {
    let k = KeyInput::plain(Key::Char('a'));
    assert!(!k.ctrl && !k.alt && !k.shift);
    let c = KeyInput::with_ctrl(Key::Char('c'));
    assert!(c.ctrl && !c.alt && !c.shift);
    assert_ne!(AppEvent::ReplaceMode(true), AppEvent::ReplaceMode(false));
}

#[test]
fn carets_and_backdrops() {
    assert_eq!(State::FocusedInput.caret(), ">");
    assert_eq!(State::UnfocusedInput.caret(), ">");
    assert_eq!(State::FocusedOutput.caret(), "●");
    assert_eq!(State::UnfocusedOutput.caret(), "✓");
    assert_eq!(State::FocusedInput.backdrop(), Backdrop::Black);
    assert_eq!(State::UnfocusedInput.backdrop(), Backdrop::DarkGray);
    assert_eq!(State::FocusedOutput.backdrop(), Backdrop::Plain);
    assert_eq!(State::UnfocusedOutput.backdrop(), Backdrop::Plain);
}

#[test]
fn screen_layout_of_a_wide_terminal() {
    let area = Rect { x: 0, y: 0, width: 200, height: 50 };
    let s = screen_layout(area, 1, &vec![1, 3]);
    assert_eq!(s.title, Rect { x: 40, y: 0, width: 120, height: 2 });
    assert_eq!(s.input, Rect { x: 40, y: 44, width: 120, height: 5 });
    assert_eq!(s.status, Rect { x: 40, y: 49, width: 120, height: 1 });
    assert_eq!(s.messages.len(), 2);
    assert_eq!(s.messages[0], Rect { x: 40, y: 2, width: 120, height: 3 });
    assert_eq!(s.messages[1], Rect { x: 40, y: 5, width: 120, height: 5 });
}

#[test]
fn screen_layout_grows_the_input() {
    let area = Rect { x: 0, y: 0, width: 80, height: 30 };
    let s = screen_layout(area, 9, &vec![]);
    assert_eq!(s.title, Rect { x: 0, y: 0, width: 80, height: 2 });
    assert_eq!(s.input, Rect { x: 0, y: 20, width: 80, height: 9 });
    assert_eq!(s.status, Rect { x: 0, y: 29, width: 80, height: 1 });
    assert!(s.messages.is_empty());
    let s = screen_layout(area, 40, &vec![]);
    assert_eq!(s.input.height, 12);
}

#[test]
fn message_area_has_a_caret_column() {
    let (caret, text) = message_areas(Rect { x: 10, y: 4, width: 50, height: 3 });
    assert_eq!(caret, Rect { x: 10, y: 4, width: 3, height: 3 });
    assert_eq!(text, Rect { x: 13, y: 4, width: 47, height: 3 });
}
