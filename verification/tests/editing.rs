use rubberducky::app::App;
use rubberducky::keys::{AppEvent, Key, KeyInput};
use rubberducky::message::Message;
use rubberducky::mode::Mode;

fn key(c: char) -> KeyInput {
    KeyInput::plain(Key::Char(c))
}

fn press(app: &mut App, input: KeyInput) -> AppEvent {
    let ev = app.handle_key_events(input);
    app.handle_app_event(ev);
    ev
}

fn type_str(app: &mut App, s: &str) {
    for c in s.chars() {
        press(app, key(c));
    }
}

fn text(app: &App) -> Vec<String> {
    app.user_input.textarea.area.lines().to_vec()
}

fn cursor(app: &App) -> (usize, usize) {
    let c = app.user_input.textarea.area.cursor();
    (c.0, c.1)
}

#[test]
fn new_app_starts_in_normal_mode() {
    let app = App::new();
    assert!(app.running);
    assert_eq!(app.mode, Mode::Normal);
    assert!(app.messages.is_empty());
    assert_eq!(app.user_input.num_lines(), 1);
    let d = App::default();
    assert!(d.running);
    d.tick();
}

#[test]
fn typing_in_insert_mode() {
    let mut app = App::new();
    assert_eq!(press(&mut app, key('i')), AppEvent::InsertMode);
    assert_eq!(app.mode, Mode::Insert);
    type_str(&mut app, "hello");
    assert_eq!(text(&app), ["hello"]);
    // keys that are commands in normal mode are plain text here
    type_str(&mut app, " q");
    assert_eq!(text(&app), ["hello q"]);
    assert!(app.running);
    press(&mut app, KeyInput::plain(Key::Enter));
    assert_eq!(text(&app), ["hello q", ""]);
    press(&mut app, KeyInput::plain(Key::Backspace));
    assert_eq!(text(&app), ["hello q"]);
    assert_eq!(app.mode, Mode::Insert);
}

#[test]
fn escape_returns_to_normal_mode() {
    for start in ['i', 'v', 'r', 'R', 'd'] {
        let mut app = App::new();
        press(&mut app, key(start));
        assert_ne!(app.mode, Mode::Normal);
        assert_eq!(press(&mut app, KeyInput::plain(Key::Esc)), AppEvent::NormalMode);
        assert_eq!(app.mode, Mode::Normal);
        assert!(app.running);
    }
}

#[test]
fn control_c_quits_from_every_mode() {
    for start in ['i', 'v', 'r', 'y'] {
        let mut app = App::new();
        press(&mut app, key(start));
        let mode = app.mode;
        assert_eq!(press(&mut app, KeyInput::with_ctrl(Key::Char('c'))), AppEvent::Quit);
        assert!(!app.running);
        assert_eq!(app.mode, mode);
    }
    let mut app = App::new();
    press(&mut app, KeyInput::with_ctrl(Key::Char('C')));
    assert!(!app.running);
    // with Alt held as well it is not the quit key
    let mut app = App::new();
    press(&mut app, key('i'));
    let mut alt_c = KeyInput::with_ctrl(Key::Char('c'));
    alt_c.alt = true;
    press(&mut app, alt_c);
    assert!(app.running);
    // nor with Super, Hyper or Meta held
    let mut super_c = KeyInput::with_ctrl(Key::Char('c'));
    super_c.extra_modifiers = true;
    press(&mut app, super_c);
    assert!(app.running);
}

#[test]
fn q_quits_in_normal_mode() {
    let mut app = App::new();
    assert_eq!(press(&mut app, key('q')), AppEvent::Quit);
    assert!(!app.running);
    app.quit();
    assert!(!app.running);
}

#[test]
fn submit_moves_input_to_messages() {
    let mut app = App::new();
    press(&mut app, key('i'));
    type_str(&mut app, "hi");
    press(&mut app, KeyInput::plain(Key::Esc));
    assert_eq!(press(&mut app, KeyInput::plain(Key::Enter)), AppEvent::Submit);
    assert_eq!(app.messages.len(), 1);
    assert_eq!(app.messages[0].textarea.area.lines(), ["hi"]);
    assert_eq!(text(&app), [""]);
    assert_eq!(app.mode, Mode::Normal);
    press(&mut app, key('i'));
    type_str(&mut app, "there");
    press(&mut app, KeyInput::plain(Key::Esc));
    press(&mut app, KeyInput::plain(Key::Enter));
    assert_eq!(app.messages.len(), 2);
    assert_eq!(app.messages[0].textarea.area.lines(), ["hi"]);
    assert_eq!(app.messages[1].textarea.area.lines(), ["there"]);
}

#[test]
fn x_and_capital_x_delete() {
    let mut app = App::new();
    press(&mut app, key('i'));
    type_str(&mut app, "abcd");
    press(&mut app, KeyInput::plain(Key::Esc));
    // cursor after 'd'; X deletes the character before it
    assert_eq!(press(&mut app, key('X')), AppEvent::NoOp);
    assert_eq!(text(&app), ["abc"]);
    press(&mut app, key('^'));
    assert_eq!(cursor(&app), (0, 0));
    press(&mut app, key('x'));
    assert_eq!(text(&app), ["bc"]);
    press(&mut app, key('u'));
    assert_eq!(text(&app), ["abc"]);
    press(&mut app, KeyInput::with_ctrl(Key::Char('r')));
    assert_eq!(text(&app), ["bc"]);
    assert_eq!(app.mode, Mode::Normal);
}

#[test]
fn append_moves_after_cursor_only_before_line_end() {
    let mut app = App::new();
    press(&mut app, key('i'));
    type_str(&mut app, "abc");
    press(&mut app, KeyInput::plain(Key::Esc));
    press(&mut app, key('^'));
    assert_eq!(press(&mut app, key('a')), AppEvent::InsertMode);
    assert_eq!(cursor(&app), (0, 1));
    press(&mut app, KeyInput::plain(Key::Esc));
    press(&mut app, key('$'));
    assert_eq!(cursor(&app), (0, 3));
    press(&mut app, key('a'));
    assert_eq!(cursor(&app), (0, 3));
    type_str(&mut app, "d");
    assert_eq!(text(&app), ["abcd"]);
}

#[test]
fn open_line_below_and_above() {
    let mut app = App::new();
    press(&mut app, key('i'));
    type_str(&mut app, "mid");
    press(&mut app, KeyInput::plain(Key::Esc));
    press(&mut app, key('o'));
    assert_eq!(app.mode, Mode::Insert);
    type_str(&mut app, "low");
    press(&mut app, KeyInput::plain(Key::Esc));
    press(&mut app, key('k'));
    press(&mut app, key('O'));
    type_str(&mut app, "top");
    assert_eq!(text(&app), ["top", "mid", "low"]);
    press(&mut app, KeyInput::plain(Key::Esc));
    press(&mut app, key('A'));
    assert_eq!(cursor(&app), (0, 3));
    press(&mut app, KeyInput::plain(Key::Esc));
    press(&mut app, key('I'));
    assert_eq!(cursor(&app), (0, 0));
}

#[test]
fn single_replace() {
    let mut app = App::new();
    press(&mut app, key('i'));
    type_str(&mut app, "cat");
    press(&mut app, KeyInput::plain(Key::Esc));
    press(&mut app, key('^'));
    assert_eq!(press(&mut app, key('r')), AppEvent::ReplaceMode(false));
    assert_eq!(app.mode, Mode::Replace(false));
    assert_eq!(press(&mut app, key('b')), AppEvent::NormalMode);
    assert_eq!(text(&app), ["bat"]);
    assert_eq!(app.mode, Mode::Normal);
}

#[test]
fn continuous_replace() {
    let mut app = App::new();
    press(&mut app, key('i'));
    type_str(&mut app, "abc");
    press(&mut app, KeyInput::plain(Key::Esc));
    press(&mut app, key('^'));
    assert_eq!(press(&mut app, key('R')), AppEvent::ReplaceMode(true));
    type_str(&mut app, "xy");
    assert_eq!(app.mode, Mode::Replace(true));
    assert_eq!(text(&app), ["xyc"]);
    // the last character of the line is replaced too
    type_str(&mut app, "z");
    assert_eq!(text(&app), ["xyz"]);
    // at the very end of the line a character is added
    type_str(&mut app, "w");
    assert_eq!(text(&app), ["xyzw"]);
    press(&mut app, KeyInput::plain(Key::Esc));
    press(&mut app, key('$'));
    press(&mut app, key('R'));
    type_str(&mut app, "d");
    assert_eq!(text(&app), ["xyzwd"]);
    // a key that is not a character does nothing
    press(&mut app, KeyInput::plain(Key::Tab));
    assert_eq!(text(&app), ["xyzwd"]);
    press(&mut app, KeyInput::plain(Key::Esc));
    assert_eq!(app.mode, Mode::Normal);
}

#[test]
fn delete_whole_line_with_dd_and_paste() {
    let mut app = App::new();
    press(&mut app, key('i'));
    type_str(&mut app, "one two");
    press(&mut app, KeyInput::plain(Key::Esc));
    assert_eq!(press(&mut app, key('d')), AppEvent::OperationMode('d'));
    assert_eq!(app.mode, Mode::Operator('d'));
    assert_eq!(app.mode.label(), "O-PENDING(d)");
    assert_eq!(press(&mut app, key('d')), AppEvent::NormalMode);
    assert_eq!(text(&app), [""]);
    assert_eq!(app.mode, Mode::Normal);
    press(&mut app, key('p'));
    assert_eq!(text(&app), ["one two"]);
}

#[test]
fn change_word_goes_to_insert() {
    let mut app = App::new();
    press(&mut app, key('i'));
    type_str(&mut app, "one two");
    press(&mut app, KeyInput::plain(Key::Esc));
    press(&mut app, key('^'));
    press(&mut app, key('c'));
    assert_eq!(press(&mut app, key('w')), AppEvent::InsertMode);
    assert_eq!(app.mode, Mode::Insert);
    assert_eq!(text(&app), ["two"]);
    type_str(&mut app, "six ");
    assert_eq!(text(&app), ["six two"]);
}

#[test]
fn yank_word_then_paste() {
    let mut app = App::new();
    press(&mut app, key('i'));
    type_str(&mut app, "ab cd");
    press(&mut app, KeyInput::plain(Key::Esc));
    press(&mut app, key('^'));
    press(&mut app, key('y'));
    assert_eq!(press(&mut app, key('w')), AppEvent::NormalMode);
    assert_eq!(text(&app), ["ab cd"]);
    press(&mut app, key('$'));
    press(&mut app, key('p'));
    assert_eq!(text(&app), ["ab cdab "]);
}

#[test]
fn visual_select_and_delete() {
    let mut app = App::new();
    press(&mut app, key('i'));
    type_str(&mut app, "hello");
    press(&mut app, KeyInput::plain(Key::Esc));
    press(&mut app, key('^'));
    assert_eq!(press(&mut app, key('v')), AppEvent::VisualMode);
    assert_eq!(app.mode, Mode::Visual);
    press(&mut app, key('l'));
    press(&mut app, key('l'));
    assert_eq!(press(&mut app, key('d')), AppEvent::NormalMode);
    assert_eq!(text(&app), ["llo"]);
    assert_eq!(app.mode, Mode::Normal);
}

#[test]
fn visual_leaves_with_v_or_u() {
    let mut app = App::new();
    press(&mut app, key('v'));
    assert_eq!(press(&mut app, key('v')), AppEvent::NormalMode);
    assert_eq!(app.mode, Mode::Normal);
    press(&mut app, key('v'));
    assert_eq!(press(&mut app, key('U')), AppEvent::NormalMode);
    assert_eq!(app.mode, Mode::Normal);
    press(&mut app, key('v'));
    assert_eq!(press(&mut app, key('z')), AppEvent::NoOp);
    assert_eq!(app.mode, Mode::Visual);
}

#[test]
fn traversal_keys_move_the_cursor() {
    let mut app = App::new();
    press(&mut app, key('i'));
    type_str(&mut app, "one two");
    press(&mut app, KeyInput::plain(Key::Enter));
    type_str(&mut app, "three");
    press(&mut app, KeyInput::plain(Key::Esc));
    assert_eq!(cursor(&app), (1, 5));
    press(&mut app, key('h'));
    assert_eq!(cursor(&app), (1, 4));
    press(&mut app, key('k'));
    assert_eq!(cursor(&app), (0, 4));
    press(&mut app, key('_'));
    assert_eq!(cursor(&app), (0, 0));
    press(&mut app, key('w'));
    assert_eq!(cursor(&app), (0, 4));
    press(&mut app, key('b'));
    assert_eq!(cursor(&app), (0, 0));
    press(&mut app, key('e'));
    assert_eq!(cursor(&app), (0, 2));
    press(&mut app, key('l'));
    assert_eq!(cursor(&app), (0, 3));
    press(&mut app, key('j'));
    assert_eq!(cursor(&app), (1, 3));
    press(&mut app, key('$'));
    assert_eq!(cursor(&app), (1, 5));
    // keys without a meaning in normal mode do nothing
    assert_eq!(press(&mut app, key('z')), AppEvent::NoOp);
    assert_eq!(press(&mut app, KeyInput::plain(Key::Tab)), AppEvent::NoOp);
    assert_eq!(cursor(&app), (1, 5));
    assert_eq!(text(&app), ["one two", "three"]);
}

#[test]
fn message_handles_keys_by_mode() {
    let mut m = Message::new();
    assert_eq!(m.handle_key_event(&Mode::Normal, key('i')), AppEvent::InsertMode);
    assert_eq!(m.handle_key_event(&Mode::Insert, key('q')), AppEvent::NoOp);
    assert_eq!(m.textarea.area.lines(), ["q"]);
    assert_eq!(m.handle_key_event(&Mode::Normal, key('R')), AppEvent::ReplaceMode(true));
    assert_eq!(m.handle_key_event(&Mode::Normal, key('y')), AppEvent::OperationMode('y'));
    assert_eq!(m.handle_key_event(&Mode::Operator('z'), key('h')), AppEvent::NoOp);
    assert_eq!(m.handle_key_event(&Mode::Normal, KeyInput::plain(Key::Enter)), AppEvent::Submit);
    assert_eq!(m.handle_key_event(&Mode::Visual, key('p')), AppEvent::NormalMode);
}

#[test]
fn multibyte_line_end_for_append() {
    // The line end test counts bytes: with "éé" (4 bytes) the cursor at the
    // last character (column 1) still counts as before the end.
    let mut app = App::new();
    press(&mut app, key('i'));
    type_str(&mut app, "éé");
    press(&mut app, KeyInput::plain(Key::Esc));
    press(&mut app, key('h'));
    assert_eq!(cursor(&app), (0, 1));
    press(&mut app, key('a'));
    assert_eq!(cursor(&app), (0, 2));
}

#[test]
fn selection_and_cursor_style_commands() {
    let mut m = Message::new();
    m.start_selection();
    m.cancel_selection();
    m.set_cursor_style(Mode::Insert.cursor_style());
    m.clear_cursor_style();
    assert_eq!(m.textarea.area.lines(), [""]);
}
