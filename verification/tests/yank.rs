use ratatui::style::{Color, Style};
use ratatui::widgets::{Block, Padding};
use rubberducky::app::App;
use rubberducky::keys::{AppEvent, Key, KeyInput};
use rubberducky::message::{MESSAGE_PADDING, Message};
use rubberducky::mode::Mode;

fn key(c: char) -> KeyInput {
    KeyInput::plain(Key::Char(c))
}

fn esc() -> KeyInput {
    KeyInput::plain(Key::Esc)
}

fn press(app: &mut App, input: KeyInput) -> AppEvent {
    let ev = app.handle_key_events(input);
    app.handle_app_event(ev);
    ev
}

fn type_str(app: &mut App, s: &str) {
    for c in s.chars() {
        press(app, key(c));
    }
}

fn keys(app: &mut App, s: &str) {
    type_str(app, s)
}

/// An application whose input holds `text` (lines split at '\n'), back in
/// normal mode with the cursor at the end.
fn app_with(text: &str) -> App {
    let mut app = App::new();
    press(&mut app, key('i'));
    for c in text.chars() {
        if c == '\n' {
            press(&mut app, KeyInput::plain(Key::Enter));
        } else {
            press(&mut app, key(c));
        }
    }
    press(&mut app, esc());
    app
}

fn text(app: &App) -> Vec<String> {
    app.user_input.textarea.area.lines().to_vec()
}

fn cursor(app: &App) -> (usize, usize) {
    let c = app.user_input.textarea.area.cursor();
    (c.0, c.1)
}

fn yank(app: &App) -> String {
    app.user_input.textarea.area.yank_text()
}

#[test]
fn replace_on_last_character() {
    let mut app = app_with("abc");
    keys(&mut app, "^ll");
    assert_eq!(cursor(&app), (0, 2));
    assert_eq!(press(&mut app, key('r')), AppEvent::ReplaceMode(false));
    assert_eq!(press(&mut app, key('x')), AppEvent::NormalMode);
    assert_eq!(text(&app), ["abx"]);
    assert_eq!(app.mode, Mode::Normal);
}

#[test]
fn replace_on_multibyte_character() {
    let mut app = app_with("aé");
    keys(&mut app, "^l");
    press(&mut app, key('r'));
    press(&mut app, key('o'));
    assert_eq!(text(&app), ["ao"]);
}

#[test]
fn visual_delete_yanks_the_selection() {
    let mut app = app_with("hello");
    keys(&mut app, "^vlll");
    assert_eq!(cursor(&app), (0, 3));
    assert_eq!(press(&mut app, key('d')), AppEvent::NormalMode);
    assert_eq!(text(&app), ["lo"]);
    assert_eq!(yank(&app), "hel");
    assert_eq!(cursor(&app), (0, 0));
}

#[test]
fn visual_yank_copies_the_selection() {
    let mut app = app_with("hello");
    keys(&mut app, "^vll");
    assert_eq!(press(&mut app, key('y')), AppEvent::NormalMode);
    assert_eq!(text(&app), ["hello"]);
    assert_eq!(yank(&app), "he");
    assert_eq!(cursor(&app), (0, 2));
}

#[test]
fn visual_selection_over_two_lines() {
    let mut app = app_with("ab\ncd");
    assert_eq!(cursor(&app), (1, 2));
    keys(&mut app, "kh");
    assert_eq!(cursor(&app), (0, 1));
    keys(&mut app, "vj");
    assert_eq!(cursor(&app), (1, 1));
    assert_eq!(press(&mut app, key('d')), AppEvent::NormalMode);
    assert_eq!(text(&app), ["ad"]);
    assert_eq!(yank(&app), "b\nc");
    assert_eq!(cursor(&app), (0, 1));
    // pasting the chunk splits the line around it
    press(&mut app, key('p'));
    assert_eq!(text(&app), ["ab", "cd"]);
    assert_eq!(cursor(&app), (1, 1));
}

#[test]
fn dd_yanks_the_line() {
    let mut app = app_with("abc\ndef");
    keys(&mut app, "k^l");
    assert_eq!(cursor(&app), (0, 1));
    press(&mut app, key('d'));
    assert_eq!(press(&mut app, key('d')), AppEvent::NormalMode);
    assert_eq!(text(&app), ["", "def"]);
    assert_eq!(yank(&app), "abc");
    assert_eq!(cursor(&app), (0, 0));
}

#[test]
fn dd_on_an_empty_line_keeps_the_yank() {
    let mut app = app_with("ab");
    keys(&mut app, "^yw");
    assert_eq!(yank(&app), "ab");
    keys(&mut app, "dd");
    assert_eq!(text(&app), [""]);
    keys(&mut app, "dd");
    assert_eq!(text(&app), [""]);
    assert_eq!(yank(&app), "ab");
}

#[test]
fn d_w_cuts_to_the_next_word() {
    let mut app = app_with("foo bar");
    press(&mut app, key('^'));
    press(&mut app, key('d'));
    assert_eq!(press(&mut app, key('w')), AppEvent::NormalMode);
    assert_eq!(text(&app), ["bar"]);
    assert_eq!(yank(&app), "foo ");
    assert_eq!(cursor(&app), (0, 0));
}

#[test]
fn capital_o_puts_the_cursor_on_the_new_line() {
    let mut app = app_with("abc\ndef");
    press(&mut app, key('h'));
    assert_eq!(cursor(&app), (1, 2));
    assert_eq!(press(&mut app, key('O')), AppEvent::InsertMode);
    assert_eq!(text(&app), ["abc", "", "def"]);
    assert_eq!(cursor(&app), (1, 0));
}

#[test]
fn undo_after_x_on_multibyte_text() {
    let mut app = app_with("éa");
    press(&mut app, key('^'));
    press(&mut app, key('x'));
    assert_eq!(text(&app), ["a"]);
    press(&mut app, key('u'));
    assert_eq!(text(&app), ["éa"]);
}

#[test]
fn append_on_a_line_with_a_tab() {
    let mut app = app_with("\tb");
    press(&mut app, key('^'));
    assert_eq!(cursor(&app), (0, 0));
    press(&mut app, key('a'));
    assert_eq!(cursor(&app), (0, 1));
}

#[test]
fn cancelling_a_selection_keeps_the_yank() {
    let mut app = app_with("one two");
    keys(&mut app, "^yw");
    assert_eq!(yank(&app), "one ");
    keys(&mut app, "vlv");
    assert_eq!(app.mode, Mode::Normal);
    assert_eq!(yank(&app), "one ");
    app.user_input.start_selection();
    app.user_input.cancel_selection();
    assert_eq!(yank(&app), "one ");
    assert_eq!(text(&app), ["one two"]);
}

#[test]
fn paste_without_yank_changes_nothing() {
    let mut app = app_with("xy");
    press(&mut app, key('p'));
    assert_eq!(text(&app), ["xy"]);
    assert_eq!(yank(&app), "");
}

#[test]
fn framing_keeps_the_text() {
    let mut app = app_with("framed");
    assert!(app.user_input.textarea.area.block().is_none());
    app.user_input.frame();
    assert!(app.user_input.textarea.area.block().is_some());
    assert_eq!(text(&app), ["framed"]);
    assert_eq!(cursor(&app), (0, 6));
}

#[test]
fn framing_follows_the_state() {
    let mut m = Message::new();
    m.frame();
    let expected = Block::default().style(Style::default().bg(Color::Black)).padding(Padding::uniform(1));
    assert_eq!(m.textarea.area.block(), Some(&expected));
    m.unfocus();
    m.frame();
    let expected = Block::default().style(Style::default().bg(Color::DarkGray)).padding(Padding::uniform(1));
    assert_eq!(m.textarea.area.block(), Some(&expected));
    assert_eq!(MESSAGE_PADDING, 1);
}

#[test]
fn replace_at_the_end_of_a_multibyte_line() {
    // Before the line's end counted in bytes, the replace joins the next line
    // and puts the character in, as the column test of the original does.
    let mut app = app_with("éé\nab");
    press(&mut app, key('k'));
    assert_eq!(cursor(&app), (0, 2));
    press(&mut app, key('r'));
    press(&mut app, key('x'));
    assert_eq!(text(&app), ["ééxab"]);
}

#[test]
fn normal_mode_events_depend_on_the_key_alone() {
    let mut m1 = Message::new();
    let mut m2 = Message::new();
    m2.handle_insert_mode(key('z'));
    for c in ['q', 'i', 'a', 'x', 'v', 'r', 'R', 'y', 'u', 'p', 'h'] {
        assert_eq!(m1.handle_normal_mode(key(c)), m2.handle_normal_mode(key(c)));
    }
}
