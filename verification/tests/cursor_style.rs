use ratatui::style::{Color, Modifier, Style};
use rubberducky::app::App;
use rubberducky::keys::{AppEvent, Key, KeyInput};
use rubberducky::mode::Mode;

fn reversed(color: Color) -> Style {
    Style::default().fg(color).add_modifier(Modifier::REVERSED)
}

fn press(app: &mut App, input: KeyInput) {
    let ev = app.handle_key_events(input);
    app.handle_app_event(ev);
}

#[test]
fn cursor_follows_the_mode() {
    let mut app = App::new();
    press(&mut app, KeyInput::plain(Key::Char('i')));
    assert_eq!(app.user_input.textarea.area.cursor_style(), reversed(Color::LightBlue));
    press(&mut app, KeyInput::plain(Key::Esc));
    assert_eq!(app.user_input.textarea.area.cursor_style(), reversed(Color::Reset));
    press(&mut app, KeyInput::plain(Key::Char('v')));
    assert_eq!(app.user_input.textarea.area.cursor_style(), reversed(Color::LightYellow));
    assert!(app.user_input.textarea.area.is_selecting());
    press(&mut app, KeyInput::plain(Key::Esc));
    assert!(!app.user_input.textarea.area.is_selecting());
    press(&mut app, KeyInput::plain(Key::Char('R')));
    assert_eq!(app.user_input.textarea.area.cursor_style(), reversed(Color::LightRed));
    press(&mut app, KeyInput::plain(Key::Esc));
    press(&mut app, KeyInput::plain(Key::Char('d')));
    assert_eq!(app.user_input.textarea.area.cursor_style(), reversed(Color::LightGreen));
}

#[test]
fn submitted_messages_lose_their_cursor() {
    let mut app = App::new();
    press(&mut app, KeyInput::plain(Key::Char('i')));
    press(&mut app, KeyInput::plain(Key::Char('x')));
    press(&mut app, KeyInput::plain(Key::Esc));
    press(&mut app, KeyInput::plain(Key::Enter));
    assert_eq!(app.messages[0].textarea.area.cursor_style(), Style::default());
    assert_eq!(app.user_input.textarea.area.cursor_style(), reversed(Color::Reset));
    assert_eq!(app.mode, Mode::Normal);
}

#[test]
fn idle_events_change_nothing() {
    let mut app = App::new();
    press(&mut app, KeyInput::plain(Key::Char('i')));
    app.handle_app_event(AppEvent::NoOp);
    assert_eq!(app.mode, Mode::Insert);
    assert!(app.running);
    assert_eq!(app.user_input.textarea.area.cursor_style(), reversed(Color::LightBlue));
    app.handle_app_event(AppEvent::Quit);
    assert_eq!(app.mode, Mode::Insert);
    assert!(!app.running);
}
