use shellshop::app::{skip_pending_keys, App, Color, Palette, TabBody};
use shellshop::keys::{KeyCode, KeyEvent, KeyModifiers};

fn key(code: KeyCode) -> KeyEvent {
    KeyEvent { code, modifiers: KeyModifiers::none() }
}

fn press(app: &mut App, code: KeyCode) {
    app.handle_key(code, KeyModifiers::none());
}

#[test]
fn new_session_starts_on_account_tab() {
    let app = App::new(100, 30);
    assert_eq!(app.cols(), 100);
    assert_eq!(app.rows(), 30);
    assert_eq!(app.selected_tab(), 0);
    assert_eq!(app.selected_account(), 0);
    assert!(!app.is_light_mode());
    assert_eq!(app.tab_body(), TabBody::AccountMenu);
}

#[test]
fn arrows_cycle_tabs() {
    let mut app = App::new(80, 24);
    press(&mut app, KeyCode::Right);
    assert_eq!(app.selected_tab(), 1);
    press(&mut app, KeyCode::Right);
    press(&mut app, KeyCode::Right);
    assert_eq!(app.selected_tab(), 3);
    press(&mut app, KeyCode::Right);
    assert_eq!(app.selected_tab(), 0);
    press(&mut app, KeyCode::Left);
    assert_eq!(app.selected_tab(), 3);
    press(&mut app, KeyCode::Right);
    assert_eq!(app.selected_tab(), 0);
}

#[test]
fn letters_jump_to_tabs() {
    let mut app = App::new(80, 24);
    press(&mut app, KeyCode::Char('s'));
    assert_eq!(app.selected_tab(), 2);
    assert_eq!(app.tab_body(), TabBody::Shop);
    press(&mut app, KeyCode::Char('h'));
    assert_eq!(app.selected_tab(), 3);
    assert_eq!(app.tab_body(), TabBody::Help);
    press(&mut app, KeyCode::Char('c'));
    assert_eq!(app.selected_tab(), 1);
    assert_eq!(app.tab_body(), TabBody::Cart);
    press(&mut app, KeyCode::Char('a'));
    assert_eq!(app.selected_tab(), 0);
    assert_eq!(app.selected_account(), 0);
}

#[test]
fn control_c_does_not_open_cart() {
    let mut app = App::new(80, 24);
    app.handle_key(KeyCode::Char('c'), KeyModifiers::control());
    assert_eq!(app.selected_tab(), 0);
}

#[test]
fn account_menu_wraps() {
    let mut app = App::new(80, 24);
    press(&mut app, KeyCode::Char('a'));
    assert_eq!(app.selected_account(), 5);
    press(&mut app, KeyCode::Char('d'));
    assert_eq!(app.selected_account(), 0);
    for _ in 0..5 {
        press(&mut app, KeyCode::Char('d'));
    }
    assert_eq!(app.selected_account(), 5);
    press(&mut app, KeyCode::Char('a'));
    assert_eq!(app.selected_account(), 4);
}

#[test]
fn account_keys_do_nothing_elsewhere() {
    let mut app = App::new(80, 24);
    press(&mut app, KeyCode::Char('s'));
    press(&mut app, KeyCode::Char('d'));
    assert_eq!(app.selected_account(), 0);
    assert_eq!(app.selected_tab(), 2);
}

#[test]
fn enter_on_dark_light_toggles_theme() {
    let mut app = App::new(80, 24);
    press(&mut app, KeyCode::Enter);
    assert!(!app.is_light_mode());
    press(&mut app, KeyCode::Char('a'));
    press(&mut app, KeyCode::Enter);
    assert!(app.is_light_mode());
    assert_eq!(app.palette(), Palette { bg: Color::White, fg: Color::Black });
    press(&mut app, KeyCode::Enter);
    assert!(!app.is_light_mode());
    assert_eq!(app.palette(), Palette { bg: Color::Reset, fg: Color::White });
}

#[test]
fn enter_elsewhere_keeps_theme() {
    let mut app = App::new(80, 24);
    press(&mut app, KeyCode::Char('a'));
    press(&mut app, KeyCode::Char('h'));
    press(&mut app, KeyCode::Enter);
    assert!(!app.is_light_mode());
}

#[test]
fn other_keys_change_nothing() {
    let mut app = App::new(80, 24);
    press(&mut app, KeyCode::Other);
    press(&mut app, KeyCode::Up);
    press(&mut app, KeyCode::Char('z'));
    assert_eq!(app.selected_tab(), 0);
    assert_eq!(app.selected_account(), 0);
}

#[test]
fn process_key_reports_quit() {
    let mut app = App::new(80, 24);
    assert!(!app.process_key(key(KeyCode::Char('s'))));
    assert_eq!(app.selected_tab(), 2);
    assert!(app.process_key(key(KeyCode::Char('q'))));
    assert_eq!(app.selected_tab(), 2);
    assert!(app.process_key(KeyEvent { code: KeyCode::Char('c'), modifiers: KeyModifiers::control() }));
}

#[test]
fn process_input_applies_keys_in_order() {
    let mut app = App::new(80, 24);
    let mut pending = vec![b's', 0x1b, b'[', b'C', b'a', b'd', 0x1b];
    assert!(!app.process_input(&mut pending));
    assert_eq!(app.selected_tab(), 0);
    assert_eq!(app.selected_account(), 1);
    assert_eq!(pending, vec![0x1b]);
}

#[test]
fn process_input_stops_at_quit() {
    let mut app = App::new(80, 24);
    let mut pending = vec![b'h', b'q', b's'];
    assert!(app.process_input(&mut pending));
    assert_eq!(app.selected_tab(), 3);
    assert_eq!(pending, vec![b's']);
}

#[test]
fn input_in_chunks_equals_input_at_once() {
    let mut whole = App::new(80, 24);
    let mut all = vec![b'h', 0x1b, b'[', b'D', b'd'];
    assert!(!whole.process_input(&mut all));

    let mut chunked = App::new(80, 24);
    let mut pending = vec![b'h', 0x1b];
    assert!(!chunked.process_input(&mut pending));
    pending.extend_from_slice(&[b'[', b'D', b'd']);
    assert!(!chunked.process_input(&mut pending));

    assert_eq!(whole.selected_tab(), chunked.selected_tab());
    assert_eq!(whole.selected_account(), chunked.selected_account());
    assert_eq!(whole.selected_tab(), 2);
    assert!(all.is_empty() && pending.is_empty());
}

#[test]
fn splash_input_is_dropped_until_quit() {
    let mut pending = vec![b'a', b'd', 0x03, b'x'];
    assert!(skip_pending_keys(&mut pending));
    assert_eq!(pending, vec![b'x']);
    let mut pending = vec![b'a', b'd', 0x1b, b'['];
    assert!(!skip_pending_keys(&mut pending));
    assert_eq!(pending, vec![0x1b, b'[']);
}

#[test]
fn viewport_follows_dims() {
    let mut app = App::new(80, 24);
    assert!(!app.sync_viewport_from_dims(80, 24));
    assert!(app.sync_viewport_from_dims(120, 24));
    assert_eq!((app.cols(), app.rows()), (120, 24));
    assert!(app.sync_viewport_from_dims(120, 40));
    assert_eq!((app.cols(), app.rows()), (120, 40));
    assert!(!app.sync_viewport_from_dims(120, 40));
}
