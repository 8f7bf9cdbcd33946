//! The keymap, driven the way a user presses keys.

use znicz_tui::app::{App, Command, Effect, Focus, Modal, PlayerView, QueueRow};
use znicz_tui::input::{KeyCode, KeyEvent, KeyModifiers};
use znicz_tui::transport::{PlaybackStatus, RepeatMode};

fn player(queue_len: usize) -> PlayerView {
    PlayerView {
        status: PlaybackStatus::Stopped,
        queue: (0..queue_len).map(|_| QueueRow { label_len: 20, is_stream: false }).collect(),
        queue_position: 0,
        muted: false,
        shuffle: false,
        repeat: RepeatMode::Off,
        has_track: false,
        position_secs: 0,
    }
}

/// An app with the queue drawer open and the keys on the queue.
fn queue_app(p: &PlayerView) -> App {
    let mut app = App::new(None, Vec::new());
    app.list_width = 120;
    app.list_height = 30;
    app.on_key(KeyEvent::plain(KeyCode::Char(']')), p);
    assert_eq!(app.focus, Focus::Queue);
    app
}

fn press(app: &mut App, code: KeyCode, p: &PlayerView) -> Vec<Effect> {
    app.on_key(KeyEvent::plain(code), p)
}

fn press_ctrl(app: &mut App, c: char, p: &PlayerView) -> Vec<Effect> {
    app.on_key(KeyEvent::new(KeyCode::Char(c), KeyModifiers::control()), p)
}

#[test]
fn queue_keys_on_an_empty_queue_do_nothing() {
    let p = player(0);
    let mut app = queue_app(&p);
    for key in ['d', 'o'] {
        assert!(press(&mut app, KeyCode::Char(key), &p).is_empty(), "{key} on an empty queue");
    }
    assert!(press(&mut app, KeyCode::Enter, &p).is_empty());
    match &press(&mut app, KeyCode::Char('C'), &p)[..] {
        [Effect::Send(Command::QueueClear, Some(m))] => assert_eq!(m, "queue cleared"),
        other => panic!("got {other:?}"),
    }
    assert_eq!(app.queue_cursor.selected(0), None);
    assert!(!app.should_quit);
}

#[test]
fn navigation_keys_move_the_queue_cursor() {
    let p = player(30);
    let mut app = queue_app(&p);

    press(&mut app, KeyCode::Char('j'), &p);
    press(&mut app, KeyCode::Char('j'), &p);
    assert_eq!(app.queue_cursor.index(), 2);

    press(&mut app, KeyCode::Char('k'), &p);
    assert_eq!(app.queue_cursor.index(), 1);

    press(&mut app, KeyCode::Char('G'), &p);
    assert_eq!(app.queue_cursor.index(), 29, "G goes to the last row");

    press(&mut app, KeyCode::Char('g'), &p);
    assert_eq!(app.queue_cursor.index(), 0, "g goes back to the first");

    press_ctrl(&mut app, 'd', &p);
    assert_eq!(app.queue_cursor.index(), 10, "Ctrl-d jumps a half page");
    press_ctrl(&mut app, 'u', &p);
    assert_eq!(app.queue_cursor.index(), 0);

    press(&mut app, KeyCode::Down, &p);
    assert_eq!(app.queue_cursor.index(), 1);
    press(&mut app, KeyCode::Up, &p);
    assert_eq!(app.queue_cursor.index(), 0);
}

#[test]
fn unbound_keys_are_ignored() {
    let p = player(0);
    let mut app = App::new(None, Vec::new());
    for code in [KeyCode::Char('x'), KeyCode::Char('%'), KeyCode::Other, KeyCode::Other] {
        assert!(press(&mut app, code, &p).is_empty());
    }
    assert!(!app.should_quit);
    assert_eq!(app.modal, Modal::Closed);
    assert_eq!(app.focus, Focus::Library);
}
