//! Concrete instances of the round trips the library promises: moves that
//! undo each other, keys that toggle, and cycles that come back.

use znicz_tui::app::{App, Command, Effect, Focus, Modal, PlayerView, QueueRow};
use znicz_tui::cursor::Cursor;
use znicz_tui::format::{pan, truncate};
use znicz_tui::input::{KeyCode, KeyEvent};
use znicz_tui::library::AlbumSummary;
use znicz_tui::library_pane::LibraryPane;
use znicz_tui::transport::{PlaybackStatus, RepeatMode};

fn player(repeat: RepeatMode) -> PlayerView {
    PlayerView {
        status: PlaybackStatus::Stopped,
        queue: vec![QueueRow { label_len: 10, is_stream: false }],
        queue_position: 0,
        muted: false,
        shuffle: false,
        repeat,
        has_track: false,
        position_secs: 0,
    }
}

fn press(app: &mut App, code: KeyCode, p: &PlayerView) -> Vec<Effect> {
    app.on_key(KeyEvent::plain(code), p)
}

#[test]
fn a_step_back_lands_where_the_step_started() {
    let mut cursor = Cursor::new();
    cursor.set(2, 5);
    cursor.step(4, 5);
    assert_eq!(cursor.selected(5), Some(1), "2 + 4 wraps round to 1");
    cursor.step(-4, 5);
    assert_eq!(cursor.selected(5), Some(2));

    cursor.step(-13, 5);
    assert_eq!(cursor.selected(5), Some(4));
    cursor.step(13, 5);
    assert_eq!(cursor.selected(5), Some(2));
}

#[test]
fn every_move_stays_on_the_list() {
    let mut cursor = Cursor::new();
    for delta in [-100isize, -7, -1, 0, 1, 3, 99] {
        cursor.step(delta, 4);
        assert!(cursor.index() < 4);
        cursor.page(delta, 4);
        assert!(cursor.index() < 4);
    }
}

fn long_album() -> AlbumSummary {
    AlbumSummary { album: "y".repeat(40), album_artist: None, year: None, track_count: 2, total_ms: None }
}

#[test]
fn panning_back_returns_to_the_same_offset() {
    let mut pane = LibraryPane::new(None);
    pane.inject_albums_for_test(vec![long_album()]);
    pane.pan(5, 10, 40);
    assert_eq!(pane.h_offset(), 5);
    pane.pan(3, 10, 40);
    assert_eq!(pane.h_offset(), 8);
    pane.pan(-3, 10, 40);
    assert_eq!(pane.h_offset(), 5);
}

#[test]
fn panning_never_passes_the_overhang() {
    let mut pane = LibraryPane::new(None);
    pane.inject_albums_for_test(vec![long_album()]);
    let overhang = pane.longest_middle(40) - 10;
    pane.pan(1000, 10, 40);
    assert_eq!(pane.h_offset(), overhang);
    pane.pan(-1000, 10, 40);
    assert_eq!(pane.h_offset(), 0);
}

#[test]
fn a_cancelled_search_leaves_the_pane_alone() {
    let mut pane = LibraryPane::new(None);
    pane.inject_albums_for_test(vec![long_album()]);
    pane.step(1, 40);
    let before = pane.selected_index(40);
    pane.begin_search();
    pane.push_char('q');
    pane.cancel_search();
    assert!(!pane.is_typing());
    assert_eq!(pane.selected_index(40), before);
}

#[test]
fn a_cut_title_fits_its_columns() {
    assert_eq!(truncate("Dummy", 10), "Dummy");
    assert_eq!(truncate("Dummy Title", 6), "Dummy…");
    assert_eq!(truncate("Dummy", 0), "");
    assert_eq!(pan("abcdefgh", 2, 4), "cde…");
    assert_eq!(pan("abcdefgh", 20, 4), "");
}

#[test]
fn any_key_closes_help_and_does_nothing_else() {
    let mut app = App::new(None, Vec::new());
    let p = player(RepeatMode::Off);
    press(&mut app, KeyCode::Char('?'), &p);
    assert_eq!(app.modal, Modal::Help);
    let effects = press(&mut app, KeyCode::Char('s'), &p);
    assert!(effects.is_empty(), "the key that closes help is not also a stop");
    assert_eq!(app.modal, Modal::Closed);
}

#[test]
fn tab_twice_hands_the_keys_back() {
    let mut app = App::new(None, Vec::new());
    let p = player(RepeatMode::Off);
    app.list_width = 120;
    press(&mut app, KeyCode::Char(']'), &p);
    assert!(app.queue_open);
    assert_eq!(app.focus, Focus::Queue);
    press(&mut app, KeyCode::Tab, &p);
    assert_eq!(app.focus, Focus::Library);
    press(&mut app, KeyCode::Tab, &p);
    assert_eq!(app.focus, Focus::Queue);
    press(&mut app, KeyCode::Char(']'), &p);
    assert!(!app.queue_open);
    assert_eq!(app.focus, Focus::Library);
}

#[test]
fn overlay_keys_open_and_close() {
    let mut app = App::new(None, Vec::new());
    let p = player(RepeatMode::Off);
    press(&mut app, KeyCode::Char(','), &p);
    assert_eq!(app.modal, Modal::Devices);
    press(&mut app, KeyCode::Char(','), &p);
    assert_eq!(app.modal, Modal::Closed);
    press(&mut app, KeyCode::Char('i'), &p);
    assert_eq!(app.modal, Modal::Inspector);
    press(&mut app, KeyCode::Esc, &p);
    assert_eq!(app.modal, Modal::Closed);
}

#[test]
fn repeat_goes_off_all_one_and_back() {
    let mut app = App::new(None, Vec::new());
    let mut mode = RepeatMode::Off;
    let mut seen = Vec::new();
    for _ in 0..3 {
        let effects = press(&mut app, KeyCode::Char('e'), &player(mode));
        match effects.as_slice() {
            [Effect::Send(Command::SetRepeat(next), Some(_))] => mode = *next,
            other => panic!("unexpected effects {:?}", other),
        }
        seen.push(mode);
    }
    assert_eq!(seen, vec![RepeatMode::All, RepeatMode::One, RepeatMode::Off]);
}

#[test]
fn escape_steps_back_one_paging_level_at_a_time() {
    let mut pane = LibraryPane::new(None);
    pane.inject_albums_for_test(vec![long_album()]);
    assert_eq!(pane.paging_level(), znicz_tui::library_pane::ColumnFocus::Albums);
    assert!(pane.back());
    assert_eq!(pane.paging_level(), znicz_tui::library_pane::ColumnFocus::Artists);
    assert!(pane.albums().is_empty(), "stepping back forgets the level it left");
    assert!(!pane.back(), "nothing above the artists");
    assert_eq!(pane.paging_level(), znicz_tui::library_pane::ColumnFocus::Artists);
}
