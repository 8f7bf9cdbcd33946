use znicz_tui::app::{
    entry_from_track, playlist_stem_of, App, Command, Device, Effect, Focus, Modal, MouseEvent, MouseKind, PlayerView,
    PlaylistLoad, PlaylistPrompt, PlaylistSave, QueueRow, RadioPrompt, Station, StationField, StationSave,
};
use znicz_tui::line_edit::LineEdit;
use znicz_tui::hit::ListHit;
use znicz_tui::input::{KeyCode, KeyEvent, KeyModifiers};
use znicz_tui::layout::Rect;
use znicz_tui::library::{AlbumSummary, Track};
use znicz_tui::toast::Level;
use znicz_tui::transport::{PlaybackStatus, RepeatMode};

fn stopped(queue_len: usize) -> PlayerView {
    PlayerView {
        status: PlaybackStatus::Stopped,
        queue: (0..queue_len).map(|_| QueueRow { label_len: 30, is_stream: false }).collect(),
        queue_position: 0,
        muted: false,
        shuffle: false,
        repeat: RepeatMode::Off,
        has_track: false,
        position_secs: 0,
    }
}

fn new_app() -> App {
    App::new(None, Vec::new())
}

fn press(app: &mut App, code: KeyCode, player: &PlayerView) -> Vec<Effect> {
    app.on_key(KeyEvent::plain(code), player)
}

fn long_album() -> AlbumSummary {
    AlbumSummary { album: "x".repeat(50), album_artist: None, year: None, track_count: 1, total_ms: Some(125_000) }
}

fn dummy_track(title: &str) -> Track {
    Track {
        id: 1,
        path: "/music/dummy.flac".into(),
        title: title.into(),
        artist: Some("Artist".into()),
        album: Some("Album".into()),
        album_artist: None,
        genre: None,
        year: None,
        track_number: Some(1),
        disc_number: None,
        codec: None,
        sample_rate: None,
        channels: None,
        bits_per_sample: None,
        duration_ms: Some(120_000),
    }
}

#[test]
fn radio_form_tab_cycles_name_url_art() {
    let mut prompt = RadioPrompt::new_station();
    assert!(matches!(prompt, RadioPrompt::Form { field: StationField::Name, .. }));
    prompt.cycle_field(true);
    assert!(matches!(prompt, RadioPrompt::Form { field: StationField::Url, .. }));
    prompt.cycle_field(true);
    assert!(matches!(prompt, RadioPrompt::Form { field: StationField::Art, .. }));
    prompt.cycle_field(true);
    assert!(matches!(prompt, RadioPrompt::Form { field: StationField::Name, .. }));
}

#[test]
fn alt_arrows_pan_and_angle_brackets_do_nothing() {
    let mut app = new_app();
    let player = stopped(0);
    app.library.inject_albums_for_test(vec![long_album()]);
    app.title_slot = 20;

    app.on_key(KeyEvent::new(KeyCode::Char('>'), KeyModifiers::none()), &player);
    app.on_key(KeyEvent::new(KeyCode::Char('<'), KeyModifiers::alt()), &player);
    assert_eq!(app.library.h_offset(), 0, "< and > should not pan or bind");

    app.on_key(KeyEvent::new(KeyCode::Right, KeyModifiers::alt()), &player);
    assert_eq!(app.library.h_offset(), 1, "Alt+→ should pan titles");

    app.on_key(KeyEvent::new(KeyCode::Left, KeyModifiers::alt()), &player);
    assert_eq!(app.library.h_offset(), 0, "Alt+← should pan back");
}

#[test]
fn adding_to_an_empty_queue_does_not_start_playback() {
    let mut app = new_app();
    app.library.inject_tracks_for_test(vec![dummy_track("Quiet Add")]);
    let effects = press(&mut app, KeyCode::Char('a'), &stopped(0));
    assert_eq!(effects.len(), 1, "the track should be queued");
    match &effects[0] {
        Effect::Send(Command::QueueAdd(tracks), Some(message)) => {
            assert_eq!(tracks.len(), 1);
            assert_eq!(message, "added 1 track");
        }
        other => panic!("adding must only queue, got {other:?}"),
    }
}

#[test]
fn a_library_track_carries_its_tags_into_the_queue() {
    let track = Track {
        id: 1,
        path: "/music/a.flac".into(),
        title: "Kashmir".into(),
        artist: Some("Led Zeppelin".into()),
        album: Some("Physical Graffiti".into()),
        album_artist: None,
        genre: None,
        year: None,
        track_number: None,
        disc_number: None,
        codec: None,
        sample_rate: None,
        channels: None,
        bits_per_sample: None,
        duration_ms: Some(508_000),
    };
    let entry = entry_from_track(&track);
    assert_eq!(entry.label(), "Led Zeppelin — Kashmir");
    assert_eq!(entry.duration, Some(508_000));
}

#[test]
fn q_quits_and_ctrl_c_quits() {
    let mut app = new_app();
    assert!(!app.should_quit);
    press(&mut app, KeyCode::Char('q'), &stopped(0));
    assert!(app.should_quit);

    let mut app = new_app();
    app.on_key(KeyEvent::new(KeyCode::Char('c'), KeyModifiers::control()), &stopped(0));
    assert!(app.should_quit, "Ctrl-C should also quit");
}

#[test]
fn help_opens_and_any_key_closes_it() {
    let mut app = new_app();
    press(&mut app, KeyCode::Char('?'), &stopped(0));
    assert_eq!(app.modal, Modal::Help);
    press(&mut app, KeyCode::Char('q'), &stopped(0));
    assert_eq!(app.modal, Modal::Closed, "the overlay should close");
    assert!(!app.should_quit, "and that key must not also quit");
}

#[test]
fn space_on_an_empty_queue_explains_itself() {
    let mut app = new_app();
    let effects = press(&mut app, KeyCode::Char(' '), &stopped(0));
    match &effects[..] {
        [Effect::Notify(Level::Warn, text)] => assert!(text.contains("queue is empty"), "got: {text}"),
        other => panic!("the user needs to know why nothing happened; got: {other:?}"),
    }
    let effects = press(&mut app, KeyCode::Char(' '), &stopped(3));
    assert!(matches!(&effects[..], [Effect::Send(Command::QueuePlayIndex(0), None)]));
}

#[test]
fn volume_mute_repeat_and_shuffle_keys_command_the_player() {
    let mut app = new_app();
    let player = stopped(0);
    assert!(matches!(&press(&mut app, KeyCode::Char('-'), &player)[..], [Effect::Send(Command::VolumeStep(false), None)]));
    assert!(matches!(&press(&mut app, KeyCode::Char('+'), &player)[..], [Effect::Send(Command::VolumeStep(true), None)]));
    match &press(&mut app, KeyCode::Char('m'), &player)[..] {
        [Effect::Send(Command::SetMuted(true), Some(m))] => assert_eq!(m, "muted"),
        other => panic!("got {other:?}"),
    }
    match &press(&mut app, KeyCode::Char('e'), &player)[..] {
        [Effect::Send(Command::SetRepeat(RepeatMode::All), Some(m))] => assert_eq!(m, "repeat all"),
        other => panic!("got {other:?}"),
    }
    match &press(&mut app, KeyCode::Char('z'), &player)[..] {
        [Effect::Send(Command::SetShuffle(true), Some(m))] => assert_eq!(m, "shuffle on"),
        other => panic!("got {other:?}"),
    }
}

#[test]
fn seeking_with_nothing_loaded_is_ignored() {
    let mut app = new_app();
    assert!(press(&mut app, KeyCode::Right, &stopped(2)).is_empty());
    let mut playing = stopped(2);
    playing.has_track = true;
    playing.position_secs = 3;
    assert!(matches!(&press(&mut app, KeyCode::Left, &playing)[..], [Effect::Send(Command::Seek(0), None)]));
    assert!(matches!(&press(&mut app, KeyCode::Char('L'), &playing)[..], [Effect::Send(Command::Seek(33), None)]));
}

#[test]
fn radio_has_no_next_track() {
    let mut app = new_app();
    let mut radio = stopped(0);
    radio.queue.push(QueueRow { label_len: 10, is_stream: true });
    match &press(&mut app, KeyCode::Char('n'), &radio)[..] {
        [Effect::Notify(Level::Info, m)] => assert_eq!(m, "radio has no next track"),
        other => panic!("got {other:?}"),
    }
    assert!(matches!(&press(&mut app, KeyCode::Char('p'), &stopped(2))[..], [Effect::Send(Command::PreviousTrack, None)]));
}

#[test]
fn the_queue_drawer_opens_and_takes_focus() {
    let mut app = new_app();
    let player = stopped(5);
    press(&mut app, KeyCode::Tab, &player);
    assert!(app.queue_open);
    assert_eq!(app.focus, Focus::Queue);
    press(&mut app, KeyCode::Char('j'), &player);
    press(&mut app, KeyCode::Char('j'), &player);
    assert_eq!(app.queue_cursor.selected(5), Some(2));
    match &press(&mut app, KeyCode::Char('d'), &player)[..] {
        [Effect::Send(Command::QueueRemove(2), Some(m)), Effect::ClampQueueCursor] => assert_eq!(m, "removed from queue"),
        other => panic!("got {other:?}"),
    }
    press(&mut app, KeyCode::Esc, &player);
    assert!(!app.queue_open);
    assert_eq!(app.focus, Focus::Library);
}

#[test]
fn slash_opens_the_search_prompt_and_letters_become_text() {
    let mut app = new_app();
    let player = stopped(0);
    press(&mut app, KeyCode::Char('/'), &player);
    assert!(app.library.is_typing());
    for c in "quee".chars() {
        press(&mut app, KeyCode::Char(c), &player);
    }
    assert_eq!(app.library.input(), Some("quee"));
    assert!(!app.should_quit, "typing must not trigger commands");
    let effects = press(&mut app, KeyCode::Esc, &player);
    assert!(!app.library.is_typing(), "Esc should close the prompt");
    assert!(matches!(&effects[..], [Effect::Notify(Level::Info, m)] if m == "search cancelled"));
}

#[test]
fn submitting_a_search_asks_for_the_query() {
    let snapshot = znicz_tui::library::LibrarySnapshot {
        browse_artists: Ok(Vec::new()),
        albums_by_artist: Vec::new(),
        tracks_by_album: Vec::new(),
        tracks_by_artist: Vec::new(),
        all_tracks: Ok(Vec::new()),
    };
    let mut app = App::new(Some(snapshot), Vec::new());
    let player = stopped(0);
    press(&mut app, KeyCode::Char('/'), &player);
    for c in " miles ".chars() {
        press(&mut app, KeyCode::Char(c), &player);
    }
    let effects = press(&mut app, KeyCode::Enter, &player);
    assert!(matches!(&effects[..], [Effect::Search(q)] if q == "miles"));
    let effects = app.finish_search("miles", Ok(Vec::new()));
    assert!(matches!(&effects[..], [Effect::Notify(Level::Info, m)] if m == "no match for \"miles\""));
}

#[test]
fn the_playlist_overlay_saves_and_renames() {
    let mut app = new_app();
    let player = stopped(2);
    let effects = press(&mut app, KeyCode::Char('P'), &player);
    assert_eq!(app.modal, Modal::Playlists);
    assert!(matches!(&effects[..], [Effect::ReloadPlaylists]));
    app.set_playlists(vec!["evening".into(), "weekend-jazz".into()]);
    press(&mut app, KeyCode::Char('e'), &player);
    assert!(matches!(&app.playlist_prompt, Some(PlaylistPrompt::Rename(e)) if e.as_str() == "evening"));
    press(&mut app, KeyCode::Char('s'), &player);
    let effects = press(&mut app, KeyCode::Enter, &player);
    match &effects[..] {
        [Effect::RenamePlaylist(old, new)] => {
            assert_eq!(old, "evening");
            assert_eq!(new.as_str(), "evenings");
        }
        other => panic!("got {other:?}"),
    }
    assert!(app.playlist_prompt.is_none());
    app.select_playlist("weekend-jazz");
    assert_eq!(app.playlist_cursor.selected(2), Some(1));
    let effects = press(&mut app, KeyCode::Char('n'), &stopped(0));
    assert!(matches!(&effects[..], [Effect::Notify(Level::Warn, m)] if m == "queue is empty"));
}

#[test]
fn the_station_overlay_edits_the_selected_station() {
    let mut app = new_app();
    let player = stopped(0);
    press(&mut app, KeyCode::Char(']'), &player);
    assert_eq!(app.focus, Focus::Queue);
    press(&mut app, KeyCode::Char('R'), &player);
    assert_eq!(app.modal, Modal::Radio);
    let effects = press(&mut app, KeyCode::Char('e'), &player);
    assert!(matches!(&effects[..], [Effect::Notify(Level::Info, m)] if m == "no stations"));
    app.set_stations(Ok(vec![Station { name: "Example FM".into(), url: "https://example.com/stream".into(), art: None }]));
    press(&mut app, KeyCode::Char('e'), &player);
    press(&mut app, KeyCode::Tab, &player);
    press(&mut app, KeyCode::Char('/'), &player);
    let effects = press(&mut app, KeyCode::Enter, &player);
    match &effects[..] {
        [Effect::SaveStation(RadioPrompt::Form { name, url, original, .. })] => {
            assert_eq!(name.as_str(), "Example FM");
            assert_eq!(url.as_str(), "https://example.com/stream/");
            assert_eq!(original.as_deref(), Some("Example FM"));
        }
        other => panic!("got {other:?}"),
    }
}

#[test]
fn devices_are_chosen_by_index_and_named_in_the_message() {
    let devices = vec![
        Device { id: "hw:0".into(), name: "Built-in".into() },
        Device { id: "hw:1".into(), name: "Topping E30 II".into() },
    ];
    let mut app = App::new(None, devices);
    let player = stopped(0);
    press(&mut app, KeyCode::Char(','), &player);
    press(&mut app, KeyCode::Down, &player);
    match &press(&mut app, KeyCode::Enter, &player)[..] {
        [Effect::Send(Command::SetDevice(1), Some(m))] => assert_eq!(m, "output: Topping E30 II"),
        other => panic!("got {other:?}"),
    }
    let effects = app.set_devices(Vec::new());
    assert!(matches!(&effects[..], [Effect::Notify(Level::Info, m)] if m == "0 devices found"));
}

#[test]
fn a_click_outside_search_cancels_the_prompt() {
    let mut app = new_app();
    let player = stopped(0);
    press(&mut app, KeyCode::Char('/'), &player);
    app.hits.search_prompt = Some(Rect::new(0, 0, 80, 1));
    let effects = app.on_mouse(MouseEvent { kind: MouseKind::LeftDown, column: 5, row: 0 }, &player);
    assert!(effects.is_empty());
    assert!(app.library.is_typing());
    let effects = app.on_mouse(MouseEvent { kind: MouseKind::LeftDown, column: 5, row: 10 }, &player);
    assert!(!app.library.is_typing());
    assert!(matches!(&effects[..], [Effect::Notify(Level::Info, m)] if m == "search cancelled"));
}

#[test]
fn a_library_click_moves_the_cursor_and_does_not_play() {
    let mut app = new_app();
    let player = stopped(0);
    app.library.inject_tracks_for_test(vec![dummy_track("one"), dummy_track("two")]);
    app.hits.library = Some(ListHit { inner: Rect::new(1, 1, 30, 10), offset: 0, len: 2 });
    let effects = app.on_mouse(MouseEvent { kind: MouseKind::LeftDown, column: 3, row: 2 }, &player);
    assert!(effects.is_empty(), "a click must not play");
    assert_eq!(app.library.selected_track_index(), Some(1));
    app.on_mouse(MouseEvent { kind: MouseKind::LeftDown, column: 3, row: 9 }, &player);
    assert_eq!(app.library.selected_track_index(), Some(1), "a click below the last row does nothing");
}

#[test]
fn wheel_down_steps_the_library_and_wheel_up_wraps() {
    let mut app = new_app();
    let player = stopped(0);
    app.library.inject_tracks_for_test(vec![dummy_track("one"), dummy_track("two"), dummy_track("three")]);
    app.on_mouse(MouseEvent { kind: MouseKind::ScrollDown, column: 0, row: 0 }, &player);
    assert_eq!(app.library.selected_track_index(), Some(1));
    app.on_mouse(MouseEvent { kind: MouseKind::ScrollUp, column: 0, row: 0 }, &player);
    app.on_mouse(MouseEvent { kind: MouseKind::ScrollUp, column: 0, row: 0 }, &player);
    assert_eq!(app.library.selected_track_index(), Some(2));
}

#[test]
fn a_footer_hit_acts_like_its_key() {
    let mut app = new_app();
    let player = stopped(0);
    app.hits.footer_hints = znicz_tui::footer_hits::layout_footer_hits(
        Rect::new(0, 23, 100, 1),
        znicz_tui::keys::hints("Library"),
    );
    let help_at = "/ search · a add · ] queue · i inspect · P · Alt-← / Alt-→ pan · , devices · ".chars().count() as u16;
    app.on_mouse(MouseEvent { kind: MouseKind::LeftDown, column: help_at, row: 23 }, &player);
    assert_eq!(app.modal, Modal::Help);
}

#[test]
fn r_cycles_repeat_and_z_toggles_shuffle() {
    let mut app = new_app();
    let mut player = stopped(0);
    for expected in [RepeatMode::All, RepeatMode::One, RepeatMode::Off] {
        let effects = press(&mut app, KeyCode::Char('r'), &player);
        match &effects[..] {
            [Effect::Send(Command::SetRepeat(mode), Some(_))] => {
                assert_eq!(*mode, expected);
                player.repeat = *mode;
            },
            other => panic!("unexpected effects {:?}", other),
        }
    }
    assert_eq!(player.repeat, RepeatMode::Off, "three presses come back");

    let effects = press(&mut app, KeyCode::Char('z'), &player);
    assert!(matches!(&effects[..], [Effect::Send(Command::SetShuffle(true), Some(m))] if m == "shuffle on"));
    player.shuffle = true;
    let effects = press(&mut app, KeyCode::Char('z'), &player);
    assert!(matches!(&effects[..], [Effect::Send(Command::SetShuffle(false), Some(m))] if m == "shuffle off"));
}

#[test]
fn capital_r_reloads_the_library_and_rescans_devices() {
    let mut app = new_app();
    let player = stopped(0);
    let effects = press(&mut app, KeyCode::Char('R'), &player);
    assert!(matches!(&effects[..], [Effect::ReloadLibrary]));
    assert_eq!(app.modal, Modal::Closed);

    press(&mut app, KeyCode::Char(','), &player);
    let effects = press(&mut app, KeyCode::Char('R'), &player);
    assert!(matches!(&effects[..], [Effect::ReloadDevices]));
    assert_eq!(app.modal, Modal::Devices, "rescanning keeps the device list open");
}

#[test]
fn w_saves_the_queue_from_the_playlists_overlay() {
    let mut app = new_app();
    press(&mut app, KeyCode::Char('P'), &stopped(0));
    assert_eq!(app.modal, Modal::Playlists);
    press(&mut app, KeyCode::Char('w'), &stopped(2));
    assert!(matches!(app.playlist_prompt, Some(PlaylistPrompt::Save(_))));
}

#[test]
fn station_art_is_trimmed_and_blank_art_is_none() {
    let name = znicz_tui::line_edit::LineEdit::from_text("Example FM");
    let url = znicz_tui::line_edit::LineEdit::from_text("https://example.com/stream");
    let s = znicz_tui::app::station_of_form(&name, &url, &znicz_tui::line_edit::LineEdit::from_text("  /art/cover.png \t"));
    assert_eq!(s, Station { name: "Example FM".into(), url: "https://example.com/stream".into(), art: Some("/art/cover.png".into()) });
    let s = znicz_tui::app::station_of_form(&name, &url, &znicz_tui::line_edit::LineEdit::from_text("   "));
    assert_eq!(s.art, None);
}

#[test]
fn capital_n_goes_back_a_track_like_p() {
    let mut app = new_app();
    assert!(matches!(&press(&mut app, KeyCode::Char('N'), &stopped(2))[..], [Effect::Send(Command::PreviousTrack, None)]));
    assert!(matches!(&press(&mut app, KeyCode::Char('p'), &stopped(2))[..], [Effect::Send(Command::PreviousTrack, None)]));
}

#[test]
fn numbers_and_tab_both_switch_panes() {
    let mut app = new_app();
    app.list_width = 120;
    let player = stopped(2);
    press(&mut app, KeyCode::Char('1'), &player);
    assert!(app.queue_open);
    assert_eq!(app.focus, Focus::Queue);
    press(&mut app, KeyCode::Char('2'), &player);
    assert_eq!(app.focus, Focus::Library);
    press(&mut app, KeyCode::Char('3'), &player);
    assert_eq!(app.modal, Modal::Devices);
    press(&mut app, KeyCode::Char('1'), &player);
    assert_eq!(app.focus, Focus::Queue);
    assert_eq!(app.modal, Modal::Closed);
    press(&mut app, KeyCode::Tab, &player);
    assert_eq!(app.focus, Focus::Library);
    press(&mut app, KeyCode::BackTab, &player);
    assert_eq!(app.focus, Focus::Queue, "Shift-Tab should go back");
}

fn one_message(effects: &[Effect]) -> (Level, String) {
    match effects {
        [Effect::Notify(level, text), ..] => (*level, text.clone()),
        _ => panic!("expected a message first"),
    }
}

#[test]
fn a_played_playlist_names_itself_or_its_missing_entries() {
    let played = App::playlist_played("road", false, Ok(PlaylistLoad { tracks: 3, skipped_notice: None }));
    assert_eq!(one_message(&played), (Level::Success, "playing road".to_string()));
    let one_added = App::playlist_played("road", true, Ok(PlaylistLoad { tracks: 1, skipped_notice: None }));
    assert_eq!(one_message(&one_added), (Level::Success, "added 1 track from road".to_string()));
    let added = App::playlist_played("road", true, Ok(PlaylistLoad { tracks: 12, skipped_notice: None }));
    assert_eq!(one_message(&added), (Level::Success, "added 12 tracks from road".to_string()));
    let notice = Some("2 entries skipped".to_string());
    let skipped = App::playlist_played("road", true, Ok(PlaylistLoad { tracks: 10, skipped_notice: notice }));
    assert_eq!(one_message(&skipped), (Level::Warn, "2 entries skipped".to_string()));
    let failed = App::playlist_played("road", false, Err("no such file".to_string()));
    assert_eq!(one_message(&failed), (Level::Error, "no such file".to_string()));
}

#[test]
fn a_saved_playlist_is_named_without_its_ending() {
    assert_eq!(playlist_stem_of("mix.m3u8"), "mix");
    assert_eq!(playlist_stem_of("mix.m3u"), "mix");
    assert_eq!(playlist_stem_of("mix.txt"), "mix.txt");
    assert_eq!(playlist_stem_of(".m3u"), "");
    let mut app = new_app();
    let saved = app.playlist_saved(LineEdit::from_text("mix"), PlaylistSave::Written("mix.m3u8".to_string()));
    assert_eq!(one_message(&saved), (Level::Success, "saved mix".to_string()));
    assert!(matches!(saved[1], Effect::ReloadPlaylists));
    assert!(app.playlist_prompt.is_none());
    let failed = app.playlist_saved(LineEdit::from_text("mix"), PlaylistSave::Failed("disk full".to_string()));
    assert_eq!(one_message(&failed), (Level::Error, "disk full".to_string()));
    assert!(app.playlist_prompt.is_none());
    let refused = app.playlist_saved(LineEdit::from_text("a/b"), PlaylistSave::BadName("bad name".to_string()));
    assert_eq!(refused.len(), 1);
    match &app.playlist_prompt {
        Some(PlaylistPrompt::Save(e)) => assert_eq!(e.as_str(), "a/b"),
        _ => panic!("the save prompt should come back"),
    }
}

#[test]
fn a_renamed_playlist_is_selected_and_a_refusal_keeps_the_prompt() {
    let mut app = new_app();
    let renamed = app.playlist_renamed(LineEdit::from_text("new"), false, Ok("new".to_string()));
    assert_eq!(one_message(&renamed), (Level::Success, "renamed new".to_string()));
    assert!(matches!(&renamed[1..], [Effect::ReloadPlaylists, Effect::SelectPlaylist(n)] if n == "new"));
    let copied = app.playlist_renamed(LineEdit::from_text("twin"), true, Ok("twin".to_string()));
    assert_eq!(one_message(&copied), (Level::Success, "copied twin".to_string()));
    assert!(app.playlist_prompt.is_none());
    let refused = app.playlist_renamed(LineEdit::from_text("taken"), true, Err("exists".to_string()));
    assert_eq!(one_message(&refused), (Level::Error, "exists".to_string()));
    assert!(matches!(&app.playlist_prompt, Some(PlaylistPrompt::Copy(e)) if e.as_str() == "taken"));
    let deleted = App::playlist_deleted("old", Ok(()));
    assert_eq!(one_message(&deleted), (Level::Success, "deleted old".to_string()));
    assert!(matches!(deleted[1], Effect::ReloadPlaylists));
}

#[test]
fn stations_say_whether_they_play_or_were_added() {
    let playing = App::station_played("Example FM", false, Ok(()));
    assert_eq!(one_message(&playing), (Level::Success, "playing Example FM".to_string()));
    let added = App::station_played("Example FM", true, Ok(()));
    assert_eq!(one_message(&added), (Level::Success, "added Example FM".to_string()));
    let failed = App::station_played("Example FM", true, Err("offline".to_string()));
    assert_eq!(one_message(&failed), (Level::Error, "offline".to_string()));
}

#[test]
fn refused_station_art_reopens_the_form_as_an_edit() {
    let mut app = new_app();
    let saved = app.station_saved(RadioPrompt::new_station(), StationSave::Saved);
    assert!(matches!(&saved[..], [Effect::ReloadStations]));
    assert!(app.radio_prompt.is_none());
    let refused = app.station_saved(RadioPrompt::new_station(), StationSave::Refused("bad url".to_string()));
    assert_eq!(one_message(&refused), (Level::Error, "bad url".to_string()));
    assert!(matches!(&app.radio_prompt, Some(RadioPrompt::Form { original: None, .. })));
    app.radio_prompt = None;
    let art = StationSave::ArtRefused("no such art".to_string(), "Example FM".to_string());
    let reopened = app.station_saved(RadioPrompt::new_station(), art);
    assert_eq!(one_message(&reopened), (Level::Error, "no such art".to_string()));
    assert!(matches!(reopened[1], Effect::ReloadStations));
    assert!(matches!(&app.radio_prompt, Some(RadioPrompt::Form { original: Some(o), .. }) if o == "Example FM"));
}

#[test]
fn station_copies_and_removals_reload_the_list() {
    let mut app = new_app();
    assert!(matches!(&app.station_copied(LineEdit::from_text("b"), Ok(()))[..], [Effect::ReloadStations]));
    let refused = app.station_copied(LineEdit::from_text("b"), Err("exists".to_string()));
    assert_eq!(one_message(&refused), (Level::Error, "exists".to_string()));
    assert!(matches!(&app.radio_prompt, Some(RadioPrompt::Copy(e)) if e.as_str() == "b"));
    assert!(matches!(&App::station_deleted(Ok(()))[..], [Effect::ReloadStations]));
    let failed = App::station_deleted(Err("locked".to_string()));
    assert_eq!(one_message(&failed), (Level::Error, "locked".to_string()));
}
