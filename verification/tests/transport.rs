use znicz_tui::transport::{
    badge_fits, chrome_layout, repeat_label, seek_row_layout, status_marker, status_symbol, title_row_width,
    toggles_text, total_duration, ChromeLine, PlaybackStatus, RepeatMode, SeekRow,
};

#[test]
fn transport_symbols_differ_per_state() {
    assert_eq!(status_symbol(PlaybackStatus::Playing), "▶");
    assert_eq!(status_symbol(PlaybackStatus::Paused), "❚❚");
    assert_eq!(status_symbol(PlaybackStatus::Stopped), "■");
}

#[test]
fn play_and_pause_markers_occupy_the_same_columns() {
    let play = status_marker(PlaybackStatus::Playing);
    let pause = status_marker(PlaybackStatus::Paused);
    let stop = status_marker(PlaybackStatus::Stopped);
    assert_eq!(play.chars().count(), pause.chars().count());
    assert_eq!(play.chars().count(), stop.chars().count());
    assert_ne!(play.trim(), pause.trim());
}

#[test]
fn queue_length_needs_every_track_measured() {
    let known = [Some(60_000), Some(30_000)];
    assert_eq!(total_duration(&known), Some(90_000));

    let partial = [Some(60_000), None];
    assert_eq!(total_duration(&partial), None, "an unknown length makes the total a lie");
    assert_eq!(total_duration(&[]), None);
}

#[test]
fn repeat_labels_stay_readable() {
    assert_eq!(repeat_label(RepeatMode::Off), "repeat off");
    assert_eq!(repeat_label(RepeatMode::One), "repeat one");
    assert_eq!(repeat_label(RepeatMode::All), "repeat all");
}

#[test]
fn toggles_show_only_what_is_on() {
    assert_eq!(toggles_text(RepeatMode::Off, false), None);
    assert_eq!(toggles_text(RepeatMode::Off, true).as_deref(), Some(" shuffle"));
    assert_eq!(toggles_text(RepeatMode::All, false).as_deref(), Some(" repeat all"));
    assert_eq!(toggles_text(RepeatMode::One, true).as_deref(), Some(" repeat one  shuffle"));
}

#[test]
fn a_wide_transport_keeps_every_part() {
    // symbol 2, times 14, title 10, subtitle 8, volume 10, toggles 8
    let line = chrome_layout(120, 2, 14, 10, Some(8), Some(10), Some(8));
    assert_eq!(
        line,
        ChromeLine::Full { title_width: 37, subtitle: true, seek_width: 40, volume: true, toggles: true }
    );
}

#[test]
fn a_narrow_transport_drops_toggles_then_volume_first() {
    // fixed 16; all parts need 16 + 8 + 5 + 10 + 8 = 47
    let line = chrome_layout(40, 2, 14, 10, Some(8), Some(10), Some(8));
    match line {
        ChromeLine::Full { volume, toggles, subtitle, .. } => {
            assert!(!toggles);
            assert!(volume);
            assert!(subtitle);
        }
        other => panic!("expected a full line, got {other:?}"),
    }
    let line = chrome_layout(28, 2, 14, 10, Some(8), Some(10), Some(8));
    match line {
        ChromeLine::Full { volume, toggles, seek_width, .. } => {
            assert!(!toggles);
            assert!(!volume);
            assert!(seek_width <= 40);
        }
        other => panic!("expected a full line, got {other:?}"),
    }
}

#[test]
fn the_symbol_and_times_are_never_dropped() {
    assert_eq!(chrome_layout(0, 2, 14, 10, None, Some(10), None), ChromeLine::Empty);
    assert_eq!(chrome_layout(2, 2, 14, 10, None, Some(10), None), ChromeLine::Symbol { width: 2 });
    assert_eq!(
        chrome_layout(10, 2, 14, 10, None, Some(10), None),
        ChromeLine::SymbolTimes { symbol_width: 2, times_width: 8 }
    );
}

#[test]
fn the_seek_row_gives_the_bar_what_is_left() {
    assert_eq!(seek_row_layout(0, 14, Some(10), None), SeekRow::Empty);
    assert_eq!(seek_row_layout(40, 14, Some(10), None), SeekRow::Parts { seek_width: 15, volume: true, toggles: false });
    assert_eq!(seek_row_layout(18, 14, Some(10), Some(8)), SeekRow::Parts { seek_width: 0, volume: false, toggles: false });
}

#[test]
fn the_title_row_and_badge_fit_their_width() {
    assert_eq!(title_row_width(2, 2), None);
    assert_eq!(title_row_width(30, 2), Some(28));
    assert!(badge_fits(PlaybackStatus::Playing, 20, 13, 35));
    assert!(!badge_fits(PlaybackStatus::Playing, 20, 13, 34));
    assert!(!badge_fits(PlaybackStatus::Stopped, 0, 13, 80));
}
