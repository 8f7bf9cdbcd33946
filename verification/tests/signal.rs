use znicz_tui::layout::{centered_box, overlay_box, Rect};
use znicz_tui::signal::{device_stream, path_badge, resampled_path, sample_format_label};

#[test]
fn a_missing_sample_format_is_a_dash_not_a_question_mark() {
    let text = device_stream(96_000, 2, "?");
    assert_eq!(text, "96 kHz stereo --");
    assert!(!text.contains('?'), "{text}");
    assert_eq!(sample_format_label(""), "--");
    assert_eq!(sample_format_label("f32"), "f32");
}

#[test]
fn the_device_stream_names_its_sample_format() {
    assert_eq!(device_stream(96_000, 2, "f32"), "96 kHz stereo f32");
    assert_eq!(device_stream(44_100, 1, "i16"), "44.1 kHz mono i16");
}

#[test]
fn resampled_path_shows_both_rates() {
    let text = resampled_path(96_000, 2, 48_000, 2);
    assert_eq!(text, "file 96 kHz stereo → device 48 kHz stereo");
    assert_eq!(path_badge(false), "▲ resampled");
    assert_eq!(path_badge(true), "● bit perfect");
}

#[test]
fn a_tiny_popup_stays_inside_the_screen() {
    let popup = centered_box(Rect::new(0, 0, 10, 3), 44, 14);
    assert!(popup.width <= 10 && popup.height <= 3);
    assert_eq!(popup.x, 0);
    assert_eq!(popup.y, 0);
}

#[test]
fn list_overlays_take_most_of_the_screen_but_never_more() {
    assert_eq!(overlay_box(Rect::new(0, 0, 100, 40)), Rect::new(15, 6, 70, 28));
    assert_eq!(overlay_box(Rect::new(0, 0, 30, 5)), Rect::new(0, 0, 30, 5));
    assert_eq!(overlay_box(Rect::new(2, 1, 50, 20)), Rect::new(7, 4, 40, 14));
}
