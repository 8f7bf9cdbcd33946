use znicz_tui::footer_hits::{key_for_hint_segment, layout_footer_hits};
use znicz_tui::input::KeyCode;
use znicz_tui::layout::Rect;

#[test]
fn maps_common_footer_segments() {
    assert_eq!(key_for_hint_segment("? help").map(|k| k.code), Some(KeyCode::Char('?')));
    assert_eq!(key_for_hint_segment("Esc close").map(|k| k.code), Some(KeyCode::Esc));
    assert_eq!(key_for_hint_segment("i / Esc close").map(|k| k.code), Some(KeyCode::Esc));
    assert_eq!(key_for_hint_segment("Enter play").map(|k| k.code), Some(KeyCode::Enter));
    assert_eq!(key_for_hint_segment("Space pause").map(|k| k.code), Some(KeyCode::Char(' ')));
    assert_eq!(key_for_hint_segment("a add").map(|k| k.code), Some(KeyCode::Char('a')));
    assert_eq!(key_for_hint_segment("C clear").map(|k| k.code), Some(KeyCode::Char('C')));
    assert_eq!(key_for_hint_segment("/ search").map(|k| k.code), Some(KeyCode::Char('/')));
    assert_eq!(key_for_hint_segment("] queue").map(|k| k.code), Some(KeyCode::Char(']')));
    assert_eq!(key_for_hint_segment(", devices").map(|k| k.code), Some(KeyCode::Char(',')));
    assert_eq!(key_for_hint_segment("P").map(|k| k.code), Some(KeyCode::Char('P')));
    assert_eq!(key_for_hint_segment("R").map(|k| k.code), Some(KeyCode::Char('R')));
    let pan = key_for_hint_segment("Alt-← / Alt-→ pan").expect("pan");
    assert_eq!(pan.code, KeyCode::Right);
    assert!(pan.modifiers.alt);
    assert!(key_for_hint_segment("type").is_none());
    assert!(key_for_hint_segment("← →").is_none());
}

#[test]
fn layout_skips_unmapped_and_clips_to_width() {
    let area = Rect::new(0, 23, 20, 1);
    let hits = layout_footer_hits(area, "/ search · a add · ? help");
    assert_eq!(hits.len(), 2);
    assert_eq!(hits[0].key.code, KeyCode::Char('/'));
    assert_eq!(hits[0].rect, Rect::new(0, 23, 8, 1));
    assert_eq!(hits[1].key.code, KeyCode::Char('a'));
    assert_eq!(hits[1].rect, Rect::new(11, 23, 5, 1));
}

#[test]
fn blank_segments_and_long_words_map_to_nothing() {
    assert!(key_for_hint_segment("   ").is_none());
    assert!(key_for_hint_segment("Tab switch").is_none());
    assert!(layout_footer_hits(Rect::new(0, 0, 0, 1), "? help").is_empty());
    let hits = layout_footer_hits(Rect::new(2, 5, 80, 1), "type · ← → · Enter · Esc cancel");
    assert_eq!(hits.len(), 2);
    assert_eq!(hits[0].key.code, KeyCode::Enter);
    assert_eq!(hits[1].key.code, KeyCode::Esc);
}
