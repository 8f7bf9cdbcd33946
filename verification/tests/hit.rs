use znicz_tui::hit::{HitMap, ListHit};
use znicz_tui::layout::Rect;

fn list() -> ListHit {
    ListHit { inner: Rect::new(1, 1, 20, 5), offset: 2, len: 10 }
}

#[test]
fn a_click_on_the_first_visible_row_uses_the_offset() {
    assert_eq!(list().row_at(2, 1), Some(2));
    assert_eq!(list().row_at(2, 2), Some(3));
}

#[test]
fn a_click_past_the_last_item_is_ignored() {
    let hit = ListHit { inner: Rect::new(1, 1, 20, 8), offset: 0, len: 2 };
    assert_eq!(hit.row_at(2, 3), None);
}

#[test]
fn a_click_outside_the_inner_rect_is_ignored() {
    assert_eq!(list().row_at(0, 1), None);
    assert_eq!(list().row_at(2, 0), None);
    assert_eq!(list().row_at(2, 6), None);
}

#[test]
fn contains_uses_ratatui_position() {
    let rect = Rect::new(10, 5, 4, 3);
    assert!(rect.contains(10, 5));
    assert!(!rect.contains(14, 5));
}

#[test]
fn a_fresh_hit_map_has_nothing_clickable() {
    let hits = HitMap::default();
    assert!(hits.library.is_none());
    assert!(hits.close.is_none());
    assert!(hits.footer_hints.is_empty());
}
