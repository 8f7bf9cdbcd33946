use znicz_tui::layout::{
    columns_usable, drawer, is_sheet, strip_inner, strip_width, toast_areas, toast_boxed, toast_width_for, Drawer,
    Rect,
};

fn list(width: u16) -> Rect {
    Rect::new(0, 0, width, 20)
}

#[test]
fn a_wide_list_gets_a_41_column_overlay_on_the_right() {
    let list = list(100);
    match drawer(list, true) {
        Drawer::Overlay(rect) => {
            assert_eq!(rect.width, 41);
            assert_eq!(rect.x, 59);
            assert_eq!(rect.height, 20);
        }
        other => panic!("expected overlay, got {other:?}"),
    }
    assert_eq!(strip_width(list, true), 59);
}

#[test]
fn a_narrow_list_becomes_a_full_width_sheet() {
    let list = list(81);
    match drawer(list, true) {
        Drawer::Sheet(rect) => assert_eq!(rect, list),
        other => panic!("expected sheet, got {other:?}"),
    }
    assert_eq!(strip_width(list, true), 81);
    assert!(is_sheet(81, true));
    assert!(!is_sheet(82, true));
}

#[test]
fn a_closed_drawer_leaves_the_full_list() {
    let list = list(80);
    assert_eq!(drawer(list, false), Drawer::Closed);
    assert_eq!(strip_width(list, false), 80);
    assert!(!is_sheet(40, false));
}

#[test]
fn strip_inner_counts_characters_inside_the_visible_library() {
    let wide = list(100);
    assert_eq!(strip_inner(wide, true), 58);
    assert_eq!(strip_inner(wide, false), 98);
}

#[test]
fn toast_areas_stack_up_from_the_bottom_right() {
    let list = Rect::new(0, 0, 80, 10);
    let areas = toast_areas(list, 3, 32);
    assert_eq!(areas.len(), 3);
    assert_eq!(areas[0], Rect::new(47, 6, 32, 3));
    assert_eq!(areas[1], Rect::new(47, 3, 32, 3));
    assert_eq!(areas[2], Rect::new(47, 0, 32, 3));
    assert!(areas[0].bottom() < list.bottom(), "must not sit on the pane's bottom border");
    assert!(areas[0].right() < list.right(), "must not sit on the pane's right border");
}

#[test]
fn a_tiny_list_falls_back_to_a_single_line() {
    let list = Rect::new(0, 0, 20, 3);
    let areas = toast_areas(list, 1, 32);
    assert_eq!(areas.len(), 1);
    assert_eq!(areas[0].height, 1);
    assert_eq!(areas[0].y, 2);
}

#[test]
fn toast_width_covers_the_playlist_empty_error() {
    let text = "player error: playlist had no playable files";
    let width = toast_width_for(text, true);
    assert!(width > 42, "must be wider than the old 40% cap so the reason fits, got {width}");
}

#[test]
fn three_columns_need_sixty_characters() {
    assert!(columns_usable(60));
    assert!(!columns_usable(59));
    assert!(toast_boxed(Rect::new(0, 0, 12, 5)));
    assert!(!toast_boxed(Rect::new(0, 0, 11, 5)));
    assert_eq!(toast_width_for("", false), 2);
    assert_eq!(toast_width_for("ok", true), 6);
}

#[test]
fn more_than_three_toasts_are_not_drawn() {
    let areas = toast_areas(Rect::new(0, 0, 80, 30), 7, 10);
    assert_eq!(areas.len(), 3);
    assert!(toast_areas(Rect::new(0, 0, 80, 30), 0, 10).is_empty());
}
