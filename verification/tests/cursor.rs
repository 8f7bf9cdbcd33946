use znicz_tui::cursor::Cursor;

#[test]
fn an_empty_list_has_nothing_selected() {
    let cursor = Cursor::new();
    assert_eq!(cursor.selected(0), None);
    assert_eq!(cursor.selected(3), Some(0));
}

#[test]
fn stepping_wraps_at_both_ends() {
    let mut cursor = Cursor::new();
    cursor.step(-1, 3);
    assert_eq!(cursor.selected(3), Some(2), "up from the top goes to the end");

    cursor.step(1, 3);
    assert_eq!(cursor.selected(3), Some(0), "down from the end goes to the top");
}

#[test]
fn paging_stops_at_the_ends() {
    let mut cursor = Cursor::new();
    cursor.page(-10, 5);
    assert_eq!(cursor.selected(5), Some(0));

    cursor.page(10, 5);
    assert_eq!(cursor.selected(5), Some(4));
}

#[test]
fn a_shrinking_list_pulls_the_cursor_back_in() {
    let mut cursor = Cursor::new();
    cursor.last(10);
    assert_eq!(cursor.selected(10), Some(9));

    cursor.clamp(4);
    assert_eq!(cursor.selected(4), Some(3));

    cursor.clamp(0);
    assert_eq!(cursor.selected(0), None);
}

#[test]
fn stepping_on_an_empty_list_is_harmless() {
    let mut cursor = Cursor::new();
    cursor.step(1, 0);
    cursor.page(5, 0);
    cursor.last(0);
    assert_eq!(cursor.selected(0), None);
}

#[test]
fn setting_beyond_the_end_lands_on_the_last_row() {
    let mut cursor = Cursor::new();
    cursor.set(99, 3);
    assert_eq!(cursor.selected(3), Some(2));
}

#[test]
fn a_step_larger_than_the_list_wraps_around() {
    let mut cursor = Cursor::new();
    cursor.step(7, 3);
    assert_eq!(cursor.index(), 1);
    cursor.step(-5, 3);
    assert_eq!(cursor.index(), 2);
}

#[test]
fn stepping_forward_then_back_returns_to_the_row() {
    let mut cursor = Cursor::new();
    cursor.set(2, 5);
    cursor.step(3, 5);
    cursor.step(-3, 5);
    assert_eq!(cursor.selected(5), Some(2));
}

#[test]
fn a_stale_index_is_reported_at_the_last_row() {
    let mut cursor = Cursor::new();
    cursor.set(8, 10);
    assert_eq!(cursor.selected(4), Some(3));
    assert_eq!(cursor.index(), 8);
}
