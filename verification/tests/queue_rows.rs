use znicz_tui::rows::{index_width, queue_row, queue_title_slot};

#[test]
fn row_numbers_take_at_least_two_columns() {
    assert_eq!(index_width(0), 2);
    assert_eq!(index_width(9), 2);
    assert_eq!(index_width(99), 2);
    assert_eq!(index_width(100), 3);
    assert_eq!(index_width(12345), 5);
}

#[test]
fn the_queue_slot_keeps_the_widest_time() {
    let times = vec!["4:00".to_string(), "--:--".to_string()];
    assert_eq!(queue_title_slot(&times, 40), 40 - (2 + 5 + 5));
    assert_eq!(queue_title_slot(&[], 40), 40, "an empty queue leaves the whole width");
    assert_eq!(queue_title_slot(&times, 10), 0, "a narrow list leaves no room");
}

#[test]
fn a_queue_row_right_aligns_its_number_and_pads_to_the_time() {
    let row = queue_row(0, 2, "Artist — Title", "4:00", 0, 30);
    assert_eq!(row.number, " 1 ");
    assert_eq!(row.label, "Artist — Title");
    assert_eq!(row.pad, 30 - (11 + 14) + 1);

    let row = queue_row(11, 120, "A very long label that will not fit", "1:02:03", 5, 30);
    assert_eq!(row.number, " 12 ");
    assert_eq!(row.label, "y long label t…");
    assert_eq!(row.pad, 1);
}
