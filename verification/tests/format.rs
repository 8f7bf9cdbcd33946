use znicz_tui::format::{channel_name, duration, duration_opt, khz, pan, position_of, truncate};

#[test]
fn durations_grow_an_hour_field_only_when_needed() {
    assert_eq!(duration(9_000), "0:09");
    assert_eq!(duration(75_000), "1:15");
    assert_eq!(duration(3_661_000), "1:01:01");
    assert_eq!(duration_opt(None), "--:--");
}

#[test]
fn sample_rates_read_naturally() {
    assert_eq!(khz(44_100), "44.1 kHz");
    assert_eq!(khz(48_000), "48 kHz");
    assert_eq!(khz(192_000), "192 kHz");
}

#[test]
fn pan_skips_then_truncates() {
    assert_eq!(pan("abcdefghij", 0, 5), "abcd…");
    assert_eq!(pan("abcdefghij", 2, 5), "cdef…");
    assert_eq!(pan("abcdefghij", 8, 5), "ij");
    assert_eq!(pan("short", 0, 10), "short");
}

#[test]
fn truncation_marks_what_it_dropped() {
    assert_eq!(truncate("short", 10), "short");
    assert_eq!(truncate("truncate me", 5), "trun…");
    assert_eq!(truncate("anything", 0), "");
}

#[test]
fn truncation_counts_characters_not_bytes() {
    assert_eq!(truncate("Łódź nocą", 5), "Łódź…");
}

#[test]
fn sub_second_remainders_are_dropped() {
    assert_eq!(duration(59_999), "0:59");
    assert_eq!(duration(0), "0:00");
    assert_eq!(duration_opt(Some(508_000)), "8:28");
}

#[test]
fn channel_counts_have_names() {
    assert_eq!(channel_name(1), "mono");
    assert_eq!(channel_name(2), "stereo");
    assert_eq!(channel_name(6), "6ch");
}

#[test]
fn sample_rates_round_to_a_tenth() {
    assert_eq!(khz(88_200), "88.2 kHz");
    assert_eq!(khz(96_000), "96 kHz");
    assert_eq!(khz(8_000), "8 kHz");
}

#[test]
fn positions_count_from_one() {
    assert_eq!(position_of(0, 12), "1/12");
    assert_eq!(position_of(11, 12), "12/12");
    assert_eq!(position_of(3, 0), "0/0");
}

#[test]
fn panning_past_the_end_leaves_nothing() {
    assert_eq!(pan("abc", 5, 4), "");
    assert_eq!(truncate("exactly", 7), "exactly");
}

#[test]
fn sample_rates_at_a_tie_follow_the_stored_value() {
    assert_eq!(khz(44_150), "44.1 kHz");
    assert_eq!(khz(2_050), "2 kHz");
    assert_eq!(khz(22_050), "22.1 kHz");
    assert_eq!(khz(44_050), "44 kHz");
    assert_eq!(khz(1_050), "1.1 kHz");
    assert_eq!(khz(250), "0.2 kHz");
    assert_eq!(khz(950), "0.9 kHz");
    assert_eq!(khz(50), "0.1 kHz");
}

#[test]
fn sample_rates_away_from_a_tie_round_plainly() {
    assert_eq!(khz(11_025), "11 kHz");
    assert_eq!(khz(44_999), "45.0 kHz");
    assert_eq!(khz(176_400), "176.4 kHz");
    assert_eq!(khz(0), "0 kHz");
}
