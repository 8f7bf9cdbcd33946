use znicz_tui::library::{AlbumSummary, ArtistSummary, SearchHit, Track};
use znicz_tui::library_pane::LibraryPane;
use znicz_tui::rows::{
    album_right, album_short_middle, artist_right, column_summary, list_row, search_summary, title_slot, track_number,
    track_right, tracks_label,
};
use znicz_tui::library_pane::ColumnFocus;

fn track(title: &str, number: Option<u32>, ms: Option<u64>) -> Track {
    Track {
        id: 1,
        path: "/music/track.flac".into(),
        title: title.into(),
        artist: Some("Performer".into()),
        album: Some("Album".into()),
        album_artist: None,
        genre: None,
        year: None,
        track_number: number,
        disc_number: None,
        codec: None,
        sample_rate: None,
        channels: None,
        bits_per_sample: None,
        duration_ms: ms,
    }
}

#[test]
fn one_track_is_not_pluralised() {
    assert_eq!(tracks_label(1), "1 track");
    assert_eq!(tracks_label(0), "0 tracks");
    assert_eq!(tracks_label(12), "12 tracks");
}

#[test]
fn search_summary_counts_each_kind() {
    let hits = vec![
        SearchHit::Artist(ArtistSummary { name: "A".into(), track_count: 1 }),
        SearchHit::Album(AlbumSummary { album: "B".into(), album_artist: None, year: None, track_count: 2, total_ms: None }),
        SearchHit::Track(track("T", None, None)),
    ];
    assert_eq!(search_summary(&hits), "1 artists · 1 albums · 1 tracks");
}

#[test]
fn title_slot_matches_strip_minus_max_fixed_for_albums() {
    let album = AlbumSummary {
        album: "Long Album Title".to_string(),
        album_artist: Some("Artist".to_string()),
        year: Some(2020),
        track_count: 12,
        total_ms: Some(3_600_000),
    };
    let mut pane = LibraryPane::new(None);
    pane.inject_albums_for_test(vec![album.clone()]);
    let strip: usize = 40;
    let fixed = album_right(&album).chars().count() + 2;
    assert_eq!(title_slot(&pane, strip), strip.saturating_sub(fixed));
    assert_eq!(album_right(&album), "12 tracks · 1:00:00");
}

#[test]
fn title_slot_matches_strip_minus_max_fixed_for_tracks() {
    let track = track("A Very Long Track Title Indeed", Some(3), Some(245_000));
    let mut pane = LibraryPane::new(None);
    pane.inject_tracks_for_test(vec![track.clone()]);
    let strip: usize = 40;
    let fixed = track_right(&track).chars().count() + 2;
    assert_eq!(title_slot(&pane, strip), strip.saturating_sub(fixed));
    assert_eq!(track_right(&track), " 3 4:05");
}

#[test]
fn track_numbers_line_up_in_two_columns() {
    assert_eq!(track_number(&track("t", Some(7), None)), " 7 ");
    assert_eq!(track_number(&track("t", Some(12), None)), "12 ");
    assert_eq!(track_number(&track("t", None, None)), "   ");
    assert_eq!(track_right(&track("t", None, None)), "   --:--");
}

#[test]
fn artist_rows_end_with_their_track_count() {
    let a = ArtistSummary { name: "Miles".into(), track_count: 1 };
    assert_eq!(artist_right(&a), "1 track · artist");
    let b = AlbumSummary { album: "Kind of Blue".into(), album_artist: None, year: Some(1959), track_count: 5, total_ms: None };
    assert_eq!(album_short_middle(&b), "Kind of Blue (1959)");
    assert_eq!(column_summary(ColumnFocus::Albums, 3), "3 albums");
}

#[test]
fn a_row_pans_its_middle_and_pads_to_the_right_column() {
    let row = list_row("abcdefghij", "1:00", 12, 0);
    assert_eq!(row.shown, "abcdef…");
    assert_eq!(row.pad, 0);
    assert_eq!(row.right, " 1:00");
    let row = list_row("abc", "1:00", 12, 0);
    assert_eq!(row.shown, "abc");
    assert_eq!(row.pad, 4);
    let row = list_row("abcdefghijkl", "1:00", 12, 2);
    assert_eq!(row.shown, "cdefgh…");
}
