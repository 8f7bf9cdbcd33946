use znicz_tui::library::{AlbumSummary, ArtistSummary, LibrarySnapshot, SearchHit, Track};
use znicz_tui::library_pane::{
    ColumnFocus, EffectiveLayout, EnterResult, Item, LibraryPane, Mode, SearchRequest, TreeRow,
};
use znicz_tui::tui_config::LibraryLayout;

fn strip() -> usize {
    40
}

fn wide() -> usize {
    80
}

fn track(path: &str, title: &str, artist: &str, album: &str) -> Track {
    Track {
        id: 1,
        path: path.into(),
        title: title.into(),
        artist: Some(artist.into()),
        album: Some(album.into()),
        album_artist: None,
        genre: None,
        year: None,
        track_number: None,
        disc_number: None,
        codec: None,
        sample_rate: None,
        channels: None,
        bits_per_sample: None,
        duration_ms: None,
    }
}

fn album(name: &str, artist: Option<&str>, count: u32) -> AlbumSummary {
    AlbumSummary { album: name.into(), album_artist: artist.map(|a| a.into()), year: None, track_count: count, total_ms: None }
}

/// One artist with one album of the given tracks, as the database answers for it.
fn library_of(artist: &str, album_name: &str, tracks: Vec<Track>) -> LibrarySnapshot {
    let count = tracks.len() as u32;
    LibrarySnapshot {
        browse_artists: Ok(vec![ArtistSummary { name: artist.into(), track_count: count }]),
        albums_by_artist: vec![(artist.into(), Some(vec![album(album_name, Some(artist), count)]))],
        tracks_by_album: vec![(album_name.into(), Some(tracks.clone()))],
        tracks_by_artist: vec![(artist.into(), Some(tracks.clone()))],
        all_tracks: Ok(tracks),
    }
}

fn miles() -> LibrarySnapshot {
    library_of("Miles", "Kind of Blue", vec![track("/music/a.flac", "So What", "Miles", "Kind of Blue")])
}

fn long_album(name: &str) -> AlbumSummary {
    AlbumSummary { album: name.repeat(50), album_artist: None, year: None, track_count: 1, total_ms: Some(125_000) }
}

fn message_of(request: SearchRequest) -> String {
    match request {
        SearchRequest::Message(m) => m,
        SearchRequest::Query(q) => panic!("expected a message, got a query for {q}"),
    }
}

#[test]
fn without_a_library_the_pane_explains_itself() {
    let pane = LibraryPane::new(None);
    assert!(!pane.is_available());
    assert!(pane.is_empty(strip()));
    assert!(pane.notice().unwrap().contains("scan"), "the notice should tell the user how to build a library");
}

#[test]
fn navigation_on_an_empty_pane_selects_nothing() {
    let mut pane = LibraryPane::new(None);
    pane.step(1, strip());
    pane.last(strip());
    assert!(pane.selected(strip()).is_none());
    assert!(pane.selected_tracks(strip()).is_empty());
    assert_eq!(pane.enter(strip()), EnterResult::Unchanged);
    assert!(!pane.back(), "already at the top level");
}

#[test]
fn searching_without_a_library_says_so() {
    let mut pane = LibraryPane::new(None);
    pane.begin_search();
    assert!(pane.is_typing());
    for c in "wish".chars() {
        pane.push_char(c);
    }
    assert_eq!(pane.input(), Some("wish"));

    let message = message_of(pane.submit_search());
    assert!(message.contains("no library"), "got: {message}");
    assert!(!pane.is_typing(), "the prompt closes after submitting");
}

#[test]
fn an_empty_query_is_treated_as_a_cancel() {
    let mut pane = LibraryPane::new(None);
    pane.begin_search();
    pane.push_char(' ');
    assert_eq!(message_of(pane.submit_search()), "search cancelled");
}

#[test]
fn empty_pane_pan_stays_at_zero() {
    let mut pane = LibraryPane::new(None);
    pane.pan(5, 4, strip());
    assert_eq!(pane.h_offset(), 0);
}

#[test]
fn pan_offset_applies_only_to_the_selected_row() {
    let mut pane = LibraryPane::new(None);
    pane.inject_albums_for_test(vec![long_album("a"), long_album("b")]);
    pane.pan(3, 10, strip());
    assert_eq!(pane.offset_for(0, strip()), 3);
    assert_eq!(pane.offset_for(1, strip()), 0);
}

#[test]
fn moving_the_cursor_resets_pan() {
    let mut pane = LibraryPane::new(None);
    pane.inject_albums_for_test(vec![long_album("a"), long_album("b")]);
    pane.pan(4, 10, strip());
    pane.step(1, strip());
    assert_eq!(pane.offset_for(0, strip()), 0);
    assert_eq!(pane.h_offset(), 0);
}

#[test]
fn pan_clamps_to_the_selected_row_not_the_longest() {
    let mut pane = LibraryPane::new(None);
    pane.inject_albums_for_test(vec![
        AlbumSummary { album: "Hi".into(), album_artist: None, year: None, track_count: 1, total_ms: None },
        long_album("long"),
    ]);
    pane.pan(20, 40, strip());
    assert_eq!(pane.h_offset(), 0);
}

#[test]
fn pan_moves_offset_when_middle_is_longer_than_slot() {
    let mut pane = LibraryPane::new(None);
    pane.inject_albums_for_test(vec![AlbumSummary {
        album: "x".repeat(50),
        album_artist: None,
        year: None,
        track_count: 1,
        total_ms: Some(125_000),
    }]);
    let slot = 20;
    assert!(pane.longest_middle(strip()) > slot);
    pane.pan(1, slot, strip());
    assert_eq!(pane.h_offset(), 1);
    pane.pan(2, slot, strip());
    assert_eq!(pane.h_offset(), 3);
}

#[test]
fn clamp_pan_shrinks_offset_when_slot_grows() {
    let mut pane = LibraryPane::new(None);
    pane.inject_albums_for_test(vec![AlbumSummary {
        album: "x".repeat(50),
        album_artist: None,
        year: None,
        track_count: 1,
        total_ms: Some(125_000),
    }]);
    let narrow = 10;
    let wide_slot = 30;
    pane.pan(100, narrow, strip());
    let max_narrow = pane.longest_middle(strip()).saturating_sub(narrow);
    assert_eq!(pane.h_offset(), max_narrow);
    pane.clamp_pan(wide_slot, strip());
    let max_wide = pane.longest_middle(strip()).saturating_sub(wide_slot);
    assert_eq!(pane.h_offset(), max_wide);
    assert!(max_wide < max_narrow);
}

#[test]
fn backspace_edits_the_query() {
    let mut pane = LibraryPane::new(None);
    pane.begin_search();
    for c in "abc".chars() {
        pane.push_char(c);
    }
    pane.pop_char();
    assert_eq!(pane.input(), Some("ab"));

    pane.cancel_search();
    assert!(!pane.is_typing());
}

#[test]
fn enter_does_not_open_album_from_search_hits() {
    let mut pane = LibraryPane::new(None);
    pane.inject_search_hits_for_test("love", vec![SearchHit::Album(album("Love", Some("Other"), 1))]);
    assert_eq!(pane.enter(strip()), EnterResult::Unchanged);
    assert!(matches!(pane.mode(), Mode::Search(_)));
}

#[test]
fn search_listed_tracks_are_title_hits_only() {
    let mut pane = LibraryPane::new(None);
    let mut song = track("/music/title-love.flac", "Love Song", "Singer", "Hits");
    song.album = Some("Hits".into());
    pane.inject_search_hits_for_test(
        "Love",
        vec![
            SearchHit::Artist(ArtistSummary { name: "Love".into(), track_count: 2 }),
            SearchHit::Album(album("Love", Some("Other"), 1)),
            SearchHit::Track(song),
        ],
    );
    let listed = pane.listed_tracks(strip());
    assert_eq!(listed.len(), 1);
    assert_eq!(listed[0].title, "Love Song");
}

#[test]
fn search_selected_artist_queues_artist_tracks() {
    let library = library_of(
        "Love",
        "Forever",
        vec![
            track("/music/a.flac", "Alone", "Love", "Forever"),
            track("/music/b.flac", "Together", "Love", "Forever"),
        ],
    );
    let mut pane = LibraryPane::new(Some(library));
    pane.begin_search();
    for c in "Love".chars() {
        pane.push_char(c);
    }
    let query = match pane.submit_search() {
        SearchRequest::Query(q) => q,
        SearchRequest::Message(m) => panic!("expected a query, got: {m}"),
    };
    let hits = vec![SearchHit::Artist(ArtistSummary { name: "Love".into(), track_count: 2 })];
    let message = pane.finish_search(&query, Ok(hits));
    assert!(message.contains("match"), "got: {message}");
    assert!(matches!(pane.selected(strip()), Some(Item::Artist(_))));
    assert_eq!(pane.selected_tracks(strip()).len(), 2);
    assert_eq!(pane.listed_tracks(strip()).len(), 0, "no title hits for Love");
}

#[test]
fn paging_enter_drills_artist_to_albums_to_tracks() {
    let mut pane = LibraryPane::new(Some(miles()));
    pane.set_preferred_layout(LibraryLayout::Columns);
    assert_eq!(pane.effective_layout(strip()), EffectiveLayout::Paging);
    assert_eq!(pane.paging_level(), ColumnFocus::Artists);
    assert_eq!(pane.enter(strip()), EnterResult::Moved);
    assert_eq!(pane.paging_level(), ColumnFocus::Albums);
    assert_eq!(pane.enter(strip()), EnterResult::Moved);
    assert_eq!(pane.paging_level(), ColumnFocus::Tracks);
    assert!(matches!(pane.selected(strip()), Some(Item::Track(_))));
    assert!(pane.back());
    assert_eq!(pane.paging_level(), ColumnFocus::Albums);
}

#[test]
fn wide_strip_uses_columns() {
    let pane = LibraryPane::new(Some(miles()));
    assert_eq!(pane.effective_layout(wide()), EffectiveLayout::Columns);
}

fn artist_expanded(pane: &LibraryPane) -> bool {
    pane.tree_rows().iter().any(|r| matches!(r, TreeRow::Artist { artist, expanded: true } if artist.name == "Miles"))
}

fn album_expanded(pane: &LibraryPane) -> bool {
    pane.tree_rows().iter().any(|r| {
        matches!(r, TreeRow::Album { artist, album, expanded: true, .. } if artist == "Miles" && album.album == "Kind of Blue")
    })
}

#[test]
fn tree_layout_expands_and_remembers_session_state() {
    let mut pane = LibraryPane::new(Some(miles()));
    pane.set_preferred_layout(LibraryLayout::Tree);
    assert_eq!(pane.effective_layout(strip()), EffectiveLayout::Tree);
    assert_eq!(pane.tree_rows().len(), 1);
    assert_eq!(pane.enter(strip()), EnterResult::Moved);
    assert!(artist_expanded(&pane));
    assert!(pane.tree_rows().len() >= 2);
    assert_eq!(pane.enter(strip()), EnterResult::Moved);
    assert_eq!(pane.enter(strip()), EnterResult::Moved);
    pane.step(1, strip());
    assert_eq!(pane.enter(strip()), EnterResult::Moved);
    assert!(album_expanded(&pane));
}

#[test]
fn focus_artist_leaves_search() {
    let mut pane = LibraryPane::new(Some(miles()));
    pane.inject_search_hits_for_test("miles", vec![SearchHit::Artist(ArtistSummary { name: "Miles".into(), track_count: 1 })]);
    assert!(pane.focus_artist("Miles"));
    assert_eq!(pane.mode(), &Mode::Browse);
    assert_eq!(pane.paging_level(), ColumnFocus::Albums);
    assert_eq!(pane.albums().len(), 1);
}

#[test]
fn an_expanded_album_lists_its_tracks_under_it() {
    let mut pane = LibraryPane::new(Some(miles()));
    pane.set_preferred_layout(LibraryLayout::Tree);
    pane.enter(strip());
    pane.step(1, strip());
    pane.enter(strip());
    let rows = pane.tree_rows();
    assert_eq!(rows.len(), 3);
    assert!(matches!(&rows[2], TreeRow::Track { index: 0, depth: 2, .. }));
    pane.step(1, strip());
    match pane.selected(strip()) {
        Some(Item::Track(t)) => assert_eq!(t.title, "So What"),
        _ => panic!("the track row should select the track"),
    }
    pane.step(-1, strip());
    assert_eq!(pane.enter(strip()), EnterResult::Moved);
    assert_eq!(pane.tree_rows().len(), 2, "closing the album hides its tracks");
}

#[test]
fn focus_album_opens_the_album_under_its_artist() {
    let mut pane = LibraryPane::new(Some(miles()));
    assert!(pane.focus_album("kind of blue", None));
    assert_eq!(pane.paging_level(), ColumnFocus::Tracks);
    assert_eq!(pane.tracks().len(), 1);
    assert!(!pane.focus_album("Nothing", Some("Nobody")));
}

#[test]
fn a_failed_search_is_explained() {
    let mut pane = LibraryPane::new(Some(miles()));
    let message = pane.finish_search("x", Err("disk gone".into()));
    assert_eq!(message, "search failed: disk gone");
    assert_eq!(pane.notice(), Some("search failed: disk gone"));
    let message = pane.finish_search("zzzz", Ok(Vec::new()));
    assert_eq!(message, "no match for \"zzzz\"");
    assert_eq!(pane.notice(), Some("nothing matched \"zzzz\""));
    let two = vec![
        SearchHit::Artist(ArtistSummary { name: "A".into(), track_count: 1 }),
        SearchHit::Artist(ArtistSummary { name: "B".into(), track_count: 1 }),
    ];
    assert_eq!(pane.finish_search("q", Ok(two)), "2 matches for \"q\"");
    assert_eq!(pane.notice(), None);
}

#[test]
fn a_library_without_albums_lists_every_track() {
    let tracks = vec![track("/m/x.flac", "mystery", "", "")];
    let library = LibrarySnapshot {
        browse_artists: Ok(Vec::new()),
        albums_by_artist: Vec::new(),
        tracks_by_album: Vec::new(),
        tracks_by_artist: Vec::new(),
        all_tracks: Ok(tracks),
    };
    let pane = LibraryPane::new(Some(library));
    assert_eq!(pane.mode(), &Mode::AllTracks);
    assert_eq!(pane.len(strip()), 1);
    assert_eq!(pane.effective_layout(wide()), EffectiveLayout::Paging);
}

#[test]
fn an_unreadable_library_says_why() {
    let library = LibrarySnapshot {
        browse_artists: Err("locked".into()),
        albums_by_artist: Vec::new(),
        tracks_by_album: Vec::new(),
        tracks_by_artist: Vec::new(),
        all_tracks: Ok(Vec::new()),
    };
    let pane = LibraryPane::new(Some(library));
    assert_eq!(pane.notice(), Some("could not read library: locked"));
}

#[test]
fn middles_read_title_year_and_artist() {
    let a = AlbumSummary { album: "Kind of Blue".into(), album_artist: Some("Miles".into()), year: Some(1959), track_count: 5, total_ms: None };
    assert_eq!(LibraryPane::album_middle(&a), "Kind of Blue (1959) — Miles");
    let b = album("Untitled", None, 1);
    assert_eq!(LibraryPane::album_middle(&b), "Untitled — Unknown artist");
    let t = track("/a", "So What", "Miles", "Kind of Blue");
    assert_eq!(LibraryPane::track_middle(&t), "So What — Miles");
}

#[test]
fn cycling_columns_comes_full_circle() {
    let mut pane = LibraryPane::new(Some(miles()));
    pane.cycle_column(true);
    assert_eq!(pane.column_focus(), ColumnFocus::Albums);
    pane.cycle_column(false);
    pane.cycle_column(false);
    assert_eq!(pane.column_focus(), ColumnFocus::Tracks);
    assert_eq!(ColumnFocus::Tracks.next(), ColumnFocus::Artists);
    assert_eq!(ColumnFocus::Artists.prev(), ColumnFocus::Tracks);
}

#[test]
fn a_column_click_loads_what_sits_under_it() {
    let mut pane = LibraryPane::new(Some(miles()));
    pane.set_column_index(ColumnFocus::Albums, 0);
    assert_eq!(pane.column_focus(), ColumnFocus::Albums);
    assert_eq!(pane.tracks().len(), 1);
    assert_eq!(pane.selected_album_index(), Some(0));
}
