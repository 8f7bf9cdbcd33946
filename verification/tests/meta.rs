use znicz_tui::meta::{Entry, TagCache};

#[test]
fn a_row_without_an_artist_shows_just_the_title() {
    let entry = Entry { title: "Untitled".into(), ..Entry::default() };
    assert_eq!(entry.label(), "Untitled");
}

#[test]
fn known_tags_read_artist_then_title() {
    let entry = Entry {
        title: "Kashmir".into(),
        artist: Some("Led Zeppelin".into()),
        album: None,
        duration: None,
    };
    assert_eq!(entry.label(), "Led Zeppelin — Kashmir");
}

#[test]
fn known_tags_can_be_supplied_directly() {
    let mut cache = TagCache::new();
    cache.insert(
        "/music/a.flac".to_string(),
        Entry { title: "Kashmir".into(), artist: Some("Led Zeppelin".into()), album: None, duration: None },
    );
    let (entry, ask) = cache.get("/music/a.flac");
    let entry = entry.expect("inserted entries are available at once");
    assert!(!ask, "nothing left to read");
    assert_eq!(entry.label(), "Led Zeppelin — Kashmir");
}

#[test]
fn a_first_look_misses_and_asks_the_reader_once() {
    let mut cache = TagCache::new();
    assert_eq!(cache.get("/definitely/not/a/real/song.flac"), (None, true), "nothing is known yet");
    assert_eq!(cache.get("/definitely/not/a/real/song.flac"), (None, false), "a redraw does not ask again");
    cache.insert(
        "/definitely/not/a/real/song.flac".to_string(),
        Entry { title: "song".into(), ..Entry::default() },
    );
    let (entry, ask) = cache.get("/definitely/not/a/real/song.flac");
    assert_eq!(entry.map(|e| e.title), Some("song".to_string()));
    assert!(!ask);
}
