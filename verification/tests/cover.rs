use znicz_tui::cover::{
    cover_canvas, key_text_of, pick_stream_cover, resolve, ArtLookup, CoverCache, CoverCanvas, CoverKey, CoverReady, Fetched,
    Resolution,
};

#[test]
fn no_path_is_the_logo() {
    assert_eq!(pick_stream_cover(CoverReady::Logo, CoverReady::Logo, CoverReady::Logo), CoverReady::Logo);
}

#[test]
fn pick_stream_cover_prefers_icy_then_audioaddict_then_station() {
    let icy = CoverReady::Embedded(1);
    let aa = CoverReady::Embedded(2);
    let station = CoverReady::Embedded(3);
    assert_eq!(pick_stream_cover(icy, aa, station), icy);
    assert_eq!(pick_stream_cover(CoverReady::Pending, aa, station), aa);
    assert_eq!(pick_stream_cover(CoverReady::Logo, CoverReady::Pending, station), station);
    assert_eq!(pick_stream_cover(CoverReady::Logo, CoverReady::Logo, station), station);
    assert_eq!(pick_stream_cover(CoverReady::Pending, CoverReady::Pending, CoverReady::Logo), CoverReady::Logo);
}

#[test]
fn even_a_one_pixel_source_fills_the_cover_slot() {
    let canvas = cover_canvas(16, 8, 8, 16);
    assert_eq!(canvas.width, 16 * 8);
    assert_eq!(canvas.height, 8 * 16);
    assert_eq!(canvas.pad_x, 4, "half a cell of pad");
}

#[test]
fn a_zero_sized_slot_still_gets_a_pixel() {
    assert_eq!(cover_canvas(0, 0, 0, 0), CoverCanvas { width: 1, height: 1, pad_x: 0 });
    assert_eq!(cover_canvas(3, 2, 0, 0), CoverCanvas { width: 3, height: 2, pad_x: 0 });
    assert_eq!(cover_canvas(65535, 65535, 65535, 65535).width, 65535 * 65535);
}

#[test]
fn a_failed_url_is_not_fetched_again() {
    let mut cache = CoverCache::new();
    let key = CoverKey::Url("http://127.0.0.1:9/".to_string());
    assert_eq!(cache.get(&key, false), (CoverReady::Pending, true));
    assert_eq!(cache.get(&key, false), (CoverReady::Pending, false));
    let answer = resolve(&key, ArtLookup::NoArt, Fetched::Undecodable);
    assert!(matches!(&answer, Resolution::Update(CoverReady::Logo, Some(u)) if u == "http://127.0.0.1:9/"));
    cache.resolved(&key, answer);
    assert_eq!(cache.get(&key, false), (CoverReady::Logo, false));
    assert_eq!(cache.get(&key, true), (CoverReady::Logo, false));
}

#[test]
fn missing_file_resolves_to_logo() {
    let mut cache = CoverCache::new();
    let key = CoverKey::File("/definitely/not/a/cover.flac".to_string());
    assert_eq!(cache.get(&key, false), (CoverReady::Pending, true));
    cache.resolved(&key, resolve(&key, ArtLookup::NoArt, Fetched::Unavailable));
    assert_eq!(cache.get(&key, false), (CoverReady::Logo, false));
}

#[test]
fn an_embedded_picture_is_kept_and_a_stale_channel_is_refreshed_once() {
    let mut cache = CoverCache::new();
    let track = CoverKey::File("/music/a.flac".to_string());
    cache.get(&track, false);
    cache.resolved(&track, resolve(&track, ArtLookup::NoArt, Fetched::Picture(7)));
    assert_eq!(cache.get(&track, true), (CoverReady::Embedded(7), false));
    let channel = CoverKey::AudioAddict(2, "jazz".to_string());
    let found = ArtLookup::Found("http://example.com/jazz.png".to_string());
    cache.get(&channel, false);
    cache.resolved(&channel, resolve(&channel, found, Fetched::Picture(9)));
    assert_eq!(cache.get(&channel, false), (CoverReady::Embedded(9), false));
    assert_eq!(cache.get(&channel, true), (CoverReady::Embedded(9), true));
    assert_eq!(cache.get(&channel, true), (CoverReady::Embedded(9), false));
    cache.resolved(&channel, resolve(&channel, ArtLookup::RefreshFailed, Fetched::Unavailable));
    assert_eq!(cache.get(&channel, true), (CoverReady::Embedded(9), true));
}

#[test]
fn the_oldest_covers_leave_past_sixteen() {
    let mut cache = CoverCache::new();
    let keys: Vec<CoverKey> = (0..17).map(|i| CoverKey::File(format!("/music/{i}.flac"))).collect();
    for (i, key) in keys.iter().enumerate() {
        cache.get(key, false);
        cache.resolved(key, Resolution::Update(CoverReady::Embedded(i as u64), None));
    }
    assert_eq!(cache.get(&keys[0], false), (CoverReady::Pending, true));
    assert_eq!(cache.get(&keys[16], false), (CoverReady::Embedded(16), false));
    assert_eq!(key_text_of(&CoverKey::AudioAddict(3, "lounge".to_string())), "aa:3:lounge");
}
