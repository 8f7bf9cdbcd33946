//! The text of the library pane's rows and titles.
//!
//! A row is a middle text (panned when it is the selected row) and a
//! right-hand column of counts and lengths. The title slot is what is left
//! of the strip once the widest right-hand column of the list is reserved.

use vstd::prelude::*;
use crate::format::{duration, duration_opt, duration_opt_text, duration_text, pan, panned, truncate, truncated, unknown_duration};
use crate::library::{AlbumSummary, ArtistSummary, SearchHit, Track};
use crate::library_pane::{
    active_column, album_middle_text, effective_of, longest, sat_sub, track_middle_text, year_part, ColumnFocus,
    EffectiveLayout, LibraryPane, Mode, ModeView, PaneView, TreeRow,
};
use crate::text::{char_count, decimal, decimal_string, lemma_decimal_u64, owned, push_char, push_decimal, push_signed};

verus! {

/// "1 track", otherwise "N tracks".
pub open spec fn tracks_text(count: nat) -> Seq<char> {
    if count == 1 { "1 track"@ } else { decimal(count) + " tracks"@ }
}

pub fn tracks_label(count: u32) -> (r: String)
    ensures
        r@ == tracks_text(count as nat),
{
    if count == 1 {
        owned("1 track")
    } else {
        let mut out = String::new();
        push_decimal(&mut out, count as u64);
        out.append(" tracks");
        out
    }
}

pub open spec fn middot() -> Seq<char> {
    " · "@
}

/// How many hits of each kind: artists, albums, tracks.
pub open spec fn hit_counts(hits: Seq<SearchHit>) -> (nat, nat, nat)
    decreases hits.len(),
{
    if hits.len() == 0 {
        (0, 0, 0)
    } else {
        let (a, b, t) = hit_counts(hits.drop_last());
        match hits.last() {
            SearchHit::Artist(_) => (a + 1, b, t),
            SearchHit::Album(_) => (a, b + 1, t),
            SearchHit::Track(_) => (a, b, t + 1),
        }
    }
}

/// The summary counts the hits by kind: the artists are the hits that are
/// artists, the albums those that are albums, the tracks those that are
/// tracks, and every hit is counted once.
pub proof fn hits_are_counted_by_kind(hits: Seq<SearchHit>)
    ensures
        hit_counts(hits).0 == hits.filter(|h: SearchHit| h is Artist).len(),
        hit_counts(hits).1 == hits.filter(|h: SearchHit| h is Album).len(),
        hit_counts(hits).2 == hits.filter(|h: SearchHit| h is Track).len(),
        hit_counts(hits).0 + hit_counts(hits).1 + hit_counts(hits).2 == hits.len(),
        summary_text(hit_counts(hits)) == decimal(hits.filter(|h: SearchHit| h is Artist).len()) + seq![' ', 'a', 'r', 't', 'i', 's', 't', 's', ' ', '·', ' ']
            + decimal(hits.filter(|h: SearchHit| h is Album).len()) + seq![' ', 'a', 'l', 'b', 'u', 'm', 's', ' ', '·', ' ']
            + decimal(hits.filter(|h: SearchHit| h is Track).len()) + seq![' ', 't', 'r', 'a', 'c', 'k', 's'],
    decreases hits.len(),
{
    reveal(Seq::filter);
    if hits.len() > 0 {
        hits_are_counted_by_kind(hits.drop_last());
    }
    reveal_strlit(" artists");
    reveal_strlit(" albums");
    reveal_strlit(" tracks");
    reveal_strlit(" · ");
    let c = hit_counts(hits);
    assert(summary_text(c) =~= decimal(c.0) + seq![' ', 'a', 'r', 't', 'i', 's', 't', 's', ' ', '·', ' ']
        + decimal(c.1) + seq![' ', 'a', 'l', 'b', 'u', 'm', 's', ' ', '·', ' ']
        + decimal(c.2) + seq![' ', 't', 'r', 'a', 'c', 'k', 's']);
}

pub open spec fn summary_text(counts: (nat, nat, nat)) -> Seq<char> {
    decimal(counts.0) + " artists"@ + middot() + decimal(counts.1) + " albums"@ + middot()
        + decimal(counts.2) + " tracks"@
}

/// "A artists · B albums · T tracks" for a list of search results.
pub fn search_summary(hits: &[SearchHit]) -> (r: String)
    ensures
        r@ == summary_text(hit_counts(hits@)),
{
    let mut artists: u64 = 0;
    let mut albums: u64 = 0;
    let mut tracks: u64 = 0;
    let mut i: usize = 0;
    assert(hits@.take(0) =~= Seq::<SearchHit>::empty());
    while i < hits.len()
        invariant
            i <= hits.len(),
            hit_counts(hits@.take(i as int)) == (artists as nat, albums as nat, tracks as nat),
            artists + albums + tracks == i,
        decreases hits.len() - i,
    {
        assert(hits@.take(i + 1).drop_last() =~= hits@.take(i as int));
        match &hits[i] {
            SearchHit::Artist(_) => artists += 1,
            SearchHit::Album(_) => albums += 1,
            SearchHit::Track(_) => tracks += 1,
        }
        i += 1;
    }
    assert(hits@.take(hits.len() as int) =~= hits@);
    let mut out = String::new();
    push_decimal(&mut out, artists);
    out.append(" artists · ");
    push_decimal(&mut out, albums);
    out.append(" albums · ");
    push_decimal(&mut out, tracks);
    out.append(" tracks");
    proof {
        reveal_strlit(" artists · ");
        reveal_strlit(" albums · ");
        reveal_strlit(" artists");
        reveal_strlit(" albums");
        reveal_strlit(" · ");
    }
    assert(out@ =~= summary_text(hit_counts(hits@)));
    out
}

/// Track count, and the album's length when known.
pub open spec fn album_right_text(a: AlbumSummary) -> Seq<char> {
    match a.total_ms {
        Some(ms) => tracks_text(a.track_count as nat) + middot() + duration_text(ms as nat),
        None => tracks_text(a.track_count as nat),
    }
}

pub open spec fn artist_right_text(a: ArtistSummary) -> Seq<char> {
    tracks_text(a.track_count as nat) + " · artist"@
}

pub open spec fn search_album_right_text(a: AlbumSummary) -> Seq<char> {
    album_right_text(a) + " · album"@
}

/// The track number right-aligned in two columns and a space, or three spaces.
pub open spec fn track_number_text(t: Track) -> Seq<char> {
    match t.track_number {
        Some(n) => if n < 10 { seq![' '] + decimal(n as nat) + seq![' '] } else { decimal(n as nat) + seq![' '] },
        None => seq![' ', ' ', ' '],
    }
}

pub open spec fn track_right_text(t: Track) -> Seq<char> {
    track_number_text(t) + duration_opt_text(t.duration_ms)
}

pub fn album_right(album: &AlbumSummary) -> (r: String)
    ensures
        r@ == album_right_text(*album),
{
    let mut out = tracks_label(album.track_count);
    match album.total_ms {
        Some(ms) => {
            out.append(" · ");
            let d = duration(ms);
            out.append(d.as_str());
            proof { reveal_strlit(" · "); }
            assert(out@ =~= album_right_text(*album));
        },
        None => {},
    }
    out
}

pub fn artist_right(artist: &ArtistSummary) -> (r: String)
    ensures
        r@ == artist_right_text(*artist),
{
    let mut out = tracks_label(artist.track_count);
    out.append(" · artist");
    out
}

pub fn search_album_right(album: &AlbumSummary) -> (r: String)
    ensures
        r@ == search_album_right_text(*album),
{
    let mut out = album_right(album);
    out.append(" · album");
    out
}

pub fn track_number(track: &Track) -> (r: String)
    ensures
        r@ == track_number_text(*track),
{
    let mut out = String::new();
    match track.track_number {
        Some(n) => {
            if n < 10 {
                push_char(&mut out, ' ');
            }
            push_decimal(&mut out, n as u64);
            push_char(&mut out, ' ');
        },
        None => {
            push_char(&mut out, ' ');
            push_char(&mut out, ' ');
            push_char(&mut out, ' ');
        },
    }
    assert(out@ =~= track_number_text(*track));
    out
}

pub fn track_right(track: &Track) -> (r: String)
    ensures
        r@ == track_right_text(*track),
{
    let mut out = track_number(track);
    let time = duration_opt(track.duration_ms);
    out.append(time.as_str());
    out
}

proof fn lemma_tracks_text_short(count: u32)
    ensures
        tracks_text(count as nat).len() <= 27,
{
    lemma_decimal_u64(count as nat);
    reveal_strlit("1 track");
    reveal_strlit(" tracks");
}

proof fn lemma_duration_short(ms: u64)
    ensures
        duration_text(ms as nat).len() <= 70,
{
    let secs = ms as nat / 1000;
    let h = secs / 3600;
    let m = (secs % 3600) / 60;
    lemma_decimal_u64(h);
    lemma_decimal_u64(m);
    lemma_decimal_u64(secs % 60);
}

/// Right-hand texts are counts and lengths, so they stay short.
proof fn lemma_rights_short(a: ArtistSummary, b: AlbumSummary, t: Track)
    ensures
        artist_right_text(a).len() <= 200,
        album_right_text(b).len() <= 200,
        search_album_right_text(b).len() <= 200,
        track_right_text(t).len() <= 200,
{
    lemma_tracks_text_short(a.track_count);
    lemma_tracks_text_short(b.track_count);
    reveal_strlit(" · artist");
    reveal_strlit(" · album");
    reveal_strlit(" · ");
    match b.total_ms {
        Some(ms) => lemma_duration_short(ms),
        None => {},
    }
    match t.track_number {
        Some(n) => lemma_decimal_u64(n as nat),
        None => {},
    }
    match t.duration_ms {
        Some(ms) => lemma_duration_short(ms),
        None => { reveal_strlit("--:--"); },
    }
}

/// The columns a right-hand text reserves: the text and a gap of two.
pub open spec fn fixed_of(right: Seq<char>) -> nat {
    right.len() + 2
}

pub open spec fn hit_fixed(h: SearchHit) -> nat {
    match h {
        SearchHit::Artist(a) => fixed_of(artist_right_text(a)),
        SearchHit::Album(a) => fixed_of(search_album_right_text(a)),
        SearchHit::Track(t) => fixed_of(track_right_text(t)),
    }
}

/// The widest right-hand column of the list being shown; a tree reserves 12.
pub open spec fn widest_fixed(v: PaneView, strip: nat) -> nat {
    match v.mode {
        ModeView::Browse => if effective_of(v, strip) == EffectiveLayout::Tree {
            12
        } else {
            match active_column(v, strip) {
                ColumnFocus::Artists => longest(v.artists.map_values(|a: ArtistSummary| fixed_of(artist_right_text(a)))),
                ColumnFocus::Albums => longest(v.albums.map_values(|a: AlbumSummary| fixed_of(album_right_text(a)))),
                ColumnFocus::Tracks => longest(v.tracks.map_values(|t: Track| fixed_of(track_right_text(t)))),
            }
        },
        ModeView::Search(_) => longest(v.hits.map_values(|h: SearchHit| hit_fixed(h))),
        ModeView::AllTracks => longest(v.tracks.map_values(|t: Track| fixed_of(track_right_text(t)))),
    }
}

pub open spec fn title_slot_of(v: PaneView, strip: nat) -> nat {
    if strip > widest_fixed(v, strip) { (strip - widest_fixed(v, strip)) as nat } else { 0 }
}

proof fn lemma_longest_step(lens: Seq<nat>, i: int)
    requires
        0 <= i < lens.len(),
    ensures
        longest(lens.take(i + 1)) == if lens[i] > longest(lens.take(i)) { lens[i] } else { longest(lens.take(i)) },
{
    assert(lens.take(i + 1).drop_last() =~= lens.take(i));
}

fn widest_artists(artists: &[ArtistSummary]) -> (r: usize)
    ensures
        r == longest(artists@.map_values(|a: ArtistSummary| fixed_of(artist_right_text(a)))),
{
    let ghost lens = artists@.map_values(|a: ArtistSummary| fixed_of(artist_right_text(a)));
    let mut best: usize = 0;
    let mut i: usize = 0;
    assert(lens.take(0) =~= Seq::<nat>::empty());
    while i < artists.len()
        invariant
            i <= artists.len(),
            lens == artists@.map_values(|a: ArtistSummary| fixed_of(artist_right_text(a))),
            best == longest(lens.take(i as int)),
        decreases artists.len() - i,
    {
        let right = artist_right(&artists[i]);
        let n = char_count(right.as_str());
        proof {
            lemma_longest_step(lens, i as int);
            lemma_tracks_text_short(artists@[i as int].track_count);
            reveal_strlit(" · artist");
        }
        if n + 2 > best {
            best = n + 2;
        }
        i += 1;
    }
    assert(lens.take(artists.len() as int) =~= lens);
    best
}

fn widest_albums(albums: &[AlbumSummary]) -> (r: usize)
    ensures
        r == longest(albums@.map_values(|a: AlbumSummary| fixed_of(album_right_text(a)))),
{
    let ghost lens = albums@.map_values(|a: AlbumSummary| fixed_of(album_right_text(a)));
    let mut best: usize = 0;
    let mut i: usize = 0;
    assert(lens.take(0) =~= Seq::<nat>::empty());
    while i < albums.len()
        invariant
            i <= albums.len(),
            lens == albums@.map_values(|a: AlbumSummary| fixed_of(album_right_text(a))),
            best == longest(lens.take(i as int)),
        decreases albums.len() - i,
    {
        let right = album_right(&albums[i]);
        let n = char_count(right.as_str());
        proof {
            lemma_longest_step(lens, i as int);
            lemma_rights_short(arbitrary(), albums@[i as int], arbitrary());
        }
        if n + 2 > best {
            best = n + 2;
        }
        i += 1;
    }
    assert(lens.take(albums.len() as int) =~= lens);
    best
}

fn widest_tracks(tracks: &[Track]) -> (r: usize)
    ensures
        r == longest(tracks@.map_values(|t: Track| fixed_of(track_right_text(t)))),
{
    let ghost lens = tracks@.map_values(|t: Track| fixed_of(track_right_text(t)));
    let mut best: usize = 0;
    let mut i: usize = 0;
    assert(lens.take(0) =~= Seq::<nat>::empty());
    while i < tracks.len()
        invariant
            i <= tracks.len(),
            lens == tracks@.map_values(|t: Track| fixed_of(track_right_text(t))),
            best == longest(lens.take(i as int)),
        decreases tracks.len() - i,
    {
        let right = track_right(&tracks[i]);
        let n = char_count(right.as_str());
        proof {
            lemma_longest_step(lens, i as int);
            lemma_rights_short(arbitrary(), arbitrary(), tracks@[i as int]);
        }
        if n + 2 > best {
            best = n + 2;
        }
        i += 1;
    }
    assert(lens.take(tracks.len() as int) =~= lens);
    best
}

fn widest_hits(hits: &[SearchHit]) -> (r: usize)
    ensures
        r == longest(hits@.map_values(|h: SearchHit| hit_fixed(h))),
{
    let ghost lens = hits@.map_values(|h: SearchHit| hit_fixed(h));
    let mut best: usize = 0;
    let mut i: usize = 0;
    assert(lens.take(0) =~= Seq::<nat>::empty());
    while i < hits.len()
        invariant
            i <= hits.len(),
            lens == hits@.map_values(|h: SearchHit| hit_fixed(h)),
            best == longest(lens.take(i as int)),
        decreases hits.len() - i,
    {
        let right = match &hits[i] {
            SearchHit::Artist(a) => artist_right(a),
            SearchHit::Album(a) => search_album_right(a),
            SearchHit::Track(t) => track_right(t),
        };
        let n = char_count(right.as_str());
        proof {
            lemma_longest_step(lens, i as int);
            match hits@[i as int] {
                SearchHit::Artist(a) => lemma_rights_short(a, arbitrary(), arbitrary()),
                SearchHit::Album(b) => lemma_rights_short(arbitrary(), b, arbitrary()),
                SearchHit::Track(t) => lemma_rights_short(arbitrary(), arbitrary(), t),
            }
        }
        if n + 2 > best {
            best = n + 2;
        }
        i += 1;
    }
    assert(lens.take(hits.len() as int) =~= lens);
    best
}

/// Width available for the title column after reserving the widest
/// right-hand column of the list being shown.
pub fn title_slot(pane: &LibraryPane, strip: usize) -> (r: usize)
    ensures
        r == title_slot_of(pane@, strip as nat),
{
    let fixed = match pane.mode() {
        Mode::Browse => {
            let layout = pane.effective_layout(strip);
            if layout == EffectiveLayout::Tree {
                12
            } else {
                let column = if layout == EffectiveLayout::Columns { pane.column_focus() } else { pane.paging_level() };
                match column {
                    ColumnFocus::Artists => widest_artists(pane.artists()),
                    ColumnFocus::Albums => widest_albums(pane.albums()),
                    ColumnFocus::Tracks => widest_tracks(pane.tracks()),
                }
            }
        },
        Mode::Search(_) => widest_hits(pane.search_hits()),
        Mode::AllTracks => widest_tracks(pane.tracks()),
    };
    if strip > fixed { strip - fixed } else { 0 }
}

/// One list row as drawn: the middle text panned into its column, the
/// padding after it, and the right-hand column with its leading space.
pub struct RowText {
    pub shown: String,
    pub pad: usize,
    pub right: String,
}

pub open spec fn middle_width(right: Seq<char>, strip: nat) -> nat {
    if strip > right.len() + 1 { (strip - (right.len() + 1)) as nat } else { 0 }
}

/// Lay out a row `strip` columns wide: the right-hand text keeps its width
/// plus a gap, the middle text is panned by `offset` into the rest.
pub fn list_row(middle: &str, right: &str, strip: usize, offset: usize) -> (r: RowText)
    ensures
        r.shown@ == panned(middle@, offset as nat, middle_width(right@, strip as nat)),
        r.pad == middle_width(right@, strip as nat) - r.shown@.len(),
        r.right@ == seq![' '] + right@,
{
    let right_w = char_count(right);
    let middle_w: usize = if right_w < usize::MAX && strip > right_w + 1 { strip - (right_w + 1) } else { 0 };
    let shown = pan(middle, offset, middle_w);
    let shown_w = char_count(shown.as_str());
    let pad: usize = if middle_w > shown_w { middle_w - shown_w } else { 0 };
    let mut right_text = String::new();
    push_char(&mut right_text, ' ');
    right_text.append(right);
    RowText { shown, pad, right: right_text }
}

/// A short album row: the title and the year.
pub open spec fn album_short_text(a: AlbumSummary) -> Seq<char> {
    a.album@ + year_part(a.year)
}

pub fn album_short_middle(album: &AlbumSummary) -> (r: String)
    ensures
        r@ == album_short_text(*album),
{
    let mut out = owned(album.album.as_str());
    match album.year {
        Some(y) => {
            push_char(&mut out, ' ');
            push_char(&mut out, '(');
            push_signed(&mut out, y);
            push_char(&mut out, ')');
        },
        None => {},
    }
    assert(out@ =~= album_short_text(*album));
    out
}

/// The middle and right-hand texts of a search result row.
pub fn hit_texts(hit: &SearchHit) -> (r: (String, String))
    ensures
        match *hit {
            SearchHit::Artist(a) => r.0@ == a.name@ && r.1@ == artist_right_text(a),
            SearchHit::Album(a) => r.0@ == album_middle_text(a) && r.1@ == search_album_right_text(a),
            SearchHit::Track(t) => r.0@ == track_middle_text(t) && r.1@ == track_right_text(t),
        },
{
    match hit {
        SearchHit::Artist(a) => (LibraryPane::artist_middle(a), artist_right(a)),
        SearchHit::Album(a) => (LibraryPane::album_middle(a), search_album_right(a)),
        SearchHit::Track(t) => (LibraryPane::track_middle(t), track_right(t)),
    }
}

pub open spec fn open_marker(expanded: bool) -> Seq<char> {
    if expanded { seq!['▼', ' '] } else { seq!['▶', ' '] }
}

pub open spec fn indent_text(depth: nat) -> Seq<char> {
    Seq::new(2 * depth, |i: int| ' ')
}

fn push_indent(out: &mut String, depth: usize)
    requires
        depth <= usize::MAX / 2,
    ensures
        final(out)@ == old(out)@ + indent_text(depth as nat),
{
    let mut k: usize = 0;
    while k < 2 * depth
        invariant
            k <= 2 * depth,
            depth <= usize::MAX / 2,
            out@ == old(out)@ + Seq::new(k as nat, |i: int| ' '),
        decreases 2 * depth - k,
    {
        push_char(out, ' ');
        k += 1;
        assert(out@ =~= old(out)@ + Seq::new(k as nat, |i: int| ' '));
    }
    assert(Seq::new(k as nat, |i: int| ' ') =~= indent_text(depth as nat));
}

/// The middle and right-hand texts of a tree row. A track row whose tracks
/// are not loaded shows `?`.
pub fn tree_row_texts(pane: &LibraryPane, row: &TreeRow) -> (r: (String, String))
    requires
        match *row {
            TreeRow::Artist { .. } => true,
            TreeRow::Album { depth, .. } => depth <= usize::MAX / 2,
            TreeRow::Track { depth, .. } => depth <= usize::MAX / 2,
        },
    ensures
        match *row {
            TreeRow::Artist { artist, expanded } => r.0@ == open_marker(expanded) + artist.name@
                && r.1@ == artist_right_text(artist),
            TreeRow::Album { album, expanded, depth, .. } => r.0@ == indent_text(depth as nat) + open_marker(expanded)
                + album_middle_text(album) && r.1@ == album_right_text(album),
            TreeRow::Track { album_key, index, depth } => match crate::library_pane::cached_track(pane@, album_key@, index as nat) {
                Some(t) => r.0@ == indent_text(depth as nat) + track_middle_text(t) && r.1@ == duration_opt_text(t.duration_ms),
                None => r.0@ == indent_text(depth as nat) + seq!['?'] && r.1@ == Seq::<char>::empty(),
            },
        },
{
    match row {
        TreeRow::Artist { artist, expanded } => {
            let mut middle = String::new();
            push_char(&mut middle, if *expanded { '▼' } else { '▶' });
            push_char(&mut middle, ' ');
            middle.append(artist.name.as_str());
            assert(middle@ =~= open_marker(*expanded) + artist.name@);
            (middle, artist_right(artist))
        },
        TreeRow::Album { album, expanded, depth, .. } => {
            let mut middle = String::new();
            push_indent(&mut middle, *depth);
            push_char(&mut middle, if *expanded { '▼' } else { '▶' });
            push_char(&mut middle, ' ');
            let text = LibraryPane::album_middle(album);
            middle.append(text.as_str());
            assert(middle@ =~= indent_text(*depth as nat) + open_marker(*expanded) + album_middle_text(*album));
            (middle, album_right(album))
        },
        TreeRow::Track { album_key, index, depth } => {
            let mut middle = String::new();
            push_indent(&mut middle, *depth);
            match pane.tree_track_cache_get(album_key.as_str(), *index) {
                Some(t) => {
                    let text = LibraryPane::track_middle(t);
                    middle.append(text.as_str());
                    (middle, duration_opt(t.duration_ms))
                },
                None => {
                    push_char(&mut middle, '?');
                    (middle, String::new())
                },
            }
        },
    }
}

/// "12 artists", "3 albums", "40 tracks": the count under a column.
pub open spec fn column_summary_text(column: ColumnFocus, count: nat) -> Seq<char> {
    decimal(count) + match column {
        ColumnFocus::Artists => " artists"@,
        ColumnFocus::Albums => " albums"@,
        ColumnFocus::Tracks => " tracks"@,
    }
}

pub fn column_summary(column: ColumnFocus, count: usize) -> (r: String)
    ensures
        r@ == column_summary_text(column, count as nat),
{
    let mut out = String::new();
    push_decimal(&mut out, count as u64);
    match column {
        ColumnFocus::Artists => out.append(" artists"),
        ColumnFocus::Albums => out.append(" albums"),
        ColumnFocus::Tracks => out.append(" tracks"),
    }
    out
}

pub open spec fn library_slash() -> Seq<char> {
    "Library / "@
}

/// The title of the paging list: the level, or the artist or album opened.
pub open spec fn paging_title_text(v: PaneView) -> Seq<char> {
    match v.paging_level {
        ColumnFocus::Artists => "Library / Artists"@,
        ColumnFocus::Albums => library_slash() + truncated(
            match crate::cursor::selection(v.artist_cursor as int, v.artists.len() as int) {
                Some(i) => v.artists[i].name@,
                None => "Albums"@,
            },
            40,
        ),
        ColumnFocus::Tracks => library_slash() + truncated(
            match crate::cursor::selection(v.album_cursor as int, v.albums.len() as int) {
                Some(i) => v.albums[i].album@,
                None => "Tracks"@,
            },
            40,
        ),
    }
}

pub fn paging_title(pane: &LibraryPane) -> (r: String)
    ensures
        r@ == paging_title_text(pane@),
{
    match pane.paging_level() {
        ColumnFocus::Artists => owned("Library / Artists"),
        ColumnFocus::Albums => {
            let name = match pane.selected_artist_index() {
                Some(i) => owned(pane.artists()[i].name.as_str()),
                None => owned("Albums"),
            };
            let mut out = owned("Library / ");
            let cut = truncate(name.as_str(), 40);
            out.append(cut.as_str());
            out
        },
        ColumnFocus::Tracks => {
            let name = match pane.selected_album_index() {
                Some(i) => owned(pane.albums()[i].album.as_str()),
                None => owned("Tracks"),
            };
            let mut out = owned("Library / ");
            let cut = truncate(name.as_str(), 40);
            out.append(cut.as_str());
            out
        },
    }
}

/// The title of the single-list views: all tracks, or the search and its query.
pub open spec fn single_title_text(mode: ModeView) -> Seq<char> {
    match mode {
        ModeView::AllTracks => "Library / all tracks"@,
        ModeView::Search(q) => "Library / search "@ + seq!['"'] + truncated(q, 30) + seq!['"'],
        ModeView::Browse => "Library"@,
    }
}

pub fn single_list_title(pane: &LibraryPane) -> (r: String)
    ensures
        r@ == single_title_text(pane@.mode),
{
    match pane.mode() {
        Mode::AllTracks => owned("Library / all tracks"),
        Mode::Search(q) => {
            let mut out = owned("Library / search ");
            push_char(&mut out, '"');
            let cut = truncate(q.as_str(), 30);
            out.append(cut.as_str());
            push_char(&mut out, '"');
            proof { reveal_strlit("Library / search "); }
            assert(out@ =~= single_title_text(pane@.mode));
            out
        },
        Mode::Browse => owned("Library"),
    }
}

pub open spec fn nothing_here() -> Seq<char> {
    "Nothing here. Press / to search, or Esc to go back."@
}

/// What an empty list says: why the pane is empty, or how to fill it.
pub fn empty_notice(pane: &LibraryPane) -> (r: String)
    ensures
        r@ == match pane@.notice {
            Some(n) => n,
            None => nothing_here(),
        },
{
    match pane.notice() {
        Some(n) => owned(n),
        None => owned("Nothing here. Press / to search, or Esc to go back."),
    }
}

// ---- queue rows ----

/// Columns the queue's row numbers take: as many as the largest number
/// needs, and never fewer than two.
pub open spec fn index_width_of(count: nat) -> nat {
    if decimal(count).len() < 2 { 2 } else { decimal(count).len() }
}

/// Columns of a queue row that are not its label: the number and a space,
/// the two-column playing marker, the gap before the time, the time, and a
/// column of margin.
pub open spec fn queue_fixed_of(count: nat, time_len: nat) -> nat {
    index_width_of(count) + 5 + time_len
}

/// The lengths of some texts.
pub open spec fn lens_of(texts: Seq<String>) -> Seq<nat> {
    texts.map_values(|t: String| t@.len())
}

/// The width the queue's labels get in a list `width` wide: what is left
/// once the widest time column is kept; all of it for an empty queue.
pub open spec fn queue_slot_of(times: Seq<String>, width: nat) -> nat {
    if times.len() == 0 {
        width
    } else {
        sat_sub(width, queue_fixed_of(times.len(), longest(lens_of(times))))
    }
}

pub fn index_width(count: usize) -> (r: usize)
    ensures
        r == index_width_of(count as nat),
        r <= 20,
{
    let digits = decimal_string(count as u64);
    proof { lemma_decimal_u64(count as nat); }
    let d = char_count(digits.as_str());
    if d < 2 { 2 } else { d }
}

/// The label width of the queue, given each row's time text.
pub fn queue_title_slot(times: &[String], width: usize) -> (r: usize)
    ensures
        r == queue_slot_of(times@, width as nat),
{
    if times.len() == 0 {
        return width;
    }
    let mut widest: usize = 0;
    let mut k: usize = 0;
    while k < times.len()
        invariant
            k <= times.len(),
            widest == longest(lens_of(times@).take(k as int)),
        decreases times.len() - k,
    {
        let n = char_count(times[k].as_str());
        proof {
            let lens = lens_of(times@);
            assert(lens.take(k + 1).drop_last() =~= lens.take(k as int));
            assert(lens.take(k + 1).last() == n);
        }
        if n > widest {
            widest = n;
        }
        k += 1;
    }
    proof {
        assert(lens_of(times@).take(times@.len() as int) =~= lens_of(times@));
    }
    let iw = index_width(times.len());
    if widest >= width || iw + 5 >= width - widest {
        0
    } else {
        width - widest - (iw + 5)
    }
}

/// The right-aligned row number and the space after it.
pub open spec fn number_text(index: nat, count: nat) -> Seq<char> {
    let digits = decimal(index + 1);
    Seq::new(sat_sub(index_width_of(count), digits.len()), |i: int| ' ') + digits + seq![' ']
}

/// One queue row as drawn: the number, the label panned into its slot, and
/// the padding before the time.
pub struct QueueRowText {
    pub number: String,
    pub label: String,
    pub pad: usize,
}

/// Lay out row `index` of a queue of `count` rows in a list `width` wide:
/// the label is panned by `offset` into what the number, marker and `time`
/// leave.
pub fn queue_row(index: usize, count: usize, label: &str, time: &str, offset: usize, width: usize) -> (r: QueueRowText)
    requires
        index < count,
    ensures
        r.number@ == number_text(index as nat, count as nat),
        r.label@ == panned(label@, offset as nat, sat_sub(width as nat, queue_fixed_of(count as nat, time@.len()))),
        r.pad == (if sat_sub(width as nat, queue_fixed_of(count as nat, time@.len()) + r.label@.len()) < usize::MAX {
            sat_sub(width as nat, queue_fixed_of(count as nat, time@.len()) + r.label@.len()) + 1
        } else {
            usize::MAX as nat
        }),
{
    let iw = index_width(count);
    let digits = decimal_string((index + 1) as u64);
    let dl = char_count(digits.as_str());
    let mut number = String::new();
    let spaces: usize = if iw > dl { iw - dl } else { 0 };
    let mut k: usize = 0;
    while k < spaces
        invariant
            k <= spaces,
            number@ == Seq::new(k as nat, |i: int| ' '),
        decreases spaces - k,
    {
        push_char(&mut number, ' ');
        k += 1;
        assert(number@ =~= Seq::new(k as nat, |i: int| ' '));
    }
    number.append(digits.as_str());
    push_char(&mut number, ' ');
    assert(number@ =~= number_text(index as nat, count as nat));

    let tl = char_count(time);
    let slot: usize = if tl >= width || iw + 5 >= width - tl { 0 } else { width - tl - (iw + 5) };
    let shown = pan(label, offset, slot);
    let ll = char_count(shown.as_str());
    proof {
        crate::format::a_cut_text_fits_its_columns(crate::format::skipped(label@, offset as nat), slot as nat, 0);
    }
    let used: usize = if tl >= width || iw + 5 >= width - tl { width } else { tl + iw + 5 };
    let rest: usize = if used >= width || ll >= width - used { 0 } else { width - used - ll };
    let pad: usize = if rest < usize::MAX { rest + 1 } else { rest };
    QueueRowText { number, label: shown, pad }
}

} // verus!
