//! The music library as the interface sees it.
//!
//! The library itself is a database the frontend opens; what the browser
//! reads of it arrives here as plain values. A [`LibrarySnapshot`] holds the
//! answers to the browse queries (artists, each artist's albums, each album's
//! tracks), so every rule of the browser can be checked against them.
//! Lengths of time are whole milliseconds.

use vstd::prelude::*;

verus! {

#[derive(Debug, PartialEq, Eq)]
pub struct ArtistSummary {
    pub name: String,
    pub track_count: u32,
}

#[derive(Debug, PartialEq, Eq)]
pub struct AlbumSummary {
    pub album: String,
    pub album_artist: Option<String>,
    pub year: Option<i32>,
    pub track_count: u32,
    pub total_ms: Option<u64>,
}

#[derive(Debug, PartialEq, Eq)]
pub struct Track {
    pub id: i64,
    pub path: String,
    pub title: String,
    pub artist: Option<String>,
    pub album: Option<String>,
    pub album_artist: Option<String>,
    pub genre: Option<String>,
    pub year: Option<i32>,
    pub track_number: Option<u32>,
    pub disc_number: Option<u32>,
    pub codec: Option<String>,
    pub sample_rate: Option<u32>,
    pub channels: Option<u16>,
    pub bits_per_sample: Option<u16>,
    pub duration_ms: Option<u64>,
}

/// One search result: an artist, an album or a track.
#[derive(Debug, PartialEq, Eq)]
pub enum SearchHit {
    Artist(ArtistSummary),
    Album(AlbumSummary),
    Track(Track),
}

pub fn clone_opt_string(s: &Option<String>) -> (r: Option<String>)
    ensures
        r == *s,
{
    match s {
        Some(t) => Some(t.clone()),
        None => None,
    }
}

impl Clone for ArtistSummary {
    fn clone(&self) -> (r: Self)
        ensures
            r == *self,
    {
        ArtistSummary { name: self.name.clone(), track_count: self.track_count }
    }
}

impl Clone for AlbumSummary {
    fn clone(&self) -> (r: Self)
        ensures
            r == *self,
    {
        AlbumSummary {
            album: self.album.clone(),
            album_artist: clone_opt_string(&self.album_artist),
            year: self.year,
            track_count: self.track_count,
            total_ms: self.total_ms,
        }
    }
}

impl Clone for Track {
    fn clone(&self) -> (r: Self)
        ensures
            r == *self,
    {
        Track {
            id: self.id,
            path: self.path.clone(),
            title: self.title.clone(),
            artist: clone_opt_string(&self.artist),
            album: clone_opt_string(&self.album),
            album_artist: clone_opt_string(&self.album_artist),
            genre: clone_opt_string(&self.genre),
            year: self.year,
            track_number: self.track_number,
            disc_number: self.disc_number,
            codec: clone_opt_string(&self.codec),
            sample_rate: self.sample_rate,
            channels: self.channels,
            bits_per_sample: self.bits_per_sample,
            duration_ms: self.duration_ms,
        }
    }
}

impl Clone for SearchHit {
    fn clone(&self) -> (r: Self)
        ensures
            r == *self,
    {
        match self {
            SearchHit::Artist(a) => SearchHit::Artist(a.clone()),
            SearchHit::Album(a) => SearchHit::Album(a.clone()),
            SearchHit::Track(t) => SearchHit::Track(t.clone()),
        }
    }
}

pub fn clone_artists(v: &[ArtistSummary]) -> (r: Vec<ArtistSummary>)
    ensures
        r@ == v@,
{
    let mut out: Vec<ArtistSummary> = Vec::new();
    let mut i: usize = 0;
    while i < v.len()
        invariant
            i <= v.len(),
            out@ == v@.take(i as int),
        decreases v.len() - i,
    {
        out.push(v[i].clone());
        i += 1;
        assert(out@ =~= v@.take(i as int));
    }
    assert(v@.take(v@.len() as int) =~= v@);
    out
}

pub fn clone_albums(v: &[AlbumSummary]) -> (r: Vec<AlbumSummary>)
    ensures
        r@ == v@,
{
    let mut out: Vec<AlbumSummary> = Vec::new();
    let mut i: usize = 0;
    while i < v.len()
        invariant
            i <= v.len(),
            out@ == v@.take(i as int),
        decreases v.len() - i,
    {
        out.push(v[i].clone());
        i += 1;
        assert(out@ =~= v@.take(i as int));
    }
    assert(v@.take(v@.len() as int) =~= v@);
    out
}

pub fn clone_tracks(v: &[Track]) -> (r: Vec<Track>)
    ensures
        r@ == v@,
{
    let mut out: Vec<Track> = Vec::new();
    let mut i: usize = 0;
    while i < v.len()
        invariant
            i <= v.len(),
            out@ == v@.take(i as int),
        decreases v.len() - i,
    {
        out.push(v[i].clone());
        i += 1;
        assert(out@ =~= v@.take(i as int));
    }
    assert(v@.take(v@.len() as int) =~= v@);
    out
}

/// The answer a keyed query gave: the rows for the first entry whose key is
/// `key` (`None` when that query failed), and no rows for a key never asked.
pub open spec fn answer<T>(entries: Seq<(String, Option<Vec<T>>)>, key: Seq<char>) -> Option<Seq<T>>
    decreases entries.len(),
{
    if entries.len() == 0 {
        Some(Seq::empty())
    } else if entries[0].0@ == key {
        match entries[0].1 {
            Some(v) => Some(v@),
            None => None,
        }
    } else {
        answer(entries.drop_first(), key)
    }
}

/// The rows of an answer, with a failed query read as no rows.
pub open spec fn rows_or_empty<T>(a: Option<Seq<T>>) -> Seq<T> {
    match a {
        Some(rows) => rows,
        None => Seq::empty(),
    }
}

/// Find the answer for `key` among keyed answers.
pub fn find_answer<'a, T>(entries: &'a Vec<(String, Option<Vec<T>>)>, key: &str) -> (r: Option<&'a [T]>)
    ensures
        match answer(entries@, key@) {
            Some(rows) => r is Some && r.unwrap()@ == rows,
            None => r is None,
        },
{
    let mut i: usize = 0;
    assert(entries@.skip(0) =~= entries@);
    while i < entries.len()
        invariant
            i <= entries.len(),
            answer(entries@, key@) == answer(entries@.skip(i as int), key@),
        decreases entries.len() - i,
    {
        proof {
            assert(entries@.skip(i as int).drop_first() =~= entries@.skip(i + 1));
        }
        if crate::text::same_text(entries[i].0.as_str(), key) {
            return match &entries[i].1 {
                Some(v) => Some(v.as_slice()),
                None => None,
            };
        }
        i += 1;
    }
    let empty: &[T] = &[];
    proof {
        assert(entries@.skip(i as int).len() == 0);
    }
    Some(empty)
}

/// The first index at or after `from` whose element satisfies `p`.
pub open spec fn first_where<T>(s: Seq<T>, p: spec_fn(T) -> bool, from: int) -> Option<int>
    decreases s.len() - from,
{
    if from < 0 || from >= s.len() {
        None
    } else if p(s[from]) {
        Some(from)
    } else {
        first_where(s, p, from + 1)
    }
}

/// What `first_where` finds: a matching index with no match before it.
pub proof fn lemma_first_where<T>(s: Seq<T>, p: spec_fn(T) -> bool, from: int)
    requires
        0 <= from,
    ensures
        match first_where(s, p, from) {
            Some(i) => from <= i < s.len() && p(s[i]) && forall|j: int| from <= j < i ==> !p(#[trigger] s[j]),
            None => forall|j: int| from <= j < s.len() ==> !p(#[trigger] s[j]),
        },
    decreases s.len() - from,
{
    if from < s.len() && !p(s[from]) {
        lemma_first_where(s, p, from + 1);
    }
}

/// What the database answered to the browser's queries.
pub struct LibrarySnapshot {
    /// Artists in browse order, or why they could not be read.
    pub browse_artists: Result<Vec<ArtistSummary>, String>,
    /// Each browse artist's albums.
    pub albums_by_artist: Vec<(String, Option<Vec<AlbumSummary>>)>,
    /// Each album's tracks.
    pub tracks_by_album: Vec<(String, Option<Vec<Track>>)>,
    /// Tracks credited to an artist, for artists whose albums hold none.
    pub tracks_by_artist: Vec<(String, Option<Vec<Track>>)>,
    /// Every track, for a library whose files have no album tags.
    pub all_tracks: Result<Vec<Track>, String>,
}

impl LibrarySnapshot {
    pub open spec fn albums_of(&self, artist: Seq<char>) -> Option<Seq<AlbumSummary>> {
        answer(self.albums_by_artist@, artist)
    }

    pub open spec fn album_tracks_of(&self, album: Seq<char>) -> Option<Seq<Track>> {
        answer(self.tracks_by_album@, album)
    }

    pub open spec fn artist_tracks_of(&self, artist: Seq<char>) -> Option<Seq<Track>> {
        answer(self.tracks_by_artist@, artist)
    }

    /// The albums filed under a browse artist.
    pub fn albums_for_browse_artist(&self, artist: &str) -> (r: Option<&[AlbumSummary]>)
        ensures
            match self.albums_of(artist@) {
                Some(rows) => r is Some && r.unwrap()@ == rows,
                None => r is None,
            },
    {
        find_answer(&self.albums_by_artist, artist)
    }

    /// The tracks of an album.
    pub fn browse_album(&self, album: &str) -> (r: Option<&[Track]>)
        ensures
            match self.album_tracks_of(album@) {
                Some(rows) => r is Some && r.unwrap()@ == rows,
                None => r is None,
            },
    {
        find_answer(&self.tracks_by_album, album)
    }

    /// Tracks credited to an artist.
    pub fn tracks_for_artist(&self, artist: &str) -> (r: Option<&[Track]>)
        ensures
            match self.artist_tracks_of(artist@) {
                Some(rows) => r is Some && r.unwrap()@ == rows,
                None => r is None,
            },
    {
        find_answer(&self.tracks_by_artist, artist)
    }
}

} // verus!
