//! Titles and durations for queue entries.
//!
//! The player's queue is a list of paths, but a music player has to show
//! "Artist — Title", not `04 - track.flac`. Reading tags takes a file open and
//! a seek each, so doing it while drawing would stutter on a large queue.
//! Instead the interface asks for a path, gets whatever is known now, and a
//! reader off the interface thread fills in the rest for the next frame.

use vstd::prelude::*;
use crate::keyed::TextMap;
use crate::library::clone_opt_string;
use crate::text::owned;

verus! {

/// What the interface needs to draw one queue row. Lengths are milliseconds.
#[derive(Debug, Default, PartialEq, Eq)]
pub struct Entry {
    pub title: String,
    pub artist: Option<String>,
    pub album: Option<String>,
    pub duration: Option<u64>,
}

impl Clone for Entry {
    fn clone(&self) -> (r: Self)
        ensures
            r == *self,
    {
        Entry {
            title: self.title.clone(),
            artist: clone_opt_string(&self.artist),
            album: clone_opt_string(&self.album),
            duration: self.duration,
        }
    }
}

/// The separator between artist and title.
pub open spec fn dash() -> Seq<char> {
    seq![' ', '—', ' ']
}

/// "Artist — Title" when the artist is known, otherwise just the title.
pub open spec fn label_text(title: Seq<char>, artist: Option<Seq<char>>) -> Seq<char> {
    match artist {
        Some(a) => a + dash() + title,
        None => title,
    }
}

pub open spec fn opt_view(s: Option<String>) -> Option<Seq<char>> {
    match s {
        Some(t) => Some(t@),
        None => None,
    }
}

impl Entry {
    /// "Artist — Title" when the artist is known, otherwise just the title.
    pub fn label(&self) -> (r: String)
        ensures
            r@ == label_text(self.title@, opt_view(self.artist)),
    {
        match &self.artist {
            Some(artist) => {
                let mut out = owned(artist.as_str());
                out.append(" — ");
                out.append(self.title.as_str());
                proof { reveal_strlit(" — "); }
                assert(out@ =~= label_text(self.title@, opt_view(self.artist)));
                out
            },
            None => owned(self.title.as_str()),
        }
    }
}

/// What a look at the tag cache yields: the cache after the look, the tags
/// known for the path (`None` while they are being read), and whether the
/// reader has to be asked for them, which is only on the first look.
pub open spec fn tag_lookup(cache: Map<Seq<char>, Option<Entry>>, path: Seq<char>) -> (Map<Seq<char>, Option<Entry>>, Option<Entry>, bool) {
    if cache.dom().contains(path) {
        (cache, cache[path], false)
    } else {
        (cache.insert(path, None), None, true)
    }
}

/// Tags by path, filled lazily: a path looked at but not yet read is held
/// as pending, so a redraw does not ask for the same file again.
pub struct TagCache {
    entries: TextMap<Option<Entry>>,
}

impl View for TagCache {
    type V = Map<Seq<char>, Option<Entry>>;

    closed spec fn view(&self) -> Map<Seq<char>, Option<Entry>> {
        self.entries@
    }
}

impl TagCache {
    pub fn new() -> (r: Self)
        ensures
            r@ == Map::<Seq<char>, Option<Entry>>::empty(),
    {
        TagCache { entries: TextMap::new() }
    }

    /// Tags for a path, or `None` while they are still being read, and
    /// whether the reader must be asked for them now.
    pub fn get(&mut self, path: &str) -> (r: (Option<Entry>, bool))
        ensures
            (final(self)@, r.0, r.1) == tag_lookup(old(self)@, path@),
    {
        match self.entries.get(path) {
            Some(known) => {
                let entry = match known {
                    Some(e) => Some(e.clone()),
                    None => None,
                };
                (entry, false)
            },
            None => {
                self.entries.insert(owned(path), None);
                (None, true)
            },
        }
    }

    /// Store tags already known, such as a row of the library database, or
    /// what the reader found.
    pub fn insert(&mut self, path: String, entry: Entry)
        ensures
            final(self)@ == old(self)@.insert(path@, Some(entry)),
    {
        self.entries.insert(path, Some(entry));
    }
}

/// The first look at a path asks the reader; every later look, until the
/// tags arrive, waits without asking again.
pub proof fn a_miss_asks_the_reader_once(cache: Map<Seq<char>, Option<Entry>>, path: Seq<char>)
    ensures
        !tag_lookup(tag_lookup(cache, path).0, path).2,
        tag_lookup(tag_lookup(cache, path).0, path).1 == tag_lookup(cache, path).1,
{
}

/// Tags that were supplied are there at once, without asking the reader.
pub proof fn supplied_tags_are_there_at_once(cache: Map<Seq<char>, Option<Entry>>, path: Seq<char>, entry: Entry)
    ensures
        tag_lookup(cache.insert(path, Some(entry)), path) == (cache.insert(path, Some(entry)), Some(entry), false),
{
}

} // verus!
