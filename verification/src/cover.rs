//! Which cover a radio stream shows, and the canvas a cover is drawn on.
//!
//! The pictures themselves are decoded and scaled by the frontend; here a
//! decoded picture is known by the number the cover cache gave it, which is
//! all the choice between sources needs.

use vstd::prelude::*;
use crate::keyed::TextMap;
use crate::text::{decimal, owned, push_decimal, same_text};

verus! {

/// A cover as far as choosing goes: still loading, the bundled logo, or a
/// decoded picture, known by its number in the cover cache.
#[derive(Debug, Clone, Copy, PartialEq, Eq, Structural)]
pub enum CoverReady {
    Pending,
    Logo,
    Embedded(u64),
}

/// The first of the stream's own artwork, the network's channel art and the
/// station's picture that has been decoded; the logo when none has.
pub open spec fn stream_cover(icy: CoverReady, audioaddict: CoverReady, station: CoverReady) -> CoverReady {
    if icy is Embedded {
        icy
    } else if audioaddict is Embedded {
        audioaddict
    } else if station is Embedded {
        station
    } else {
        CoverReady::Logo
    }
}

pub fn pick_stream_cover(icy: CoverReady, audioaddict: CoverReady, station: CoverReady) -> (r: CoverReady)
    ensures
        r == stream_cover(icy, audioaddict, station),
{
    if let CoverReady::Embedded(_) = icy {
        return icy;
    }
    if let CoverReady::Embedded(_) = audioaddict {
        return audioaddict;
    }
    if let CoverReady::Embedded(_) = station {
        return station;
    }
    CoverReady::Logo
}

/// The pixel canvas behind a cover slot of `cols` by `rows` cells: the
/// slot's size in pixels, and the left pad that keeps the picture clear of
/// the list's border line (half a cell).
#[derive(Debug, Clone, Copy, PartialEq, Eq, Structural)]
pub struct CoverCanvas {
    pub width: u32,
    pub height: u32,
    pub pad_x: u32,
}

/// A font cell is at least one pixel each way.
pub open spec fn at_least_one(n: u16) -> nat {
    if n == 0 { 1 } else { n as nat }
}

pub open spec fn canvas_of(cols: u16, rows: u16, font_w: u16, font_h: u16) -> CoverCanvas {
    let w = cols * at_least_one(font_w);
    let h = rows * at_least_one(font_h);
    CoverCanvas {
        width: if w == 0 { 1 } else { w as u32 },
        height: if h == 0 { 1 } else { h as u32 },
        pad_x: (at_least_one(font_w) / 2) as u32,
    }
}

/// Size the canvas for a slot: never empty, whatever the terminal reports.
pub fn cover_canvas(cols: u16, rows: u16, font_w: u16, font_h: u16) -> (r: CoverCanvas)
    ensures
        r == canvas_of(cols, rows, font_w, font_h),
        r.width >= 1,
        r.height >= 1,
{
    let fw: u32 = if font_w == 0 { 1 } else { font_w as u32 };
    let fh: u32 = if font_h == 0 { 1 } else { font_h as u32 };
    let c = cols as u32;
    let r = rows as u32;
    assert(c * fw <= 0xFFFF * 0xFFFF) by (nonlinear_arith)
        requires
            c <= 0xFFFF,
            fw <= 0xFFFF,
    ;
    assert(r * fh <= 0xFFFF * 0xFFFF) by (nonlinear_arith)
        requires
            r <= 0xFFFF,
            fh <= 0xFFFF,
    ;
    let w = c * fw;
    let h = r * fh;
    CoverCanvas { width: if w == 0 { 1 } else { w }, height: if h == 0 { 1 } else { h }, pad_x: fw / 2 }
}

// ---- the cover cache ----

/// Where a cover comes from.
#[derive(Debug)]
pub enum CoverKey {
    /// The picture embedded in a track file.
    File(String),
    /// A station's picture file.
    ImageFile(String),
    /// Artwork a stream advertises.
    Url(String),
    /// A channel of an AudioAddict network, the network known by its number.
    AudioAddict(u32, String),
}

/// The text a cover is filed under: a tag for its source, then its path,
/// its address, or its network and channel.
pub open spec fn key_text(key: CoverKey) -> Seq<char> {
    match key {
        CoverKey::File(path) => "file:"@ + path@,
        CoverKey::ImageFile(path) => "image:"@ + path@,
        CoverKey::Url(url) => "url:"@ + url@,
        CoverKey::AudioAddict(network, channel) => "aa:"@ + decimal(network as nat) + ":"@ + channel@,
    }
}

/// The text `key` is filed under.
pub fn key_text_of(key: &CoverKey) -> (r: String)
    ensures
        r@ == key_text(*key),
{
    match key {
        CoverKey::File(path) => {
            let mut t = owned("file:");
            t.append(path.as_str());
            t
        },
        CoverKey::ImageFile(path) => {
            let mut t = owned("image:");
            t.append(path.as_str());
            t
        },
        CoverKey::Url(url) => {
            let mut t = owned("url:");
            t.append(url.as_str());
            t
        },
        CoverKey::AudioAddict(network, channel) => {
            let mut t = owned("aa:");
            push_decimal(&mut t, *network as u64);
            t.append(":");
            t.append(channel.as_str());
            t
        },
    }
}

/// What the cache holds for one key.
#[derive(Debug, Clone, Copy, PartialEq, Eq, Structural)]
pub struct CoverSlot {
    pub ready: CoverReady,
    /// A fresh reading of the network's channel art was asked for.
    pub refreshing: bool,
}

/// What resolving a key gave.
pub enum Resolution {
    /// The cover to keep, and the address that failed and is not to be
    /// fetched again, if one did.
    Update(CoverReady, Option<String>),
    /// The network's channel list could not be refreshed: keep what there was.
    KeepPrevious,
}

/// What reading and decoding a picture gave.
#[derive(Debug, Clone, Copy, PartialEq, Eq, Structural)]
pub enum Fetched {
    /// Decoded, and filed in the picture store under this number.
    Picture(u64),
    /// Read, but not a picture that decodes.
    Undecodable,
    /// Nothing could be read.
    Unavailable,
}

/// What the network's channel list says of a channel's art.
pub enum ArtLookup {
    Found(String),
    NoArt,
    RefreshFailed,
}

/// The picture, or the logo.
pub open spec fn shown(got: Fetched) -> CoverReady {
    match got {
        Fetched::Picture(id) => CoverReady::Embedded(id),
        _ => CoverReady::Logo,
    }
}

/// How a key resolves, from what reading it gave (`got`) and, for a
/// network's channel, what its channel list said (`lookup`); an address
/// that gave no picture is remembered as failed.
pub open spec fn resolution_of(key: CoverKey, lookup: ArtLookup, got: Fetched) -> Resolution {
    match key {
        CoverKey::File(_) => Resolution::Update(shown(got), None),
        CoverKey::ImageFile(_) => Resolution::Update(shown(got), None),
        CoverKey::Url(url) => Resolution::Update(shown(got), if got is Picture { None } else { Some(url) }),
        CoverKey::AudioAddict(_, _) => match lookup {
            ArtLookup::Found(url) => Resolution::Update(shown(got), if got is Picture { None } else { Some(url) }),
            ArtLookup::NoArt => Resolution::Update(CoverReady::Logo, None),
            ArtLookup::RefreshFailed => Resolution::KeepPrevious,
        },
    }
}

/// How `key` resolves; `lookup` matters for a network's channel only, and
/// `got` is what reading the file, or fetching the address found, gave.
pub fn resolve(key: &CoverKey, lookup: ArtLookup, got: Fetched) -> (r: Resolution)
    ensures
        r == resolution_of(*key, lookup, got),
{
    let ready = match got {
        Fetched::Picture(id) => CoverReady::Embedded(id),
        _ => CoverReady::Logo,
    };
    let decoded = match got {
        Fetched::Picture(_) => true,
        _ => false,
    };
    match key {
        CoverKey::File(_) | CoverKey::ImageFile(_) => Resolution::Update(ready, None),
        CoverKey::Url(url) => Resolution::Update(ready, if decoded { None } else { Some(url.clone()) }),
        CoverKey::AudioAddict(_, _) => match lookup {
            ArtLookup::Found(url) => Resolution::Update(ready, if decoded { None } else { Some(url) }),
            ArtLookup::NoArt => Resolution::Update(CoverReady::Logo, None),
            ArtLookup::RefreshFailed => Resolution::KeepPrevious,
        },
    }
}

/// How many covers the cache keeps once resolved.
pub const COVER_CACHE_CAP: usize = 16;

pub open spec fn texts_of(v: Seq<String>) -> Seq<Seq<char>> {
    v.map_values(|s: String| s@)
}

/// The cache as a map from key text to slot, the resolved keys oldest
/// first, and the addresses that failed.
pub struct CacheView {
    pub slots: Map<Seq<char>, CoverSlot>,
    pub order: Seq<Seq<char>>,
    pub failed: Seq<Seq<char>>,
}

/// The first `order` entries dropped, with their slots, until at most
/// `COVER_CACHE_CAP` are left.
pub open spec fn trimmed_cache(v: CacheView) -> CacheView
    decreases v.order.len(),
{
    if v.order.len() <= COVER_CACHE_CAP {
        v
    } else {
        trimmed_cache(CacheView { slots: v.slots.remove(v.order[0]), order: v.order.drop_first(), failed: v.failed })
    }
}

/// A lookup: a failed address gives the logo; a known key gives its cover
/// (asking for a refresh of a network's channel whose list is `stale`, once);
/// an unknown key is filed as pending and asked for. The flag says whether
/// to ask.
pub open spec fn cache_get(v: CacheView, key: CoverKey, stale: bool) -> (CacheView, CoverReady, bool) {
    let k = key_text(key);
    if key matches CoverKey::Url(url) && v.failed.contains(url@) {
        (v, CoverReady::Logo, false)
    } else if v.slots.dom().contains(k) {
        let slot = v.slots[k];
        if key is AudioAddict && stale && !slot.refreshing {
            (
                CacheView { slots: v.slots.insert(k, CoverSlot { ready: slot.ready, refreshing: true }), ..v },
                slot.ready,
                true,
            )
        } else {
            (v, slot.ready, false)
        }
    } else {
        (
            CacheView { slots: v.slots.insert(k, CoverSlot { ready: CoverReady::Pending, refreshing: false }), ..v },
            CoverReady::Pending,
            true,
        )
    }
}

/// A key resolved: its slot updated (or only its refresh mark cleared), a
/// failed address remembered, the key put last in line if new, and the
/// oldest covers dropped past the cap.
pub open spec fn cache_resolved(v: CacheView, key: CoverKey, r: Resolution) -> CacheView {
    let k = key_text(key);
    let updated = match r {
        Resolution::Update(ready, failed_url) => CacheView {
            slots: v.slots.insert(k, CoverSlot { ready, refreshing: false }),
            order: v.order,
            failed: match failed_url {
                Some(url) => if v.failed.contains(url@) { v.failed } else { v.failed.push(url@) },
                None => v.failed,
            },
        },
        Resolution::KeepPrevious => if v.slots.dom().contains(k) {
            CacheView { slots: v.slots.insert(k, CoverSlot { ready: v.slots[k].ready, refreshing: false }), ..v }
        } else {
            v
        },
    };
    let queued = if updated.order.contains(k) { updated } else { CacheView { order: updated.order.push(k), ..updated } };
    trimmed_cache(queued)
}

/// Whether `v` holds a string with the characters of `t`.
fn holds_text(v: &Vec<String>, t: &str) -> (r: bool)
    ensures
        r == texts_of(v@).contains(t@),
{
    let mut i: usize = 0;
    while i < v.len()
        invariant
            i <= v.len(),
            forall|j: int| 0 <= j < i ==> v@[j]@ != t@,
        decreases v.len() - i,
    {
        if same_text(v[i].as_str(), t) {
            assert(texts_of(v@)[i as int] == t@);
            return true;
        }
        i += 1;
    }
    assert(!texts_of(v@).contains(t@)) by {
        if texts_of(v@).contains(t@) {
            let j = choose|j: int| 0 <= j < texts_of(v@).len() && texts_of(v@)[j] == t@;
            assert(v@[j]@ == t@);
        }
    }
    false
}

/// Covers already resolved or asked for, by key text.
pub struct CoverCache {
    slots: TextMap<CoverSlot>,
    order: Vec<String>,
    failed: Vec<String>,
}

impl View for CoverCache {
    type V = CacheView;

    closed spec fn view(&self) -> CacheView {
        CacheView { slots: self.slots@, order: texts_of(self.order@), failed: texts_of(self.failed@) }
    }
}

impl CoverCache {
    pub fn new() -> (r: Self)
        ensures
            r@.slots == Map::<Seq<char>, CoverSlot>::empty(),
            r@.order == Seq::<Seq<char>>::empty(),
            r@.failed == Seq::<Seq<char>>::empty(),
    {
        let r = CoverCache { slots: TextMap::new(), order: Vec::new(), failed: Vec::new() };
        assert(texts_of(r.order@) =~= Seq::<Seq<char>>::empty());
        assert(texts_of(r.failed@) =~= Seq::<Seq<char>>::empty());
        r
    }

    /// The cover for `key` as far as it is known, and whether `key` is to
    /// be asked for. `stale` says whether the network's channel list is out
    /// of date; it matters for a network's channel only.
    pub fn get(&mut self, key: &CoverKey, stale: bool) -> (r: (CoverReady, bool))
        ensures
            (final(self)@, r.0, r.1) == cache_get(old(self)@, *key, stale),
    {
        if let CoverKey::Url(url) = key {
            if holds_text(&self.failed, url.as_str()) {
                return (CoverReady::Logo, false);
            }
        }
        let k = key_text_of(key);
        match self.slots.get(k.as_str()) {
            Some(slot) => {
                let slot = *slot;
                let network = match key {
                    CoverKey::AudioAddict(_, _) => true,
                    _ => false,
                };
                if network && stale && !slot.refreshing {
                    self.slots.insert(k, CoverSlot { ready: slot.ready, refreshing: true });
                    (slot.ready, true)
                } else {
                    (slot.ready, false)
                }
            },
            None => {
                self.slots.insert(k, CoverSlot { ready: CoverReady::Pending, refreshing: false });
                (CoverReady::Pending, true)
            },
        }
    }

    /// File what resolving `key` gave.
    pub fn resolved(&mut self, key: &CoverKey, r: Resolution)
        requires
            old(self)@.order.len() < usize::MAX,
        ensures
            final(self)@ == cache_resolved(old(self)@, *key, r),
    {
        let ghost before = self@;
        let k = key_text_of(key);
        match r {
            Resolution::Update(ready, failed_url) => {
                if let Some(url) = failed_url {
                    if !holds_text(&self.failed, url.as_str()) {
                        let ghost f = self.failed@;
                        self.failed.push(url);
                        assert(texts_of(self.failed@) =~= texts_of(f).push(self.failed@.last()@));
                    }
                }
                self.slots.insert(owned(k.as_str()), CoverSlot { ready, refreshing: false });
            },
            Resolution::KeepPrevious => {
                match self.slots.get(k.as_str()) {
                    Some(slot) => {
                        let kept = slot.ready;
                        self.slots.insert(owned(k.as_str()), CoverSlot { ready: kept, refreshing: false });
                    },
                    None => {},
                }
            },
        }
        if !holds_text(&self.order, k.as_str()) {
            let ghost o = self.order@;
            self.order.push(k);
            assert(texts_of(self.order@) =~= texts_of(o).push(key_text(*key)));
        }
        let ghost queued = self@;
        while self.order.len() > COVER_CACHE_CAP
            invariant
                trimmed_cache(self@) == trimmed_cache(queued),
            decreases self.order.len(),
        {
            let ghost o = self.order@;
            let oldest = self.order.remove(0);
            assert(texts_of(self.order@) =~= texts_of(o).drop_first());
            self.slots.remove(oldest.as_str());
        }
    }
}

/// Dropping the oldest covers forgets no failed address.
proof fn lemma_trim_keeps_failed(v: CacheView)
    ensures
        trimmed_cache(v).failed == v.failed,
    decreases v.order.len(),
{
    if v.order.len() > COVER_CACHE_CAP {
        lemma_trim_keeps_failed(CacheView { slots: v.slots.remove(v.order[0]), order: v.order.drop_first(), failed: v.failed });
    }
}

/// An address that failed is not fetched again: once its resolution named
/// it failed, a lookup of it gives the logo, asks for nothing, and leaves
/// the cache as it was.
pub proof fn a_failed_address_is_not_fetched_again(v: CacheView, url: String, ready: CoverReady, stale: bool)
    ensures
        ({
            let after = cache_resolved(v, CoverKey::Url(url), Resolution::Update(ready, Some(url)));
            cache_get(after, CoverKey::Url(url), stale) == (after, CoverReady::Logo, false)
        }),
{
    let k = key_text(CoverKey::Url(url));
    let failed = if v.failed.contains(url@) { v.failed } else { v.failed.push(url@) };
    assert(failed.contains(url@)) by {
        if !v.failed.contains(url@) {
            assert(failed[v.failed.len() as int] == url@);
        }
    }
    let updated = CacheView { slots: v.slots.insert(k, CoverSlot { ready, refreshing: false }), order: v.order, failed };
    let queued = if updated.order.contains(k) { updated } else { CacheView { order: updated.order.push(k), ..updated } };
    lemma_trim_keeps_failed(queued);
}

} // verus!
