//! State for browsing the music library.
//!
//! Artist-first hierarchy (artist → album → track) with three presentations:
//! columns when wide enough, an expandable tree, or single-column paging.

use vstd::prelude::*;
use crate::cursor::{clamped, paged, selection, wrapped_step, Cursor};
use crate::keyed::TextMap;
use crate::layout::{columns_usable, COLUMNS_MIN_INNER};
use crate::library::{
    clone_albums, clone_artists, clone_tracks, first_where, rows_or_empty, AlbumSummary,
    ArtistSummary, LibrarySnapshot, SearchHit, Track,
};
use crate::meta::dash;
use crate::line_edit::LineEdit;
use crate::text::{
    trimmed, char_count, decimal, eq_ascii_nocase, owned, push_char, push_decimal, push_signed, same_text,
    same_text_nocase, signed_decimal,
};
use crate::tui_config::LibraryLayout;

verus! {

#[derive(Debug, Clone, Copy, PartialEq, Eq, Structural)]
pub enum ColumnFocus {
    Artists,
    Albums,
    Tracks,
}

impl ColumnFocus {
    pub open spec fn following(self) -> ColumnFocus {
        match self {
            ColumnFocus::Artists => ColumnFocus::Albums,
            ColumnFocus::Albums => ColumnFocus::Tracks,
            ColumnFocus::Tracks => ColumnFocus::Artists,
        }
    }

    pub open spec fn preceding(self) -> ColumnFocus {
        match self {
            ColumnFocus::Artists => ColumnFocus::Tracks,
            ColumnFocus::Albums => ColumnFocus::Artists,
            ColumnFocus::Tracks => ColumnFocus::Albums,
        }
    }

    pub fn next(self) -> (r: Self)
        ensures
            r == self.following(),
    {
        match self {
            ColumnFocus::Artists => ColumnFocus::Albums,
            ColumnFocus::Albums => ColumnFocus::Tracks,
            ColumnFocus::Tracks => ColumnFocus::Artists,
        }
    }

    pub fn prev(self) -> (r: Self)
        ensures
            r == self.preceding(),
    {
        match self {
            ColumnFocus::Artists => ColumnFocus::Tracks,
            ColumnFocus::Albums => ColumnFocus::Artists,
            ColumnFocus::Tracks => ColumnFocus::Albums,
        }
    }
}

/// Cycling back undoes cycling forward, and three steps come full circle.
pub proof fn column_cycle_is_a_ring(c: ColumnFocus)
    ensures
        c.following().preceding() == c,
        c.preceding().following() == c,
        c.following().following().following() == c,
{
}

/// How browse is painted for the current width and preference.
#[derive(Debug, Clone, Copy, PartialEq, Eq, Structural)]
pub enum EffectiveLayout {
    Columns,
    Tree,
    Paging,
}

#[derive(Debug, Clone, PartialEq, Eq)]
pub enum Mode {
    /// Artist → album → track browse.
    Browse,
    /// Results for the last search.
    Search(String),
    /// Every track, for a library whose files have no album tags.
    AllTracks,
}

/// A mode with its query as characters.
pub enum ModeView {
    Browse,
    Search(Seq<char>),
    AllTracks,
}

pub open spec fn mode_view(m: Mode) -> ModeView {
    match m {
        Mode::Browse => ModeView::Browse,
        Mode::Search(q) => ModeView::Search(q@),
        Mode::AllTracks => ModeView::AllTracks,
    }
}

#[derive(Debug, Clone, PartialEq, Eq)]
pub enum TreeNodeId {
    Artist(String),
    Album { artist: String, album: String },
}

/// A tree node as characters.
pub enum NodeKey {
    Artist(Seq<char>),
    Album(Seq<char>, Seq<char>),
}

pub open spec fn node_key(id: TreeNodeId) -> NodeKey {
    match id {
        TreeNodeId::Artist(a) => NodeKey::Artist(a@),
        TreeNodeId::Album { artist, album } => NodeKey::Album(artist@, album@),
    }
}

/// The expanded tree nodes.
pub struct NodeSet {
    ids: Vec<TreeNodeId>,
}

/// The keys of the nodes in `ids`.
pub open spec fn keys_of(ids: Seq<TreeNodeId>) -> Set<NodeKey> {
    Set::new(|k: NodeKey| exists|i: int| 0 <= i < ids.len() && node_key(#[trigger] ids[i]) == k)
}

proof fn lemma_keys_push(ids: Seq<TreeNodeId>, id: TreeNodeId)
    ensures
        keys_of(ids.push(id)) == keys_of(ids).insert(node_key(id)),
{
    let pushed = ids.push(id);
    assert forall|k: NodeKey| #[trigger] keys_of(pushed).contains(k) == keys_of(ids).insert(node_key(id)).contains(k) by {
        if keys_of(ids).contains(k) {
            let j = choose|j: int| 0 <= j < ids.len() && node_key(ids[j]) == k;
            assert(pushed[j] == ids[j]);
        }
        if k == node_key(id) {
            assert(pushed[ids.len() as int] == id);
        }
        if keys_of(pushed).contains(k) {
            let j = choose|j: int| 0 <= j < pushed.len() && node_key(pushed[j]) == k;
            if j < ids.len() {
                assert(pushed[j] == ids[j]);
            }
        }
    }
    assert(keys_of(pushed) =~= keys_of(ids).insert(node_key(id)));
}

impl View for NodeSet {
    type V = Set<NodeKey>;

    closed spec fn view(&self) -> Set<NodeKey> {
        keys_of(self.ids@)
    }
}

fn same_node(a: &TreeNodeId, b: &TreeNodeId) -> (r: bool)
    ensures
        r == (node_key(*a) == node_key(*b)),
{
    match (a, b) {
        (TreeNodeId::Artist(x), TreeNodeId::Artist(y)) => same_text(x.as_str(), y.as_str()),
        (TreeNodeId::Album { artist: a1, album: b1 }, TreeNodeId::Album { artist: a2, album: b2 }) => {
            same_text(a1.as_str(), a2.as_str()) && same_text(b1.as_str(), b2.as_str())
        },
        _ => false,
    }
}

impl NodeSet {
    pub fn new() -> (r: Self)
        ensures
            r@ == Set::<NodeKey>::empty(),
    {
        let r = NodeSet { ids: Vec::new() };
        assert(r@ =~= Set::<NodeKey>::empty());
        r
    }

    pub fn contains(&self, id: &TreeNodeId) -> (r: bool)
        ensures
            r == self@.contains(node_key(*id)),
    {
        let mut i: usize = 0;
        while i < self.ids.len()
            invariant
                i <= self.ids.len(),
                forall|j: int| 0 <= j < i ==> node_key(#[trigger] self.ids@[j]) != node_key(*id),
            decreases self.ids.len() - i,
        {
            if same_node(&self.ids[i], id) {
                assert(node_key(self.ids@[i as int]) == node_key(*id));
                return true;
            }
            i += 1;
        }
        false
    }

    pub fn insert(&mut self, id: TreeNodeId)
        ensures
            final(self)@ == old(self)@.insert(node_key(id)),
    {
        if self.contains(&id) {
            assert(self@ =~= old(self)@.insert(node_key(id)));
            return;
        }
        proof { lemma_keys_push(self.ids@, id); }
        self.ids.push(id);
    }

    /// Drop every node for which `artist_albums` says so: with `Some(name)`,
    /// the album nodes under artist `name`; with `None`, the node `id`.
    fn remove_where(&mut self, id: &TreeNodeId, artist_albums: Option<&str>)
        ensures
            forall|k: NodeKey| #[trigger] final(self)@.contains(k) == (old(self)@.contains(k) && !drops(k, node_key(*id), opt_chars(artist_albums))),
    {
        let ghost before = self.ids@;
        let ghost gone = |k: NodeKey| drops(k, node_key(*id), opt_chars(artist_albums));
        let mut kept: Vec<TreeNodeId> = Vec::new();
        let mut i: usize = 0;
        assert(keys_of(before.take(0)) =~= Set::<NodeKey>::empty());
        assert(keys_of(kept@) =~= Set::<NodeKey>::empty());
        while i < self.ids.len()
            invariant
                i <= self.ids.len(),
                self.ids@ == before,
                forall|k: NodeKey| #[trigger] keys_of(kept@).contains(k) == (keys_of(before.take(i as int)).contains(k)
                    && !drops(k, node_key(*id), opt_chars(artist_albums))),
            decreases self.ids.len() - i,
        {
            let drop_it = match artist_albums {
                Some(name) => match &self.ids[i] {
                    TreeNodeId::Album { artist, .. } => same_text(artist.as_str(), name),
                    TreeNodeId::Artist(_) => false,
                },
                None => same_node(&self.ids[i], id),
            };
            assert(drop_it == drops(node_key(before[i as int]), node_key(*id), opt_chars(artist_albums)));
            proof {
                assert(before.take(i + 1) =~= before.take(i as int).push(before[i as int]));
                lemma_keys_push(before.take(i as int), before[i as int]);
            }
            if !drop_it {
                let ghost old_kept = kept@;
                let node = self.ids[i].clone_node();
                proof { lemma_keys_push(old_kept, node); }
                kept.push(node);
            }
            i += 1;
        }
        assert(before.take(i as int) =~= before);
        self.ids = kept;
    }

    pub fn remove(&mut self, id: &TreeNodeId)
        ensures
            final(self)@ == old(self)@.remove(node_key(*id)),
    {
        self.remove_where(id, None);
        assert(self@ =~= old(self)@.remove(node_key(*id)));
    }

    /// Forget which albums of `artist` were open.
    pub fn remove_albums_of(&mut self, artist: &str)
        ensures
            forall|k: NodeKey| #[trigger] final(self)@.contains(k) == (old(self)@.contains(k) && !(k matches NodeKey::Album(a, _) && a == artist@)),
    {
        let dummy = TreeNodeId::Artist(String::new());
        self.remove_where(&dummy, Some(artist));
    }
}

pub open spec fn opt_chars(s: Option<&str>) -> Option<Seq<char>> {
    match s {
        Some(t) => Some(t@),
        None => None,
    }
}

pub open spec fn drops(k: NodeKey, id: NodeKey, artist_albums: Option<Seq<char>>) -> bool {
    match artist_albums {
        Some(name) => k matches NodeKey::Album(a, _) && a == name,
        None => k == id,
    }
}

impl TreeNodeId {
    pub fn clone_node(&self) -> (r: TreeNodeId)
        ensures
            r == *self,
    {
        match self {
            TreeNodeId::Artist(a) => TreeNodeId::Artist(a.clone()),
            TreeNodeId::Album { artist, album } => TreeNodeId::Album { artist: artist.clone(), album: album.clone() },
        }
    }
}


/// One visible row in the flattened tree.
#[derive(Debug, PartialEq)]
pub enum TreeRow {
    Artist { artist: ArtistSummary, expanded: bool },
    Album { artist: String, album: AlbumSummary, expanded: bool, depth: usize },
    Track { album_key: String, index: usize, depth: usize },
}

/// A tree row with its text as characters.
pub enum RowView {
    Artist(ArtistSummary, bool),
    Album(Seq<char>, AlbumSummary, bool, nat),
    Track(Seq<char>, nat, nat),
}

pub open spec fn row_view(r: TreeRow) -> RowView {
    match r {
        TreeRow::Artist { artist, expanded } => RowView::Artist(artist, expanded),
        TreeRow::Album { artist, album, expanded, depth } => RowView::Album(artist@, album, expanded, depth as nat),
        TreeRow::Track { album_key, index, depth } => RowView::Track(album_key@, index as nat, depth as nat),
    }
}

impl TreeRow {
    pub fn clone_row(&self) -> (r: TreeRow)
        ensures
            row_view(r) == row_view(*self),
    {
        match self {
            TreeRow::Artist { artist, expanded } => TreeRow::Artist { artist: artist.clone(), expanded: *expanded },
            TreeRow::Album { artist, album, expanded, depth } => TreeRow::Album {
                artist: artist.clone(),
                album: album.clone(),
                expanded: *expanded,
                depth: *depth,
            },
            TreeRow::Track { album_key, index, depth } => TreeRow::Track {
                album_key: album_key.clone(),
                index: *index,
                depth: *depth,
            },
        }
    }
}

/// What the cursor is sitting on, so the caller knows what a key should do.
#[derive(Debug, Clone, Copy)]
pub enum Item<'a> {
    Artist(&'a ArtistSummary),
    Album(&'a AlbumSummary),
    Track(&'a Track),
}

/// The selected row's value.
pub enum ItemView {
    Artist(ArtistSummary),
    Album(AlbumSummary),
    Track(Track),
}

pub open spec fn item_view(i: Item) -> ItemView {
    match i {
        Item::Artist(a) => ItemView::Artist(*a),
        Item::Album(a) => ItemView::Album(*a),
        Item::Track(t) => ItemView::Track(*t),
    }
}

#[derive(Debug, Clone, Copy, PartialEq, Eq, Structural)]
pub enum EnterResult {
    /// Nothing opened: the key has no effect here.
    Unchanged,
    Moved,
}

/// Everything the pane holds, as values.
#[verifier::ext_equal]
pub struct PaneView {
    pub library: Option<LibrarySnapshot>,
    pub mode: ModeView,
    pub artists: Seq<ArtistSummary>,
    pub albums: Seq<AlbumSummary>,
    pub tracks: Seq<Track>,
    pub hits: Seq<SearchHit>,
    pub artist_cursor: nat,
    pub album_cursor: nat,
    pub track_cursor: nat,
    /// The single-list cursor for search results and the all-tracks list.
    pub list_cursor: nat,
    pub tree_cursor: nat,
    pub column_focus: ColumnFocus,
    pub paging_level: ColumnFocus,
    pub expanded: Set<NodeKey>,
    /// Tracks loaded for expanded albums, keyed by lower-cased album name.
    pub track_cache: Map<Seq<char>, Seq<Track>>,
    /// Album summaries for expanded artists, keyed by lower-cased album name.
    pub album_cache: Map<Seq<char>, AlbumSummary>,
    pub layout: LibraryLayout,
    /// The search prompt's text and caret, while it is open.
    pub input: Option<(Seq<char>, nat)>,
    /// Why the pane is empty, when it is.
    pub notice: Option<Seq<char>>,
    pub h_offset: nat,
}

/// Lower-case form of `s` under the full Unicode case mapping, as
/// `str::to_lowercase` gives it.
pub uninterp spec fn unicode_lower(s: Seq<char>) -> Seq<char>;

/// `str::to_lowercase`.
#[verifier::external_body]
fn to_lowercase(s: &str) -> (r: String)
    ensures
        r@ == unicode_lower(s@),
{
    s.to_lowercase()
}

pub open spec fn lib_albums(lib: Option<LibrarySnapshot>, artist: Seq<char>) -> Seq<AlbumSummary> {
    match lib {
        Some(l) => rows_or_empty(l.albums_of(artist)),
        None => Seq::empty(),
    }
}

pub open spec fn lib_album_tracks(lib: Option<LibrarySnapshot>, album: Seq<char>) -> Seq<Track> {
    match lib {
        Some(l) => rows_or_empty(l.album_tracks_of(album)),
        None => Seq::empty(),
    }
}

/// The tracks of each album in turn, or `None` when one album could not be read.
pub open spec fn tracks_of_albums(l: LibrarySnapshot, albums: Seq<AlbumSummary>) -> Option<Seq<Track>>
    decreases albums.len(),
{
    if albums.len() == 0 {
        Some(Seq::empty())
    } else {
        match tracks_of_albums(l, albums.drop_last()) {
            None => None,
            Some(before) => match l.album_tracks_of(albums.last().album@) {
                None => None,
                Some(these) => Some(before + these),
            },
        }
    }
}

/// Every track under a browse artist: the tracks of each of their albums, or
/// the tracks credited to them when their albums hold none.
pub open spec fn lib_artist_tracks(lib: Option<LibrarySnapshot>, artist: Seq<char>) -> Seq<Track> {
    match lib {
        None => Seq::empty(),
        Some(l) => match l.albums_of(artist) {
            None => Seq::empty(),
            Some(albums) => match tracks_of_albums(l, albums) {
                None => Seq::empty(),
                Some(ts) => if ts.len() == 0 { rows_or_empty(l.artist_tracks_of(artist)) } else { ts },
            },
        },
    }
}

pub open spec fn effective_of(v: PaneView, strip: nat) -> EffectiveLayout {
    if !(v.mode is Browse) {
        EffectiveLayout::Paging
    } else if v.layout == LibraryLayout::Tree {
        EffectiveLayout::Tree
    } else if strip >= COLUMNS_MIN_INNER {
        EffectiveLayout::Columns
    } else {
        EffectiveLayout::Paging
    }
}

/// The list the columns or paging presentation is working on.
pub open spec fn active_column(v: PaneView, strip: nat) -> ColumnFocus {
    if effective_of(v, strip) == EffectiveLayout::Columns { v.column_focus } else { v.paging_level }
}

pub open spec fn column_len(v: PaneView, c: ColumnFocus) -> nat {
    match c {
        ColumnFocus::Artists => v.artists.len(),
        ColumnFocus::Albums => v.albums.len(),
        ColumnFocus::Tracks => v.tracks.len(),
    }
}

pub open spec fn column_cursor(v: PaneView, c: ColumnFocus) -> nat {
    match c {
        ColumnFocus::Artists => v.artist_cursor,
        ColumnFocus::Albums => v.album_cursor,
        ColumnFocus::Tracks => v.track_cursor,
    }
}

/// Track rows `0..n` of an expanded album.
pub open spec fn track_rows(key: Seq<char>, n: nat) -> Seq<RowView> {
    Seq::new(n, |k: int| RowView::Track(key, k as nat, 2))
}

/// Rows for albums `j..` of an expanded artist.
pub open spec fn album_rows(v: PaneView, artist: Seq<char>, albums: Seq<AlbumSummary>, j: int) -> Seq<RowView>
    decreases albums.len() - j,
{
    if j < 0 || j >= albums.len() {
        Seq::empty()
    } else {
        let album = albums[j];
        let open = v.expanded.contains(NodeKey::Album(artist, album.album@));
        let key = unicode_lower(album.album@);
        let tracks = if open && v.track_cache.dom().contains(key) {
            track_rows(key, v.track_cache[key].len())
        } else {
            Seq::empty()
        };
        seq![RowView::Album(artist, album, open, 1)] + tracks + album_rows(v, artist, albums, j + 1)
    }
}

/// Rows for artist `i`: the artist, then its albums when expanded.
pub open spec fn artist_rows(v: PaneView, i: int) -> Seq<RowView> {
    let artist = v.artists[i];
    let open = v.expanded.contains(NodeKey::Artist(artist.name@));
    seq![RowView::Artist(artist, open)] + if open {
        album_rows(v, artist.name@, lib_albums(v.library, artist.name@), 0)
    } else {
        Seq::empty()
    }
}

pub open spec fn rows_from(v: PaneView, i: int) -> Seq<RowView>
    decreases v.artists.len() - i,
{
    if i < 0 || i >= v.artists.len() {
        Seq::empty()
    } else {
        artist_rows(v, i) + rows_from(v, i + 1)
    }
}

/// The flattened tree.
pub open spec fn tree_rows_of(v: PaneView) -> Seq<RowView> {
    rows_from(v, 0)
}

pub open spec fn len_of(v: PaneView, strip: nat) -> nat {
    match v.mode {
        ModeView::Search(_) => v.hits.len(),
        ModeView::AllTracks => v.tracks.len(),
        ModeView::Browse => if effective_of(v, strip) == EffectiveLayout::Tree {
            tree_rows_of(v).len()
        } else {
            column_len(v, active_column(v, strip))
        },
    }
}

pub open spec fn selected_index_of(v: PaneView, strip: nat) -> Option<int> {
    match v.mode {
        ModeView::Browse => if effective_of(v, strip) == EffectiveLayout::Tree {
            selection(v.tree_cursor as int, tree_rows_of(v).len() as int)
        } else {
            let c = active_column(v, strip);
            selection(column_cursor(v, c) as int, column_len(v, c) as int)
        },
        _ => selection(v.list_cursor as int, len_of(v, strip) as int),
    }
}

pub open spec fn clamp_to(c: nat, len: nat) -> nat {
    if len == 0 { 0 } else { clamped(c as int, len as int) as nat }
}

pub open spec fn stepped(c: nat, delta: int, len: nat) -> nat {
    if len == 0 { 0 } else { wrapped_step(c as int, delta, len as int) as nat }
}

pub open spec fn paged_to(c: nat, delta: int, len: nat) -> nat {
    if len == 0 { 0 } else { paged(c as int, delta, len as int) as nat }
}

/// Load the tracks of the selected album.
pub open spec fn refresh_tracks(v: PaneView) -> PaneView {
    match selection(v.album_cursor as int, v.albums.len() as int) {
        None => PaneView { tracks: Seq::empty(), ..v },
        Some(i) => {
            let tracks = lib_album_tracks(v.library, v.albums[i].album@);
            PaneView { tracks, track_cursor: clamp_to(v.track_cursor, tracks.len()), ..v }
        },
    }
}

/// Load the albums (and then tracks) of the selected artist.
pub open spec fn refresh_albums(v: PaneView) -> PaneView {
    match selection(v.artist_cursor as int, v.artists.len() as int) {
        None => PaneView { albums: Seq::empty(), tracks: Seq::empty(), ..v },
        Some(i) => {
            let albums = lib_albums(v.library, v.artists[i].name@);
            refresh_tracks(PaneView { albums, album_cursor: clamp_to(v.album_cursor, albums.len()), ..v })
        },
    }
}

/// A cursor movement: by rows with wrapping, by a page without, or to a row.
#[derive(Debug, Clone, Copy, PartialEq, Eq, Structural)]
pub enum Move {
    Step(isize),
    Page(isize),
    To(usize),
}

pub open spec fn moved(how: Move, c: nat, len: nat) -> nat {
    match how {
        Move::Step(d) => stepped(c, d as int, len),
        Move::Page(d) => paged_to(c, d as int, len),
        Move::To(i) => if len == 0 { 0 } else { clamped(i as int, len as int) as nat },
    }
}

pub open spec fn with_column_cursor(v: PaneView, c: ColumnFocus, value: nat) -> PaneView {
    match c {
        ColumnFocus::Artists => PaneView { artist_cursor: value, ..v },
        ColumnFocus::Albums => PaneView { album_cursor: value, ..v },
        ColumnFocus::Tracks => PaneView { track_cursor: value, ..v },
    }
}

/// Move the cursor of the focused list. In three-column browse a new artist
/// or album loads what sits under it; the pan offset resets.
pub open spec fn navigate(v: PaneView, strip: nat, how: Move) -> PaneView {
    let after = match v.mode {
        ModeView::Browse => if effective_of(v, strip) == EffectiveLayout::Tree {
            PaneView { tree_cursor: moved(how, v.tree_cursor, tree_rows_of(v).len()), ..v }
        } else if effective_of(v, strip) == EffectiveLayout::Columns {
            match v.column_focus {
                ColumnFocus::Artists => refresh_albums(PaneView { artist_cursor: moved(how, v.artist_cursor, v.artists.len()), ..v }),
                ColumnFocus::Albums => refresh_tracks(PaneView { album_cursor: moved(how, v.album_cursor, v.albums.len()), ..v }),
                ColumnFocus::Tracks => PaneView { track_cursor: moved(how, v.track_cursor, v.tracks.len()), ..v },
            }
        } else {
            let c = v.paging_level;
            with_column_cursor(v, c, moved(how, column_cursor(v, c), column_len(v, c)))
        },
        _ => PaneView { list_cursor: moved(how, v.list_cursor, len_of(v, strip)), ..v },
    };
    PaneView { h_offset: 0, ..after }
}

/// Select a row of a given column (a mouse click), focusing that column.
pub open spec fn pick_in_column(v: PaneView, column: ColumnFocus, index: nat) -> PaneView {
    let after = match column {
        ColumnFocus::Artists => refresh_albums(PaneView {
            artist_cursor: moved(Move::To(index as usize), v.artist_cursor, v.artists.len()),
            column_focus: ColumnFocus::Artists,
            ..v
        }),
        ColumnFocus::Albums => refresh_tracks(PaneView {
            album_cursor: moved(Move::To(index as usize), v.album_cursor, v.albums.len()),
            column_focus: ColumnFocus::Albums,
            ..v
        }),
        ColumnFocus::Tracks => PaneView {
            track_cursor: moved(Move::To(index as usize), v.track_cursor, v.tracks.len()),
            column_focus: ColumnFocus::Tracks,
            ..v
        },
    };
    PaneView { h_offset: 0, ..after }
}

pub open spec fn no_library_notice() -> Seq<char> {
    "no library yet — run `znicz scan <dir>`"@
}

pub open spec fn empty_library_notice() -> Seq<char> {
    "library is empty — run `znicz scan <dir>`"@
}

pub open spec fn read_failure(e: Seq<char>) -> Seq<char> {
    "could not read library: "@ + e
}

/// Re-read the browse roots: the artists when there are any, otherwise every
/// track, otherwise a notice saying why the pane is empty.
pub open spec fn reload_browse_of(v: PaneView) -> PaneView {
    match v.library {
        None => PaneView { notice: Some(no_library_notice()), ..v },
        Some(l) => match l.browse_artists {
            Err(e) => PaneView { notice: Some(read_failure(e@)), ..v },
            Ok(artists) => if artists@.len() > 0 {
                refresh_albums(PaneView {
                    artists: artists@,
                    hits: Seq::empty(),
                    mode: ModeView::Browse,
                    notice: None,
                    column_focus: ColumnFocus::Artists,
                    paging_level: ColumnFocus::Artists,
                    artist_cursor: clamp_to(v.artist_cursor, artists@.len()),
                    ..v
                })
            } else {
                let cleared = PaneView { artists: Seq::empty(), albums: Seq::empty(), hits: Seq::empty(), ..v };
                match l.all_tracks {
                    Ok(tracks) => if tracks@.len() > 0 {
                        PaneView {
                            notice: None,
                            tracks: tracks@,
                            mode: ModeView::AllTracks,
                            list_cursor: clamp_to(cleared.list_cursor, tracks@.len()),
                            ..cleared
                        }
                    } else {
                        PaneView { mode: ModeView::Browse, notice: Some(empty_library_notice()), ..cleared }
                    },
                    Err(e) => PaneView { notice: Some(read_failure(e@)), ..cleared },
                }
            },
        },
    }
}

/// Esc: leave search, or step back one paging level.
pub open spec fn back_of(v: PaneView) -> (PaneView, bool) {
    match v.mode {
        ModeView::Search(_) => (reload_browse_of(PaneView { hits: Seq::empty(), list_cursor: 0, h_offset: 0, ..v }), true),
        ModeView::AllTracks => (v, false),
        ModeView::Browse => if v.layout == LibraryLayout::Tree {
            (v, false)
        } else {
            match v.paging_level {
                ColumnFocus::Tracks => (PaneView { paging_level: ColumnFocus::Albums, tracks: Seq::empty(), h_offset: 0, ..v }, true),
                ColumnFocus::Albums => (PaneView {
                    paging_level: ColumnFocus::Artists,
                    albums: Seq::empty(),
                    tracks: Seq::empty(),
                    h_offset: 0,
                    ..v
                }, true),
                ColumnFocus::Artists => (v, false),
            }
        },
    }
}

pub struct LibraryPane {
    library: Option<LibrarySnapshot>,
    mode: Mode,
    artists: Vec<ArtistSummary>,
    albums: Vec<AlbumSummary>,
    tracks: Vec<Track>,
    search_hits: Vec<SearchHit>,
    artist_cursor: Cursor,
    album_cursor: Cursor,
    track_cursor: Cursor,
    list_cursor: Cursor,
    column_focus: ColumnFocus,
    paging_level: ColumnFocus,
    expanded: NodeSet,
    tree_cursor: Cursor,
    tree_track_cache: TextMap<Vec<Track>>,
    tree_album_cache: TextMap<AlbumSummary>,
    preferred_layout: LibraryLayout,
    input: Option<LineEdit>,
    notice: Option<String>,
    h_offset: usize,
}

pub open spec fn opt_string(s: Option<String>) -> Option<Seq<char>> {
    match s {
        Some(t) => Some(t@),
        None => None,
    }
}

pub open spec fn opt_edit(e: Option<LineEdit>) -> Option<(Seq<char>, nat)> {
    match e {
        Some(l) => Some(l@),
        None => None,
    }
}

/// The track cache with each album's tracks as a sequence.
pub open spec fn loaded_tracks(m: Map<Seq<char>, Vec<Track>>) -> Map<Seq<char>, Seq<Track>> {
    m.map_values(|t: Vec<Track>| t@)
}

impl View for LibraryPane {
    type V = PaneView;

    closed spec fn view(&self) -> PaneView {
        PaneView {
            library: self.library,
            mode: mode_view(self.mode),
            artists: self.artists@,
            albums: self.albums@,
            tracks: self.tracks@,
            hits: self.search_hits@,
            artist_cursor: self.artist_cursor@,
            album_cursor: self.album_cursor@,
            track_cursor: self.track_cursor@,
            list_cursor: self.list_cursor@,
            tree_cursor: self.tree_cursor@,
            column_focus: self.column_focus,
            paging_level: self.paging_level,
            expanded: self.expanded@,
            track_cache: loaded_tracks(self.tree_track_cache@),
            album_cache: self.tree_album_cache@,
            layout: self.preferred_layout,
            input: opt_edit(self.input),
            notice: opt_string(self.notice),
            h_offset: self.h_offset as nat,
        }
    }
}

impl LibraryPane {
    pub fn set_preferred_layout(&mut self, layout: LibraryLayout)
        ensures
            final(self)@ == (PaneView { layout, ..old(self)@ }),
    {
        self.preferred_layout = layout;
    }

    pub fn preferred_layout(&self) -> (r: LibraryLayout)
        ensures
            r == self@.layout,
    {
        self.preferred_layout
    }

    pub fn effective_layout(&self, strip_inner: usize) -> (r: EffectiveLayout)
        ensures
            r == effective_of(self@, strip_inner as nat),
    {
        match self.mode {
            Mode::Browse => {},
            _ => return EffectiveLayout::Paging,
        }
        match self.preferred_layout {
            LibraryLayout::Tree => EffectiveLayout::Tree,
            LibraryLayout::Columns => if columns_usable(strip_inner) {
                EffectiveLayout::Columns
            } else {
                EffectiveLayout::Paging
            },
        }
    }

    pub fn is_available(&self) -> (r: bool)
        ensures
            r == self@.library is Some,
    {
        self.library.is_some()
    }

    pub fn mode(&self) -> (r: &Mode)
        ensures
            mode_view(*r) == self@.mode,
    {
        &self.mode
    }

    pub fn notice(&self) -> (r: Option<&str>)
        ensures
            match r {
                Some(t) => self@.notice == Some(t@),
                None => self@.notice is None,
            },
    {
        match &self.notice {
            Some(n) => Some(n.as_str()),
            None => None,
        }
    }

    pub fn artists(&self) -> (r: &[ArtistSummary])
        ensures
            r@ == self@.artists,
    {
        self.artists.as_slice()
    }

    pub fn albums(&self) -> (r: &[AlbumSummary])
        ensures
            r@ == self@.albums,
    {
        self.albums.as_slice()
    }

    pub fn tracks(&self) -> (r: &[Track])
        ensures
            r@ == self@.tracks,
    {
        self.tracks.as_slice()
    }

    pub fn search_hits(&self) -> (r: &[SearchHit])
        ensures
            r@ == self@.hits,
    {
        self.search_hits.as_slice()
    }

    pub fn column_focus(&self) -> (r: ColumnFocus)
        ensures
            r == self@.column_focus,
    {
        self.column_focus
    }

    pub fn paging_level(&self) -> (r: ColumnFocus)
        ensures
            r == self@.paging_level,
    {
        self.paging_level
    }

    pub fn selected_artist_index(&self) -> (r: Option<usize>)
        ensures
            r == match selection(self@.artist_cursor as int, self@.artists.len() as int) {
                Some(i) => Some(i as usize),
                None => None::<usize>,
            },
            r matches Some(i) ==> i < self@.artists.len() && selection(self@.artist_cursor as int, self@.artists.len() as int) == Some(i as int),
            r is None ==> selection(self@.artist_cursor as int, self@.artists.len() as int) is None,
    {
        self.artist_cursor.selected(self.artists.len())
    }

    pub fn selected_album_index(&self) -> (r: Option<usize>)
        ensures
            r == match selection(self@.album_cursor as int, self@.albums.len() as int) {
                Some(i) => Some(i as usize),
                None => None::<usize>,
            },
            r matches Some(i) ==> i < self@.albums.len() && selection(self@.album_cursor as int, self@.albums.len() as int) == Some(i as int),
            r is None ==> selection(self@.album_cursor as int, self@.albums.len() as int) is None,
    {
        self.album_cursor.selected(self.albums.len())
    }

    pub fn selected_track_index(&self) -> (r: Option<usize>)
        ensures
            r == match selection(self@.track_cursor as int, self@.tracks.len() as int) {
                Some(i) => Some(i as usize),
                None => None::<usize>,
            },
            r matches Some(i) ==> i < self@.tracks.len() && selection(self@.track_cursor as int, self@.tracks.len() as int) == Some(i as int),
            r is None ==> selection(self@.track_cursor as int, self@.tracks.len() as int) is None,
    {
        self.track_cursor.selected(self.tracks.len())
    }

    pub fn focus_column(&mut self, focus: ColumnFocus)
        ensures
            final(self)@ == (PaneView { column_focus: focus, h_offset: 0, ..old(self)@ }),
    {
        self.column_focus = focus;
        self.h_offset = 0;
    }

    pub fn cycle_column(&mut self, forward: bool)
        ensures
            final(self)@ == (PaneView {
                column_focus: if forward { old(self)@.column_focus.following() } else { old(self)@.column_focus.preceding() },
                h_offset: 0,
                ..old(self)@
            }),
    {
        self.column_focus = if forward { self.column_focus.next() } else { self.column_focus.prev() };
        self.h_offset = 0;
    }

    fn column_len_exec(&self, c: ColumnFocus) -> (r: usize)
        ensures
            r == column_len(self@, c),
    {
        match c {
            ColumnFocus::Artists => self.artists.len(),
            ColumnFocus::Albums => self.albums.len(),
            ColumnFocus::Tracks => self.tracks.len(),
        }
    }

    fn active_column_exec(&self, strip_inner: usize) -> (r: ColumnFocus)
        ensures
            r == active_column(self@, strip_inner as nat),
    {
        if self.effective_layout(strip_inner) == EffectiveLayout::Columns {
            self.column_focus
        } else {
            self.paging_level
        }
    }

    /// Number of rows on the focused list for the active layout.
    pub fn len(&self, strip_inner: usize) -> (r: usize)
        ensures
            r == len_of(self@, strip_inner as nat),
    {
        match self.mode {
            Mode::Search(_) => self.search_hits.len(),
            Mode::AllTracks => self.tracks.len(),
            Mode::Browse => if self.effective_layout(strip_inner) == EffectiveLayout::Tree {
                self.tree_rows().len()
            } else {
                self.column_len_exec(self.active_column_exec(strip_inner))
            },
        }
    }

    pub fn is_empty(&self, strip_inner: usize) -> (r: bool)
        ensures
            r == (len_of(self@, strip_inner as nat) == 0),
    {
        self.len(strip_inner) == 0
    }

    pub fn selected_index(&self, strip_inner: usize) -> (r: Option<usize>)
        ensures
            r == match selected_index_of(self@, strip_inner as nat) {
                Some(i) => Some(i as usize),
                None => None::<usize>,
            },
            r matches Some(i) ==> selected_index_of(self@, strip_inner as nat) == Some(i as int),
            r is None ==> selected_index_of(self@, strip_inner as nat) is None,
    {
        match self.mode {
            Mode::Browse => {
                if self.effective_layout(strip_inner) == EffectiveLayout::Tree {
                    self.tree_cursor.selected(self.tree_rows().len())
                } else {
                    match self.active_column_exec(strip_inner) {
                        ColumnFocus::Artists => self.selected_artist_index(),
                        ColumnFocus::Albums => self.selected_album_index(),
                        ColumnFocus::Tracks => self.selected_track_index(),
                    }
                }
            },
            _ => self.list_cursor.selected(self.len(strip_inner)),
        }
    }

    fn move_cursor(cursor: &mut Cursor, how: Move, len: usize)
        ensures
            final(cursor)@ == moved(how, old(cursor)@, len as nat),
    {
        match how {
            Move::Step(d) => cursor.step(d, len),
            Move::Page(d) => cursor.page(d, len),
            Move::To(i) => cursor.set(i, len),
        }
    }

    fn navigate_exec(&mut self, strip_inner: usize, how: Move)
        ensures
            final(self)@ == navigate(old(self)@, strip_inner as nat, how),
    {
        let ghost v = self@;
        match self.mode {
            Mode::Browse => {
                let layout = self.effective_layout(strip_inner);
                if layout == EffectiveLayout::Tree {
                    let n = self.tree_rows().len();
                    Self::move_cursor(&mut self.tree_cursor, how, n);
                } else if layout == EffectiveLayout::Columns {
                    match self.column_focus {
                        ColumnFocus::Artists => {
                            Self::move_cursor(&mut self.artist_cursor, how, self.artists.len());
                            self.refresh_albums_for_selection();
                        },
                        ColumnFocus::Albums => {
                            Self::move_cursor(&mut self.album_cursor, how, self.albums.len());
                            self.refresh_tracks_for_selection();
                        },
                        ColumnFocus::Tracks => {
                            Self::move_cursor(&mut self.track_cursor, how, self.tracks.len());
                        },
                    }
                } else {
                    match self.paging_level {
                        ColumnFocus::Artists => Self::move_cursor(&mut self.artist_cursor, how, self.artists.len()),
                        ColumnFocus::Albums => Self::move_cursor(&mut self.album_cursor, how, self.albums.len()),
                        ColumnFocus::Tracks => Self::move_cursor(&mut self.track_cursor, how, self.tracks.len()),
                    }
                }
            },
            _ => {
                let n = self.len(strip_inner);
                Self::move_cursor(&mut self.list_cursor, how, n);
            },
        }
        self.h_offset = 0;
    }

    /// Step by one or more rows, wrapping at both ends.
    pub fn step(&mut self, delta: isize, strip_inner: usize)
        ensures
            final(self)@ == navigate(old(self)@, strip_inner as nat, Move::Step(delta)),
    {
        self.navigate_exec(strip_inner, Move::Step(delta));
    }

    /// Put the cursor on row `index` (clamped to the list).
    pub fn set_index(&mut self, index: usize, strip_inner: usize)
        ensures
            final(self)@ == navigate(old(self)@, strip_inner as nat, Move::To(index)),
    {
        self.navigate_exec(strip_inner, Move::To(index));
    }

    /// Jump a page, stopping at the ends.
    pub fn page(&mut self, delta: isize, strip_inner: usize)
        ensures
            final(self)@ == navigate(old(self)@, strip_inner as nat, Move::Page(delta)),
    {
        self.navigate_exec(strip_inner, Move::Page(delta));
    }

    pub fn first(&mut self, strip_inner: usize)
        ensures
            final(self)@ == navigate(old(self)@, strip_inner as nat, Move::To(0)),
    {
        self.set_index(0, strip_inner);
    }

    pub fn last(&mut self, strip_inner: usize)
        ensures
            len_of(old(self)@, strip_inner as nat) == 0 ==> final(self)@ == old(self)@,
            len_of(old(self)@, strip_inner as nat) > 0 ==> final(self)@ == navigate(
                old(self)@,
                strip_inner as nat,
                Move::To((len_of(old(self)@, strip_inner as nat) - 1) as usize),
            ),
    {
        let len = self.len(strip_inner);
        if len > 0 {
            self.set_index(len - 1, strip_inner);
        }
    }

    /// Select a row in a specific column (mouse click).
    pub fn set_column_index(&mut self, column: ColumnFocus, index: usize)
        ensures
            final(self)@ == pick_in_column(old(self)@, column, index as nat),
    {
        match column {
            ColumnFocus::Artists => {
                self.artist_cursor.set(index, self.artists.len());
                self.column_focus = ColumnFocus::Artists;
                self.refresh_albums_for_selection();
            },
            ColumnFocus::Albums => {
                self.album_cursor.set(index, self.albums.len());
                self.column_focus = ColumnFocus::Albums;
                self.refresh_tracks_for_selection();
            },
            ColumnFocus::Tracks => {
                self.track_cursor.set(index, self.tracks.len());
                self.column_focus = ColumnFocus::Tracks;
            },
        }
        self.h_offset = 0;
    }

    /// Leave search or step back one paging level.
    pub fn back(&mut self) -> (r: bool)
        ensures
            (final(self)@, r) == back_of(old(self)@),
    {
        match self.mode {
            Mode::Search(_) => {
                self.search_hits = Vec::new();
                self.list_cursor.first();
                self.h_offset = 0;
                self.reload_browse();
                true
            },
            Mode::AllTracks => false,
            Mode::Browse => {
                if self.preferred_layout == LibraryLayout::Tree {
                    return false;
                }
                match self.paging_level {
                    ColumnFocus::Tracks => {
                        self.paging_level = ColumnFocus::Albums;
                        self.tracks = Vec::new();
                        self.h_offset = 0;
                        true
                    },
                    ColumnFocus::Albums => {
                        self.paging_level = ColumnFocus::Artists;
                        self.albums = Vec::new();
                        self.tracks = Vec::new();
                        self.h_offset = 0;
                        true
                    },
                    ColumnFocus::Artists => false,
                }
            },
        }
    }

    /// Re-read browse roots (after a scan, or Esc from search).
    pub fn reload_browse(&mut self)
        ensures
            final(self)@ == reload_browse_of(old(self)@),
    {
        let ghost v = self@;
        let step = match &self.library {
            None => 0u8,
            Some(lib) => match &lib.browse_artists {
                Err(_) => 1u8,
                Ok(artists) => if artists.len() > 0 { 2u8 } else {
                    match &lib.all_tracks {
                        Ok(tracks) => if tracks.len() > 0 { 3u8 } else { 4u8 },
                        Err(_) => 5u8,
                    }
                },
            },
        };
        if step == 0 {
            self.notice = Some(owned("no library yet — run `znicz scan <dir>`"));
            return;
        }
        if step == 1 {
            let message = match &self.library {
                Some(lib) => match &lib.browse_artists {
                    Err(e) => read_failure_text(e.as_str()),
                    Ok(_) => String::new(),
                },
                None => String::new(),
            };
            self.notice = Some(message);
            return;
        }
        if step == 2 {
            let artists = match &self.library {
                Some(lib) => match &lib.browse_artists {
                    Ok(a) => clone_artists(a.as_slice()),
                    Err(_) => Vec::new(),
                },
                None => Vec::new(),
            };
            self.artists = artists;
            self.search_hits = Vec::new();
            self.mode = Mode::Browse;
            self.notice = None;
            self.column_focus = ColumnFocus::Artists;
            self.paging_level = ColumnFocus::Artists;
            self.artist_cursor.clamp(self.artists.len());
            self.refresh_albums_for_selection();
            return;
        }
        self.artists = Vec::new();
        self.albums = Vec::new();
        self.search_hits = Vec::new();
        if step == 3 {
            let tracks = match &self.library {
                Some(lib) => match &lib.all_tracks {
                    Ok(t) => clone_tracks(t.as_slice()),
                    Err(_) => Vec::new(),
                },
                None => Vec::new(),
            };
            self.notice = None;
            self.tracks = tracks;
            self.mode = Mode::AllTracks;
            self.list_cursor.clamp(self.tracks.len());
        } else if step == 4 {
            self.mode = Mode::Browse;
            self.notice = Some(owned("library is empty — run `znicz scan <dir>`"));
        } else {
            let message = match &self.library {
                Some(lib) => match &lib.all_tracks {
                    Err(e) => read_failure_text(e.as_str()),
                    Ok(_) => String::new(),
                },
                None => String::new(),
            };
            self.notice = Some(message);
        }
    }

    /// Take a fresh reading of the library and show its browse roots again.
    pub fn reload_with(&mut self, library: Option<LibrarySnapshot>)
        ensures
            final(self)@ == reload_browse_of(PaneView { library, ..old(self)@ }),
    {
        self.library = library;
        self.reload_browse();
    }

    /// Compatibility alias used by the reload key.
    pub fn reload_albums(&mut self)
        ensures
            final(self)@ == reload_browse_of(old(self)@),
    {
        self.reload_browse();
    }

    fn refresh_albums_for_selection(&mut self)
        ensures
            final(self)@ == refresh_albums(old(self)@),
    {
        match self.selected_artist_index() {
            None => {
                self.albums = Vec::new();
                self.tracks = Vec::new();
            },
            Some(index) => {
                assert(selection(self@.artist_cursor as int, self@.artists.len() as int) == Some(index as int));
                let albums = self.lib_albums_exec(self.artists[index].name.as_str());
                self.albums = albums;
                self.album_cursor.clamp(self.albums.len());
                self.refresh_tracks_for_selection();
            },
        }
    }

    fn refresh_tracks_for_selection(&mut self)
        ensures
            final(self)@ == refresh_tracks(old(self)@),
    {
        let ghost v = self@;
        match self.selected_album_index() {
            None => {
                self.tracks = Vec::new();
                assert(self@.tracks =~= Seq::<Track>::empty());
                assert(self@ =~= refresh_tracks(v));
            },
            Some(index) => {
                let tracks = self.album_tracks(self.albums[index].album.as_str());
                assert(selection(v.album_cursor as int, v.albums.len() as int) == Some(index as int));
                self.tracks = tracks;
                self.track_cursor.clamp(self.tracks.len());
                assert(self@ =~= refresh_tracks(v));
            },
        }
    }

    /// The albums the library files under browse artist `name`.
    fn lib_albums_exec(&self, name: &str) -> (r: Vec<AlbumSummary>)
        ensures
            r@ == lib_albums(self@.library, name@),
    {
        match &self.library {
            Some(lib) => match lib.albums_for_browse_artist(name) {
                Some(rows) => clone_albums(rows),
                None => Vec::new(),
            },
            None => Vec::new(),
        }
    }

    fn album_tracks(&self, album: &str) -> (r: Vec<Track>)
        ensures
            r@ == lib_album_tracks(self@.library, album@),
    {
        match &self.library {
            Some(lib) => match lib.browse_album(album) {
                Some(rows) => clone_tracks(rows),
                None => Vec::new(),
            },
            None => Vec::new(),
        }
    }

    /// The flattened tree: each artist, and under an expanded artist its
    /// albums, and under an expanded album its loaded tracks.
    pub fn tree_rows(&self) -> (r: Vec<TreeRow>)
        ensures
            row_views(r@) == tree_rows_of(self@),
    {
        let mut rows: Vec<TreeRow> = Vec::new();
        let ghost v = self@;
        let mut i: usize = 0;
        assert(row_views(rows@) =~= Seq::<RowView>::empty());
        assert(tree_rows_of(v) =~= row_views(rows@) + rows_from(v, 0));
        while i < self.artists.len()
            invariant
                v == self@,
                i <= self.artists.len(),
                tree_rows_of(v) == row_views(rows@) + rows_from(v, i as int),
            decreases self.artists.len() - i,
        {
            let ghost before = row_views(rows@);
            let artist = &self.artists[i];
            let artist_id = TreeNodeId::Artist(artist.name.clone());
            let expanded = self.expanded.contains(&artist_id);
            push_row(&mut rows, TreeRow::Artist { artist: artist.clone(), expanded });
            if expanded {
                let albums: &[AlbumSummary] = match &self.library {
                    Some(lib) => match lib.albums_for_browse_artist(artist.name.as_str()) {
                        Some(a) => a,
                        None => &[],
                    },
                    None => &[],
                };
                assert(albums@ =~= lib_albums(v.library, artist.name@));
                self.push_album_rows(&mut rows, &artist.name, albums);
            }
            proof {
                assert(artist_rows(v, i as int) =~= row_views(rows@).skip(before.len() as int));
                assert(row_views(rows@) =~= before + artist_rows(v, i as int));
                assert(rows_from(v, i as int) == artist_rows(v, i as int) + rows_from(v, i + 1));
                assert(tree_rows_of(v) =~= row_views(rows@) + rows_from(v, i + 1));
            }
            i += 1;
        }
        rows
    }

    /// Append the rows for `albums` of the expanded artist `artist`.
    fn push_album_rows(&self, rows: &mut Vec<TreeRow>, artist: &String, albums: &[AlbumSummary])
        ensures
            row_views(final(rows)@) == row_views(old(rows)@) + album_rows(self@, artist@, albums@, 0),
    {
        let ghost v = self@;
        let ghost start = row_views(rows@);
        let mut j: usize = 0;
        assert(row_views(rows@) + album_rows(v, artist@, albums@, 0) =~= start + album_rows(v, artist@, albums@, 0));
        while j < albums.len()
            invariant
                v == self@,
                j <= albums.len(),
                start + album_rows(v, artist@, albums@, 0) == row_views(rows@) + album_rows(v, artist@, albums@, j as int),
            decreases albums.len() - j,
        {
            let ghost before = row_views(rows@);
            let album = &albums[j];
            let album_id = TreeNodeId::Album { artist: artist.clone(), album: album.album.clone() };
            let album_expanded = self.expanded.contains(&album_id);
            let album_key = to_lowercase(album.album.as_str());
            push_row(rows, TreeRow::Album {
                artist: artist.clone(),
                album: album.clone(),
                expanded: album_expanded,
                depth: 1,
            });
            let ghost key = unicode_lower(album.album@);
            if album_expanded {
                match self.tree_track_cache.get(album_key.as_str()) {
                    Some(tracks) => {
                        assert(v.track_cache.dom().contains(key));
                        assert(v.track_cache[key] == tracks@);
                        push_track_rows(rows, &album_key, tracks.len());
                    },
                    None => {
                        assert(!v.track_cache.dom().contains(key));
                    },
                }
            }
            proof {
                let here = if album_expanded && v.track_cache.dom().contains(key) {
                    track_rows(key, v.track_cache[key].len())
                } else {
                    Seq::empty()
                };
                assert(row_views(rows@) =~= before + seq![RowView::Album(artist@, albums@[j as int], album_expanded, 1)] + here);
                assert(album_rows(v, artist@, albums@, j as int)
                    == seq![RowView::Album(artist@, albums@[j as int], album_expanded, 1)] + here + album_rows(v, artist@, albums@, j + 1));
                assert(start + album_rows(v, artist@, albums@, 0) =~= row_views(rows@) + album_rows(v, artist@, albums@, j + 1));
            }
            j += 1;
        }
        assert(album_rows(v, artist@, albums@, j as int) =~= Seq::<RowView>::empty());
        assert(row_views(rows@) =~= start + album_rows(v, artist@, albums@, 0));
    }
}

pub open spec fn row_views(rows: Seq<TreeRow>) -> Seq<RowView> {
    rows.map_values(|t: TreeRow| row_view(t))
}

fn push_row(rows: &mut Vec<TreeRow>, row: TreeRow)
    ensures
        row_views(final(rows)@) == row_views(old(rows)@).push(row_view(row)),
{
    let ghost r = row;
    rows.push(row);
    assert(row_views(rows@) =~= row_views(old(rows)@).push(row_view(r)));
}

/// Append track rows `0..n` for the album filed under `key`.
fn push_track_rows(rows: &mut Vec<TreeRow>, key: &String, n: usize)
    ensures
        row_views(final(rows)@) == row_views(old(rows)@) + track_rows(key@, n as nat),
{
    let mut k: usize = 0;
    while k < n
        invariant
            k <= n,
            row_views(rows@) == row_views(old(rows)@) + track_rows(key@, k as nat),
        decreases n - k,
    {
        push_row(rows, TreeRow::Track { album_key: key.clone(), index: k, depth: 2 });
        k += 1;
        assert(track_rows(key@, k as nat) =~= track_rows(key@, (k - 1) as nat).push(RowView::Track(key@, (k - 1) as nat, 2)));
        assert(row_views(rows@) =~= row_views(old(rows)@) + track_rows(key@, k as nat));
    }
}

fn read_failure_text(e: &str) -> (r: String)
    ensures
        r@ == read_failure(e@),
{
    let mut out = owned("could not read library: ");
    out.append(e);
    out
}


// ---- what the selection is, and how wide its text runs ----

pub open spec fn opt_item(r: Option<Item>) -> Option<ItemView> {
    match r {
        Some(i) => Some(item_view(i)),
        None => None,
    }
}

pub open spec fn hit_item(h: SearchHit) -> ItemView {
    match h {
        SearchHit::Artist(a) => ItemView::Artist(a),
        SearchHit::Album(a) => ItemView::Album(a),
        SearchHit::Track(t) => ItemView::Track(t),
    }
}

/// An artist whose name is exactly `name`.
pub open spec fn named_artist(name: Seq<char>) -> spec_fn(ArtistSummary) -> bool {
    |a: ArtistSummary| a.name@ == name
}

/// An album whose title matches `name` ignoring ASCII case.
pub open spec fn album_nocase(name: Seq<char>) -> spec_fn(AlbumSummary) -> bool {
    |a: AlbumSummary| eq_ascii_nocase(a.album@, name)
}

/// An artist whose name matches `name` ignoring ASCII case.
pub open spec fn artist_nocase(name: Seq<char>) -> spec_fn(ArtistSummary) -> bool {
    |a: ArtistSummary| eq_ascii_nocase(a.name@, name)
}

/// The selected row of a column.
pub open spec fn column_item_of(v: PaneView, c: ColumnFocus) -> Option<ItemView> {
    match c {
        ColumnFocus::Artists => match selection(v.artist_cursor as int, v.artists.len() as int) {
            Some(i) => Some(ItemView::Artist(v.artists[i])),
            None => None,
        },
        ColumnFocus::Albums => match selection(v.album_cursor as int, v.albums.len() as int) {
            Some(i) => Some(ItemView::Album(v.albums[i])),
            None => None,
        },
        ColumnFocus::Tracks => match selection(v.track_cursor as int, v.tracks.len() as int) {
            Some(i) => Some(ItemView::Track(v.tracks[i])),
            None => None,
        },
    }
}

/// The loaded track a track row of the tree stands for.
pub open spec fn cached_track(v: PaneView, key: Seq<char>, index: nat) -> Option<Track> {
    if v.track_cache.dom().contains(key) && index < v.track_cache[key].len() {
        Some(v.track_cache[key][index as int])
    } else {
        None
    }
}

/// What a tree row stands for: the browse artist of that name, the album as
/// cached when it was opened (else the listed album of that title), or the
/// loaded track.
pub open spec fn row_item_of(v: PaneView, row: RowView) -> Option<ItemView> {
    match row {
        RowView::Artist(a, _) => match first_where(v.artists, named_artist(a.name@), 0) {
            Some(i) => Some(ItemView::Artist(v.artists[i])),
            None => None,
        },
        RowView::Album(_, album, _, _) => {
            let key = unicode_lower(album.album@);
            if v.album_cache.dom().contains(key) {
                Some(ItemView::Album(v.album_cache[key]))
            } else {
                match first_where(v.albums, album_nocase(album.album@), 0) {
                    Some(i) => Some(ItemView::Album(v.albums[i])),
                    None => None,
                }
            }
        },
        RowView::Track(key, index, _) => match cached_track(v, key, index) {
            Some(t) => Some(ItemView::Track(t)),
            None => None,
        },
    }
}

/// What the cursor is on in the list being shown.
pub open spec fn selected_item_of(v: PaneView, strip: nat) -> Option<ItemView> {
    match v.mode {
        ModeView::Search(_) => match selection(v.list_cursor as int, v.hits.len() as int) {
            Some(i) => Some(hit_item(v.hits[i])),
            None => None,
        },
        ModeView::AllTracks => match selection(v.list_cursor as int, v.tracks.len() as int) {
            Some(i) => Some(ItemView::Track(v.tracks[i])),
            None => None,
        },
        ModeView::Browse => if effective_of(v, strip) == EffectiveLayout::Tree {
            match selection(v.tree_cursor as int, tree_rows_of(v).len() as int) {
                Some(i) => row_item_of(v, tree_rows_of(v)[i]),
                None => None,
            }
        } else {
            column_item_of(v, active_column(v, strip))
        },
    }
}

pub open spec fn unknown_artist() -> Seq<char> {
    "Unknown artist"@
}

/// " (1959)" for a known year.
pub open spec fn year_part(year: Option<i32>) -> Seq<char> {
    match year {
        Some(y) => seq![' ', '('] + signed_decimal(y as int) + seq![')'],
        None => Seq::empty(),
    }
}

pub open spec fn album_middle_text(a: AlbumSummary) -> Seq<char> {
    a.album@ + year_part(a.year) + dash() + match a.album_artist {
        Some(s) => s@,
        None => unknown_artist(),
    }
}

pub open spec fn track_middle_text(t: Track) -> Seq<char> {
    match t.artist {
        Some(artist) => t.title@ + dash() + artist@,
        None => t.title@,
    }
}

/// The text between a row's marker and its right-hand column.
pub open spec fn item_middle(i: ItemView) -> Seq<char> {
    match i {
        ItemView::Artist(a) => a.name@,
        ItemView::Album(a) => album_middle_text(a),
        ItemView::Track(t) => track_middle_text(t),
    }
}

/// The middle text of a tree row; a track row whose tracks are not loaded has none.
pub open spec fn row_middle(v: PaneView, row: RowView) -> Seq<char> {
    match row {
        RowView::Artist(a, _) => a.name@,
        RowView::Album(_, a, _, _) => album_middle_text(a),
        RowView::Track(key, index, _) => match cached_track(v, key, index) {
            Some(t) => track_middle_text(t),
            None => Seq::empty(),
        },
    }
}

pub open spec fn middle_len_of(v: PaneView, strip: nat) -> nat {
    match selected_item_of(v, strip) {
        Some(i) => item_middle(i).len(),
        None => 0,
    }
}

/// The largest of some lengths, or 0.
pub open spec fn longest(lens: Seq<nat>) -> nat
    decreases lens.len(),
{
    if lens.len() == 0 {
        0
    } else {
        let rest = longest(lens.drop_last());
        if lens.last() > rest { lens.last() } else { rest }
    }
}

/// The widest middle text in the list being shown. Outside the tree the
/// focused column decides, in paging as in columns.
pub open spec fn longest_middle_of(v: PaneView, strip: nat) -> nat {
    match v.mode {
        ModeView::Search(_) => longest(v.hits.map_values(|h: SearchHit| item_middle(hit_item(h)).len())),
        ModeView::AllTracks => longest(v.tracks.map_values(|t: Track| track_middle_text(t).len())),
        ModeView::Browse => if effective_of(v, strip) == EffectiveLayout::Tree {
            longest(tree_rows_of(v).map_values(|r: RowView| row_middle(v, r).len()))
        } else {
            match v.column_focus {
                ColumnFocus::Artists => longest(v.artists.map_values(|a: ArtistSummary| a.name@.len())),
                ColumnFocus::Albums => longest(v.albums.map_values(|a: AlbumSummary| album_middle_text(a).len())),
                ColumnFocus::Tracks => longest(v.tracks.map_values(|t: Track| track_middle_text(t).len())),
            }
        },
    }
}

pub open spec fn sat_sub(a: nat, b: nat) -> nat {
    if a > b { (a - b) as nat } else { 0 }
}

/// The pan offset after moving by `delta`, kept within `0..=max`.
pub open spec fn panned_offset(offset: nat, delta: int, max: nat) -> nat {
    if offset + delta < 0 {
        0
    } else if offset + delta > max {
        max
    } else {
        (offset + delta) as nat
    }
}

/// The pane with its pan offset pulled back within the selected row's
/// overhang past a slot `slot` wide.
pub open spec fn pan_clamped(v: PaneView, slot: nat, strip: nat) -> PaneView {
    let max = sat_sub(middle_len_of(v, strip), slot);
    PaneView { h_offset: if v.h_offset < max { v.h_offset } else { max }, ..v }
}

/// The pane with its pan offset moved by `delta`, within the selected row's
/// overhang past a slot `slot` wide.
pub open spec fn pan_moved(v: PaneView, delta: int, slot: nat, strip: nat) -> PaneView {
    PaneView { h_offset: panned_offset(v.h_offset, delta, sat_sub(middle_len_of(v, strip), slot)), ..v }
}

/// The pane with a different pan offset and nothing else changed.
pub open spec fn with_pan(v: PaneView, h: nat) -> PaneView {
    PaneView { h_offset: h, ..v }
}

proof fn lemma_album_rows_ignore_pan(v: PaneView, h: nat, artist: Seq<char>, albums: Seq<AlbumSummary>, j: int)
    ensures
        album_rows(with_pan(v, h), artist, albums, j) == album_rows(v, artist, albums, j),
    decreases albums.len() - j,
{
    if 0 <= j < albums.len() {
        lemma_album_rows_ignore_pan(v, h, artist, albums, j + 1);
    }
}

proof fn lemma_rows_ignore_pan(v: PaneView, h: nat, i: int)
    ensures
        rows_from(with_pan(v, h), i) == rows_from(v, i),
    decreases v.artists.len() - i,
{
    if 0 <= i < v.artists.len() {
        lemma_rows_ignore_pan(v, h, i + 1);
        let artist = v.artists[i];
        lemma_album_rows_ignore_pan(v, h, artist.name@, lib_albums(v.library, artist.name@), 0);
        assert(artist_rows(with_pan(v, h), i) == artist_rows(v, i));
    }
}

/// What is selected does not depend on how far its text is panned.
proof fn lemma_selection_ignores_pan(v: PaneView, h: nat, strip: nat)
    ensures
        selected_item_of(with_pan(v, h), strip) == selected_item_of(v, strip),
        middle_len_of(with_pan(v, h), strip) == middle_len_of(v, strip),
{
    lemma_rows_ignore_pan(v, h, 0);
    let w = with_pan(v, h);
    assert(tree_rows_of(w) == tree_rows_of(v));
    assert(effective_of(w, strip) == effective_of(v, strip));
    assert(active_column(w, strip) == active_column(v, strip));
    assert(forall|r: RowView| row_item_of(w, r) == row_item_of(v, r));
    assert(forall|c: ColumnFocus| column_item_of(w, c) == column_item_of(v, c));
}

/// Any cursor move puts the pan offset back at the start of the text.
pub proof fn moving_the_cursor_resets_pan(v: PaneView, strip: nat, how: Move)
    ensures
        navigate(v, strip, how).h_offset == 0,
{
}

/// Panning changes nothing but the offset, keeps the selection where it
/// was, and never scrolls further than the selected text overhangs its slot;
/// pulling the pan back for a new slot stays inside the same bound.
pub proof fn panning_stays_within_the_overhang(v: PaneView, delta: int, slot: nat, strip: nat)
    ensures
        pan_moved(v, delta, slot, strip) == with_pan(v, pan_moved(v, delta, slot, strip).h_offset),
        pan_moved(v, delta, slot, strip).h_offset <= sat_sub(middle_len_of(v, strip), slot),
        selected_item_of(pan_moved(v, delta, slot, strip), strip) == selected_item_of(v, strip),
        pan_clamped(v, slot, strip).h_offset <= sat_sub(middle_len_of(v, strip), slot),
        pan_clamped(v, slot, strip).h_offset <= v.h_offset,
{
    lemma_selection_ignores_pan(v, pan_moved(v, delta, slot, strip).h_offset, strip);
}

/// Panning back by the same amount returns to the offset a pan started
/// from, as long as neither pan runs into either end.
pub proof fn panning_back_undoes_a_pan(v: PaneView, delta: int, slot: nat, strip: nat)
    requires
        v.h_offset <= sat_sub(middle_len_of(v, strip), slot),
        0 <= v.h_offset + delta <= sat_sub(middle_len_of(v, strip), slot),
    ensures
        pan_moved(pan_moved(v, delta, slot, strip), -delta, slot, strip) == v,
{
    let w = pan_moved(v, delta, slot, strip);
    lemma_selection_ignores_pan(v, w.h_offset, strip);
    assert(w == with_pan(v, w.h_offset));
    assert(middle_len_of(w, strip) == middle_len_of(v, strip));
    assert(pan_moved(w, -delta, slot, strip) == with_pan(w, v.h_offset));
}

/// Opening the search prompt and cancelling it leaves the pane as it was.
pub proof fn a_cancelled_search_leaves_the_pane_as_it_was(v: PaneView)
    requires
        v.input is None,
    ensures
        (PaneView { input: None, ..(PaneView { input: Some((Seq::<char>::empty(), 0nat)), ..v }) }) == v,
{
}

/// Esc from search always leaves the results behind; when the library
/// lists its artists, it is back to browsing them.
pub proof fn escape_leaves_search(v: PaneView)
    requires
        v.mode is Search,
    ensures
        back_of(v).1,
        back_of(v).0.hits.len() == 0,
        back_of(v).0.h_offset == 0,
        (v.library matches Some(l) && l.browse_artists matches Ok(a) && a@.len() > 0) ==> back_of(v).0.mode == ModeView::Browse,
{
}

/// Outside the tree, Esc steps back one paging level: tracks to albums,
/// albums to artists; at the artists there is nothing to step back to.
pub proof fn escape_steps_back_one_level(v: PaneView)
    requires
        v.mode is Browse,
        v.layout != LibraryLayout::Tree,
    ensures
        v.paging_level == ColumnFocus::Tracks ==> back_of(v) == (PaneView { paging_level: ColumnFocus::Albums, tracks: Seq::empty(), h_offset: 0, ..v }, true),
        v.paging_level == ColumnFocus::Albums ==> back_of(v).1 && back_of(v).0.paging_level == ColumnFocus::Artists,
        v.paging_level == ColumnFocus::Artists ==> back_of(v) == (v, false),
{
}

/// One step of a running maximum.
proof fn lemma_longest_push(lens: Seq<nat>, n: nat)
    ensures
        longest(lens.push(n)) == if n > longest(lens) { n } else { longest(lens) },
{
    assert(lens.push(n).drop_last() =~= lens);
}

impl LibraryPane {
    pub fn artist_middle(artist: &ArtistSummary) -> (r: String)
        ensures
            r@ == artist.name@,
    {
        artist.name.clone()
    }

    /// "Title (year) — Album artist".
    pub fn album_middle(album: &AlbumSummary) -> (r: String)
        ensures
            r@ == album_middle_text(*album),
    {
        let mut out = owned(album.album.as_str());
        match album.year {
            Some(y) => {
                push_char(&mut out, ' ');
                push_char(&mut out, '(');
                push_signed(&mut out, y);
                push_char(&mut out, ')');
            },
            None => {},
        }
        push_char(&mut out, ' ');
        push_char(&mut out, '—');
        push_char(&mut out, ' ');
        match &album.album_artist {
            Some(a) => out.append(a.as_str()),
            None => out.append("Unknown artist"),
        }
        assert(out@ =~= album_middle_text(*album));
        out
    }

    /// "Title — Artist", or the title alone.
    pub fn track_middle(track: &Track) -> (r: String)
        ensures
            r@ == track_middle_text(*track),
    {
        match &track.artist {
            Some(artist) => {
                let mut out = owned(track.title.as_str());
                push_char(&mut out, ' ');
                push_char(&mut out, '—');
                push_char(&mut out, ' ');
                out.append(artist.as_str());
                assert(out@ =~= track_middle_text(*track));
                out
            },
            None => track.title.clone(),
        }
    }

    fn item_middle_len(item: Item) -> (r: usize)
        ensures
            r == item_middle(item_view(item)).len(),
    {
        match item {
            Item::Artist(a) => char_count(a.name.as_str()),
            Item::Album(a) => char_count(Self::album_middle(a).as_str()),
            Item::Track(t) => char_count(Self::track_middle(t).as_str()),
        }
    }

    /// The first browse artist named exactly `name`.
    fn find_artist_named(&self, name: &str) -> (r: Option<usize>)
        ensures
            match r {
                Some(i) => first_where(self@.artists, named_artist(name@), 0) == Some(i as int),
                None => first_where(self@.artists, named_artist(name@), 0) is None,
            },
            r matches Some(i) ==> i < self@.artists.len(),
    {
        let ghost p = named_artist(name@);
        let mut i: usize = 0;
        while i < self.artists.len()
            invariant
                p == named_artist(name@),
                i <= self.artists.len(),
                first_where(self@.artists, p, 0) == first_where(self@.artists, p, i as int),
            decreases self.artists.len() - i,
        {
            let hit = same_text(self.artists[i].name.as_str(), name);
            assert(hit == p(self@.artists[i as int]));
            if hit {
                return Some(i);
            }
            i += 1;
        }
        None
    }

    /// The first browse artist whose name matches `name` ignoring ASCII case.
    fn find_artist_nocase(&self, name: &str) -> (r: Option<usize>)
        ensures
            match r {
                Some(i) => first_where(self@.artists, artist_nocase(name@), 0) == Some(i as int),
                None => first_where(self@.artists, artist_nocase(name@), 0) is None,
            },
            r matches Some(i) ==> i < self@.artists.len(),
    {
        let ghost p = artist_nocase(name@);
        let mut i: usize = 0;
        while i < self.artists.len()
            invariant
                p == artist_nocase(name@),
                i <= self.artists.len(),
                first_where(self@.artists, p, 0) == first_where(self@.artists, p, i as int),
            decreases self.artists.len() - i,
        {
            let hit = same_text_nocase(self.artists[i].name.as_str(), name);
            assert(hit == p(self@.artists[i as int]));
            if hit {
                return Some(i);
            }
            i += 1;
        }
        None
    }

    /// The first listed album whose title matches `name` ignoring ASCII case.
    fn find_album_nocase(&self, name: &str) -> (r: Option<usize>)
        ensures
            match r {
                Some(i) => first_where(self@.albums, album_nocase(name@), 0) == Some(i as int),
                None => first_where(self@.albums, album_nocase(name@), 0) is None,
            },
            r matches Some(i) ==> i < self@.albums.len(),
    {
        let ghost p = album_nocase(name@);
        let mut i: usize = 0;
        while i < self.albums.len()
            invariant
                p == album_nocase(name@),
                i <= self.albums.len(),
                first_where(self@.albums, p, 0) == first_where(self@.albums, p, i as int),
            decreases self.albums.len() - i,
        {
            let hit = same_text_nocase(self.albums[i].album.as_str(), name);
            assert(hit == p(self@.albums[i as int]));
            if hit {
                return Some(i);
            }
            i += 1;
        }
        None
    }

    /// Track `index` of the album loaded under `album_key`.
    pub fn tree_track_cache_get(&self, album_key: &str, index: usize) -> (r: Option<&Track>)
        ensures
            match r {
                Some(t) => cached_track(self@, album_key@, index as nat) == Some(*t),
                None => cached_track(self@, album_key@, index as nat) is None,
            },
    {
        match self.tree_track_cache.get(album_key) {
            Some(tracks) => {
                if index < tracks.len() {
                    Some(&tracks[index])
                } else {
                    None
                }
            },
            None => None,
        }
    }

    fn column_item(&self, c: ColumnFocus) -> (r: Option<Item<'_>>)
        ensures
            opt_item(r) == column_item_of(self@, c),
    {
        match c {
            ColumnFocus::Artists => match self.selected_artist_index() {
                Some(i) => Some(Item::Artist(&self.artists[i])),
                None => None,
            },
            ColumnFocus::Albums => match self.selected_album_index() {
                Some(i) => Some(Item::Album(&self.albums[i])),
                None => None,
            },
            ColumnFocus::Tracks => match self.selected_track_index() {
                Some(i) => Some(Item::Track(&self.tracks[i])),
                None => None,
            },
        }
    }

    fn row_item(&self, row: &TreeRow) -> (r: Option<Item<'_>>)
        ensures
            opt_item(r) == row_item_of(self@, row_view(*row)),
    {
        match row {
            TreeRow::Artist { artist, .. } => match self.find_artist_named(artist.name.as_str()) {
                Some(i) => Some(Item::Artist(&self.artists[i])),
                None => None,
            },
            TreeRow::Album { album, .. } => {
                let key = to_lowercase(album.album.as_str());
                match self.tree_album_cache.get(key.as_str()) {
                    Some(a) => Some(Item::Album(a)),
                    None => match self.find_album_nocase(album.album.as_str()) {
                        Some(i) => Some(Item::Album(&self.albums[i])),
                        None => None,
                    },
                }
            },
            TreeRow::Track { album_key, index, .. } => match self.tree_track_cache_get(album_key.as_str(), *index) {
                Some(t) => Some(Item::Track(t)),
                None => None,
            },
        }
    }

    /// What the cursor is on, so the caller knows what a key should do.
    pub fn selected(&self, strip_inner: usize) -> (r: Option<Item<'_>>)
        ensures
            opt_item(r) == selected_item_of(self@, strip_inner as nat),
    {
        match &self.mode {
            Mode::Search(_) => match self.list_cursor.selected(self.search_hits.len()) {
                Some(i) => Some(match &self.search_hits[i] {
                    SearchHit::Artist(a) => Item::Artist(a),
                    SearchHit::Album(a) => Item::Album(a),
                    SearchHit::Track(t) => Item::Track(t),
                }),
                None => None,
            },
            Mode::AllTracks => match self.list_cursor.selected(self.tracks.len()) {
                Some(i) => Some(Item::Track(&self.tracks[i])),
                None => None,
            },
            Mode::Browse => {
                if self.effective_layout(strip_inner) == EffectiveLayout::Tree {
                    let rows = self.tree_rows();
                    proof {
                        assert(rows@.len() == tree_rows_of(self@).len());
                    }
                    match self.tree_cursor.selected(rows.len()) {
                        Some(i) => {
                            assert(row_view(rows@[i as int]) == tree_rows_of(self@)[i as int]);
                            self.row_item(&rows[i])
                        },
                        None => None,
                    }
                } else {
                    self.column_item(self.active_column_exec(strip_inner))
                }
            },
        }
    }

    pub fn h_offset(&self) -> (r: usize)
        ensures
            r == self@.h_offset,
    {
        self.h_offset
    }

    /// The pan offset for row `index`: only the selected row pans.
    pub fn offset_for(&self, index: usize, strip_inner: usize) -> (r: usize)
        ensures
            r == if selected_index_of(self@, strip_inner as nat) == Some(index as int) { self@.h_offset } else { 0 },
    {
        match self.selected_index(strip_inner) {
            Some(i) => if i == index { self.h_offset } else { 0 },
            None => 0,
        }
    }

    fn selected_middle_len(&self, strip_inner: usize) -> (r: usize)
        ensures
            r == middle_len_of(self@, strip_inner as nat),
    {
        match self.selected(strip_inner) {
            Some(item) => Self::item_middle_len(item),
            None => 0,
        }
    }

    /// Pull the pan offset back when the slot grew or the selection changed.
    pub fn clamp_pan(&mut self, slot: usize, strip_inner: usize)
        ensures
            final(self)@ == pan_clamped(old(self)@, slot as nat, strip_inner as nat),
    {
        let len = self.selected_middle_len(strip_inner);
        let max: usize = if len > slot { len - slot } else { 0 };
        if self.h_offset > max {
            self.h_offset = max;
        }
    }

    /// Pan the selected row's text by `delta` characters, so that the end of
    /// the text can come into a slot `slot` wide and no further.
    pub fn pan(&mut self, delta: isize, slot: usize, strip_inner: usize)
        ensures
            final(self)@ == pan_moved(old(self)@, delta as int, slot as nat, strip_inner as nat),
    {
        let len = self.selected_middle_len(strip_inner);
        let max: usize = if len > slot { len - slot } else { 0 };
        let h = self.h_offset;
        let next: usize = if delta >= 0 {
            let forward = delta as usize;
            if forward > max || h > max - forward { max } else { h + forward }
        } else {
            let back: usize = ((0 - (delta + 1)) as usize) + 1;
            if back >= h { 0 } else if h - back > max { max } else { h - back }
        };
        self.h_offset = next;
    }
}


// ---- tracks behind a selection or a whole list ----

/// The tracks a selection stands for: the track, the album's tracks, or
/// every track under the artist.
pub open spec fn item_tracks(v: PaneView, item: Option<ItemView>) -> Seq<Track> {
    match item {
        Some(ItemView::Track(t)) => seq![t],
        Some(ItemView::Album(a)) => lib_album_tracks(v.library, a.album@),
        Some(ItemView::Artist(a)) => lib_artist_tracks(v.library, a.name@),
        None => Seq::empty(),
    }
}

/// The track hits among search results, in order.
pub open spec fn hit_tracks(hits: Seq<SearchHit>) -> Seq<Track>
    decreases hits.len(),
{
    if hits.len() == 0 {
        Seq::empty()
    } else {
        hit_tracks(hits.drop_last()) + match hits.last() {
            SearchHit::Track(t) => seq![t],
            _ => Seq::empty(),
        }
    }
}

/// Every track under each of `artists`, artist by artist.
pub open spec fn artists_tracks(lib: Option<LibrarySnapshot>, artists: Seq<ArtistSummary>) -> Seq<Track>
    decreases artists.len(),
{
    if artists.len() == 0 {
        Seq::empty()
    } else {
        artists_tracks(lib, artists.drop_last()) + lib_artist_tracks(lib, artists.last().name@)
    }
}

/// The tracks of each of `albums`, album by album.
pub open spec fn albums_tracks(lib: Option<LibrarySnapshot>, albums: Seq<AlbumSummary>) -> Seq<Track>
    decreases albums.len(),
{
    if albums.len() == 0 {
        Seq::empty()
    } else {
        albums_tracks(lib, albums.drop_last()) + lib_album_tracks(lib, albums.last().album@)
    }
}

/// Everything the shown list holds, for "add everything": in search only
/// the track hits; in the tree every artist's tracks.
pub open spec fn listed_tracks_of(v: PaneView, strip: nat) -> Seq<Track> {
    match v.mode {
        ModeView::Search(_) => hit_tracks(v.hits),
        ModeView::AllTracks => v.tracks,
        ModeView::Browse => if effective_of(v, strip) == EffectiveLayout::Tree {
            artists_tracks(v.library, v.artists)
        } else {
            match active_column(v, strip) {
                ColumnFocus::Artists => artists_tracks(v.library, v.artists),
                ColumnFocus::Albums => albums_tracks(v.library, v.albums),
                ColumnFocus::Tracks => v.tracks,
            }
        },
    }
}

proof fn lemma_tracks_of_albums_stuck(l: LibrarySnapshot, albums: Seq<AlbumSummary>, j: int, k: int)
    requires
        0 <= j <= k <= albums.len(),
        tracks_of_albums(l, albums.take(j)) is None,
    ensures
        tracks_of_albums(l, albums.take(k)) is None,
    decreases k - j,
{
    if j < k {
        assert(albums.take(j + 1).drop_last() =~= albums.take(j));
        lemma_tracks_of_albums_stuck(l, albums, j + 1, k);
    }
}

fn longest_hits(hits: &[SearchHit]) -> (r: usize)
    ensures
        r == longest(hits@.map_values(|h: SearchHit| item_middle(hit_item(h)).len())),
{
    let ghost lens = hits@.map_values(|h: SearchHit| item_middle(hit_item(h)).len());
    let mut best: usize = 0;
    let mut i: usize = 0;
    assert(lens.take(0) =~= Seq::<nat>::empty());
    while i < hits.len()
        invariant
            i <= hits.len(),
            lens == hits@.map_values(|h: SearchHit| item_middle(hit_item(h)).len()),
            best == longest(lens.take(i as int)),
        decreases hits.len() - i,
    {
        let n = match &hits[i] {
            SearchHit::Artist(a) => LibraryPane::item_middle_len(Item::Artist(a)),
            SearchHit::Album(a) => LibraryPane::item_middle_len(Item::Album(a)),
            SearchHit::Track(t) => LibraryPane::item_middle_len(Item::Track(t)),
        };
        proof {
            assert(lens.take(i + 1) =~= lens.take(i as int).push(n as nat));
            lemma_longest_push(lens.take(i as int), n as nat);
        }
        if n > best {
            best = n;
        }
        i += 1;
    }
    assert(lens.take(hits.len() as int) =~= lens);
    best
}

fn longest_tracks(tracks: &[Track]) -> (r: usize)
    ensures
        r == longest(tracks@.map_values(|t: Track| track_middle_text(t).len())),
{
    let ghost lens = tracks@.map_values(|t: Track| track_middle_text(t).len());
    let mut best: usize = 0;
    let mut i: usize = 0;
    assert(lens.take(0) =~= Seq::<nat>::empty());
    while i < tracks.len()
        invariant
            i <= tracks.len(),
            lens == tracks@.map_values(|t: Track| track_middle_text(t).len()),
            best == longest(lens.take(i as int)),
        decreases tracks.len() - i,
    {
        let n = LibraryPane::item_middle_len(Item::Track(&tracks[i]));
        proof {
            assert(lens.take(i + 1) =~= lens.take(i as int).push(n as nat));
            lemma_longest_push(lens.take(i as int), n as nat);
        }
        if n > best {
            best = n;
        }
        i += 1;
    }
    assert(lens.take(tracks.len() as int) =~= lens);
    best
}

fn longest_artists(artists: &[ArtistSummary]) -> (r: usize)
    ensures
        r == longest(artists@.map_values(|a: ArtistSummary| a.name@.len())),
{
    let ghost lens = artists@.map_values(|a: ArtistSummary| a.name@.len());
    let mut best: usize = 0;
    let mut i: usize = 0;
    assert(lens.take(0) =~= Seq::<nat>::empty());
    while i < artists.len()
        invariant
            i <= artists.len(),
            lens == artists@.map_values(|a: ArtistSummary| a.name@.len()),
            best == longest(lens.take(i as int)),
        decreases artists.len() - i,
    {
        let n = char_count(artists[i].name.as_str());
        proof {
            assert(lens.take(i + 1) =~= lens.take(i as int).push(n as nat));
            lemma_longest_push(lens.take(i as int), n as nat);
        }
        if n > best {
            best = n;
        }
        i += 1;
    }
    assert(lens.take(artists.len() as int) =~= lens);
    best
}

fn longest_albums(albums: &[AlbumSummary]) -> (r: usize)
    ensures
        r == longest(albums@.map_values(|a: AlbumSummary| album_middle_text(a).len())),
{
    let ghost lens = albums@.map_values(|a: AlbumSummary| album_middle_text(a).len());
    let mut best: usize = 0;
    let mut i: usize = 0;
    assert(lens.take(0) =~= Seq::<nat>::empty());
    while i < albums.len()
        invariant
            i <= albums.len(),
            lens == albums@.map_values(|a: AlbumSummary| album_middle_text(a).len()),
            best == longest(lens.take(i as int)),
        decreases albums.len() - i,
    {
        let n = LibraryPane::item_middle_len(Item::Album(&albums[i]));
        proof {
            assert(lens.take(i + 1) =~= lens.take(i as int).push(n as nat));
            lemma_longest_push(lens.take(i as int), n as nat);
        }
        if n > best {
            best = n;
        }
        i += 1;
    }
    assert(lens.take(albums.len() as int) =~= lens);
    best
}

impl LibraryPane {
    fn row_middle_len(&self, row: &TreeRow) -> (r: usize)
        ensures
            r == row_middle(self@, row_view(*row)).len(),
    {
        match row {
            TreeRow::Artist { artist, .. } => char_count(artist.name.as_str()),
            TreeRow::Album { album, .. } => Self::item_middle_len(Item::Album(album)),
            TreeRow::Track { album_key, index, .. } => match self.tree_track_cache_get(album_key.as_str(), *index) {
                Some(t) => Self::item_middle_len(Item::Track(t)),
                None => 0,
            },
        }
    }

    fn longest_row(&self) -> (r: usize)
        ensures
            r == longest(tree_rows_of(self@).map_values(|row: RowView| row_middle(self@, row).len())),
    {
        let rows = self.tree_rows();
        let ghost v = self@;
        let ghost lens = tree_rows_of(v).map_values(|row: RowView| row_middle(v, row).len());
        let mut best: usize = 0;
        let mut i: usize = 0;
        assert(lens.take(0) =~= Seq::<nat>::empty());
        while i < rows.len()
            invariant
                v == self@,
                i <= rows.len(),
                row_views(rows@) == tree_rows_of(v),
                lens == tree_rows_of(v).map_values(|row: RowView| row_middle(v, row).len()),
                best == longest(lens.take(i as int)),
            decreases rows.len() - i,
        {
            let n = self.row_middle_len(&rows[i]);
            proof {
                assert(row_views(rows@)[i as int] == row_view(rows@[i as int]));
                assert(lens.take(i + 1) =~= lens.take(i as int).push(n as nat));
                lemma_longest_push(lens.take(i as int), n as nat);
            }
            if n > best {
                best = n;
            }
            i += 1;
        }
        assert(lens.take(rows.len() as int) =~= lens);
        best
    }

    /// The widest middle text in the list being shown.
    pub fn longest_middle(&self, strip_inner: usize) -> (r: usize)
        ensures
            r == longest_middle_of(self@, strip_inner as nat),
    {
        match &self.mode {
            Mode::Search(_) => longest_hits(self.search_hits.as_slice()),
            Mode::AllTracks => longest_tracks(self.tracks.as_slice()),
            Mode::Browse => {
                if self.effective_layout(strip_inner) == EffectiveLayout::Tree {
                    self.longest_row()
                } else {
                    match self.column_focus {
                        ColumnFocus::Artists => longest_artists(self.artists.as_slice()),
                        ColumnFocus::Albums => longest_albums(self.albums.as_slice()),
                        ColumnFocus::Tracks => longest_tracks(self.tracks.as_slice()),
                    }
                }
            },
        }
    }

    /// Every track under a browse artist.
    fn artist_tracks(&self, artist: &str) -> (r: Vec<Track>)
        ensures
            r@ == lib_artist_tracks(self@.library, artist@),
    {
        match &self.library {
            None => Vec::new(),
            Some(lib) => match lib.albums_for_browse_artist(artist) {
                None => Vec::new(),
                Some(albums) => {
                    let mut tracks: Vec<Track> = Vec::new();
                    let mut j: usize = 0;
                    assert(albums@.take(0) =~= Seq::<AlbumSummary>::empty());
                    while j < albums.len()
                        invariant
                            j <= albums.len(),
                            tracks_of_albums(*lib, albums@.take(j as int)) == Some(tracks@),
                            self@.library == Some(*lib),
                            lib.albums_of(artist@) == Some(albums@),
                        decreases albums.len() - j,
                    {
                        assert(albums@.take(j + 1).drop_last() =~= albums@.take(j as int));
                        match lib.browse_album(albums[j].album.as_str()) {
                            None => {
                                proof {
                                    assert(albums@.take(j + 1).last() == albums@[j as int]);
                                    assert(tracks_of_albums(*lib, albums@.take(j + 1)) is None);
                                    lemma_tracks_of_albums_stuck(*lib, albums@, j + 1, albums@.len() as int);
                                    assert(albums@.take(albums@.len() as int) =~= albums@);
                                    assert(tracks_of_albums(*lib, albums@) is None);
                                    assert(self@.library == Some(*lib));
                                    assert(lib.albums_of(artist@) == Some(albums@));
                                }
                                return Vec::new();
                            },
                            Some(rows) => {
                                let mut more = clone_tracks(rows);
                                tracks.append(&mut more);
                            },
                        }
                        j += 1;
                    }
                    assert(albums@.take(albums.len() as int) =~= albums@);
                    if tracks.len() == 0 {
                        match lib.tracks_for_artist(artist) {
                            Some(rows) => clone_tracks(rows),
                            None => Vec::new(),
                        }
                    } else {
                        tracks
                    }
                },
            },
        }
    }

    /// Every track the selection stands for.
    pub fn selected_tracks(&self, strip_inner: usize) -> (r: Vec<Track>)
        ensures
            r@ == item_tracks(self@, selected_item_of(self@, strip_inner as nat)),
    {
        match self.selected(strip_inner) {
            Some(Item::Track(track)) => {
                let mut out: Vec<Track> = Vec::new();
                out.push(track.clone());
                assert(out@ =~= seq![*track]);
                out
            },
            Some(Item::Album(album)) => self.album_tracks(album.album.as_str()),
            Some(Item::Artist(artist)) => self.artist_tracks(artist.name.as_str()),
            None => Vec::new(),
        }
    }

    fn tracks_of_artists(&self) -> (r: Vec<Track>)
        ensures
            r@ == artists_tracks(self@.library, self@.artists),
    {
        let mut out: Vec<Track> = Vec::new();
        let mut i: usize = 0;
        assert(self@.artists.take(0) =~= Seq::<ArtistSummary>::empty());
        while i < self.artists.len()
            invariant
                i <= self.artists.len(),
                out@ == artists_tracks(self@.library, self@.artists.take(i as int)),
            decreases self.artists.len() - i,
        {
            let mut more = self.artist_tracks(self.artists[i].name.as_str());
            assert(self@.artists.take(i + 1).drop_last() =~= self@.artists.take(i as int));
            out.append(&mut more);
            i += 1;
        }
        assert(self@.artists.take(self.artists.len() as int) =~= self@.artists);
        out
    }

    fn tracks_of_listed_albums(&self) -> (r: Vec<Track>)
        ensures
            r@ == albums_tracks(self@.library, self@.albums),
    {
        let mut out: Vec<Track> = Vec::new();
        let mut i: usize = 0;
        assert(self@.albums.take(0) =~= Seq::<AlbumSummary>::empty());
        while i < self.albums.len()
            invariant
                i <= self.albums.len(),
                out@ == albums_tracks(self@.library, self@.albums.take(i as int)),
            decreases self.albums.len() - i,
        {
            let mut more = self.album_tracks(self.albums[i].album.as_str());
            assert(self@.albums.take(i + 1).drop_last() =~= self@.albums.take(i as int));
            out.append(&mut more);
            i += 1;
        }
        assert(self@.albums.take(self.albums.len() as int) =~= self@.albums);
        out
    }

    /// All rows currently listed, for "add everything".
    pub fn listed_tracks(&self, strip_inner: usize) -> (r: Vec<Track>)
        ensures
            r@ == listed_tracks_of(self@, strip_inner as nat),
    {
        match &self.mode {
            Mode::Search(_) => {
                let mut out: Vec<Track> = Vec::new();
                let mut i: usize = 0;
                assert(self@.hits.take(0) =~= Seq::<SearchHit>::empty());
                while i < self.search_hits.len()
                    invariant
                        i <= self.search_hits.len(),
                        out@ == hit_tracks(self@.hits.take(i as int)),
                    decreases self.search_hits.len() - i,
                {
                    assert(self@.hits.take(i + 1).drop_last() =~= self@.hits.take(i as int));
                    match &self.search_hits[i] {
                        SearchHit::Track(t) => {
                            out.push(t.clone());
                        },
                        _ => {},
                    }
                    proof {
                        assert(out@ =~= hit_tracks(self@.hits.take(i + 1)));
                    }
                    i += 1;
                }
                assert(self@.hits.take(self.search_hits.len() as int) =~= self@.hits);
                out
            },
            Mode::AllTracks => clone_tracks(self.tracks.as_slice()),
            Mode::Browse => {
                if self.effective_layout(strip_inner) == EffectiveLayout::Tree {
                    self.tracks_of_artists()
                } else {
                    match self.active_column_exec(strip_inner) {
                        ColumnFocus::Artists => self.tracks_of_artists(),
                        ColumnFocus::Albums => self.tracks_of_listed_albums(),
                        ColumnFocus::Tracks => clone_tracks(self.tracks.as_slice()),
                    }
                }
            },
        }
    }
}


// ---- opening and closing tree nodes, and Enter ----

/// `m` with the entry of each of `albums` removed.
pub open spec fn uncache<V>(m: Map<Seq<char>, V>, albums: Seq<AlbumSummary>) -> Map<Seq<char>, V>
    decreases albums.len(),
{
    if albums.len() == 0 {
        m
    } else {
        uncache(m, albums.drop_last()).remove(unicode_lower(albums.last().album@))
    }
}

/// `m` with each of `albums` filed under its lower-cased title, later ones
/// replacing earlier ones.
pub open spec fn cache_albums(m: Map<Seq<char>, AlbumSummary>, albums: Seq<AlbumSummary>) -> Map<Seq<char>, AlbumSummary>
    decreases albums.len(),
{
    if albums.len() == 0 {
        m
    } else {
        cache_albums(m, albums.drop_last()).insert(unicode_lower(albums.last().album@), albums.last())
    }
}

/// The expanded set after collapsing artist `name`: neither the artist nor
/// any album under it stays open.
pub open spec fn collapse_artist(s: Set<NodeKey>, name: Seq<char>) -> Set<NodeKey> {
    Set::new(|k: NodeKey| s.contains(k) && k != NodeKey::Artist(name) && !(k matches NodeKey::Album(a, _) && a == name))
}

/// Open or close the tree node under the cursor. Opening an artist caches
/// its albums and lists them; opening an album loads and lists its tracks.
/// A track row, or an empty tree, is left alone.
pub open spec fn toggle_of(v: PaneView) -> (PaneView, bool) {
    let rows = tree_rows_of(v);
    match selection(v.tree_cursor as int, rows.len() as int) {
        None => (v, false),
        Some(i) => match rows[i] {
            RowView::Artist(a, open) => {
                let name = a.name@;
                let browse = match v.library {
                    Some(l) => l.albums_of(name),
                    None => None,
                };
                if open {
                    let (album_cache, track_cache) = match browse {
                        Some(albums) => (uncache(v.album_cache, albums), uncache(v.track_cache, albums)),
                        None => (v.album_cache, v.track_cache),
                    };
                    (PaneView { expanded: collapse_artist(v.expanded, name), album_cache, track_cache, ..v }, true)
                } else {
                    let album_cache = match browse {
                        Some(albums) => cache_albums(v.album_cache, albums),
                        None => v.album_cache,
                    };
                    (PaneView {
                        expanded: v.expanded.insert(NodeKey::Artist(name)),
                        album_cache,
                        albums: lib_albums(v.library, name),
                        ..v
                    }, true)
                }
            },
            RowView::Album(artist, album, open, _) => {
                let id = NodeKey::Album(artist, album.album@);
                let key = unicode_lower(album.album@);
                if open {
                    (PaneView { expanded: v.expanded.remove(id), track_cache: v.track_cache.remove(key), ..v }, true)
                } else {
                    let tracks = lib_album_tracks(v.library, album.album@);
                    (PaneView {
                        expanded: v.expanded.insert(id),
                        tracks,
                        track_cache: v.track_cache.insert(key, tracks),
                        album_cache: v.album_cache.insert(key, album),
                        ..v
                    }, true)
                }
            },
            RowView::Track(..) => (v, false),
        },
    }
}

/// Enter: drill into the selected artist or album (columns and paging), or
/// open or close the tree node. Search results and the all-tracks list have
/// nothing to open.
pub open spec fn enter_of(v: PaneView, strip: nat) -> (PaneView, EnterResult) {
    match v.mode {
        ModeView::Browse => {
            let layout = effective_of(v, strip);
            if layout == EffectiveLayout::Tree {
                let (w, changed) = toggle_of(v);
                (w, if changed { EnterResult::Moved } else { EnterResult::Unchanged })
            } else if layout == EffectiveLayout::Columns {
                match v.column_focus {
                    ColumnFocus::Artists => if selection(v.artist_cursor as int, v.artists.len() as int) is None {
                        (v, EnterResult::Unchanged)
                    } else {
                        (PaneView { column_focus: ColumnFocus::Albums, h_offset: 0, ..refresh_albums(v) }, EnterResult::Moved)
                    },
                    ColumnFocus::Albums => if selection(v.album_cursor as int, v.albums.len() as int) is None {
                        (v, EnterResult::Unchanged)
                    } else {
                        (PaneView { column_focus: ColumnFocus::Tracks, h_offset: 0, ..refresh_tracks(v) }, EnterResult::Moved)
                    },
                    ColumnFocus::Tracks => (v, EnterResult::Unchanged),
                }
            } else {
                match v.paging_level {
                    ColumnFocus::Artists => if selection(v.artist_cursor as int, v.artists.len() as int) is None {
                        (v, EnterResult::Unchanged)
                    } else {
                        (PaneView {
                            paging_level: ColumnFocus::Albums,
                            album_cursor: 0,
                            h_offset: 0,
                            ..refresh_albums(v)
                        }, EnterResult::Moved)
                    },
                    ColumnFocus::Albums => if selection(v.album_cursor as int, v.albums.len() as int) is None {
                        (v, EnterResult::Unchanged)
                    } else {
                        (PaneView {
                            paging_level: ColumnFocus::Tracks,
                            track_cursor: 0,
                            h_offset: 0,
                            ..refresh_tracks(v)
                        }, EnterResult::Moved)
                    },
                    ColumnFocus::Tracks => (v, EnterResult::Unchanged),
                }
            }
        },
        _ => (v, EnterResult::Unchanged),
    }
}

/// In the columns, Enter on a selected artist or album opens the next
/// column: the keys move one column right, artists → albums → tracks, and
/// the tracks shown are the selected album's. A track column has nothing to
/// open, and Enter that opens nothing changes nothing.
pub proof fn enter_opens_the_next_column(v: PaneView, strip: nat)
    requires
        effective_of(v, strip) == EffectiveLayout::Columns,
    ensures
        enter_of(v, strip).1 == EnterResult::Moved ==> v.column_focus != ColumnFocus::Tracks
            && enter_of(v, strip).0.column_focus == v.column_focus.following(),
        enter_of(v, strip).1 == EnterResult::Unchanged ==> enter_of(v, strip).0 == v,
        (v.column_focus == ColumnFocus::Artists && v.artists.len() > 0) ==> {
            &&& enter_of(v, strip).1 == EnterResult::Moved
            &&& enter_of(v, strip).0.column_focus == ColumnFocus::Albums
            &&& enter_of(v, strip).0.albums == lib_albums(
                v.library,
                v.artists[crate::cursor::clamped(v.artist_cursor as int, v.artists.len() as int)].name@,
            )
        },
        (v.column_focus == ColumnFocus::Albums && v.albums.len() > 0) ==> {
            &&& enter_of(v, strip).1 == EnterResult::Moved
            &&& enter_of(v, strip).0.column_focus == ColumnFocus::Tracks
            &&& enter_of(v, strip).0.tracks == lib_album_tracks(
                v.library,
                v.albums[crate::cursor::clamped(v.album_cursor as int, v.albums.len() as int)].album@,
            )
        },
{
}

/// Paging, Enter on a selected artist or album goes one level down, to the
/// top of the list it opens; tracks have nothing below them.
pub proof fn enter_goes_one_level_down(v: PaneView, strip: nat)
    requires
        v.mode is Browse,
        effective_of(v, strip) == EffectiveLayout::Paging,
    ensures
        enter_of(v, strip).1 == EnterResult::Moved ==> v.paging_level != ColumnFocus::Tracks
            && enter_of(v, strip).0.paging_level == v.paging_level.following(),
        enter_of(v, strip).1 == EnterResult::Unchanged ==> enter_of(v, strip).0 == v,
        (v.paging_level == ColumnFocus::Artists && v.artists.len() > 0) ==> enter_of(v, strip).1 == EnterResult::Moved
            && enter_of(v, strip).0.album_cursor == 0,
        (v.paging_level == ColumnFocus::Albums && v.albums.len() > 0) ==> enter_of(v, strip).1 == EnterResult::Moved
            && enter_of(v, strip).0.track_cursor == 0,
{
}

proof fn lemma_uncache_loaded(m: Map<Seq<char>, Vec<Track>>, albums: Seq<AlbumSummary>)
    ensures
        loaded_tracks(uncache(m, albums)) == uncache(loaded_tracks(m), albums),
    decreases albums.len(),
{
    if albums.len() > 0 {
        lemma_uncache_loaded(m, albums.drop_last());
        let key = unicode_lower(albums.last().album@);
        assert(loaded_tracks(uncache(m, albums.drop_last()).remove(key))
            =~= loaded_tracks(uncache(m, albums.drop_last())).remove(key));
    }
}

/// Forget the cached summaries and tracks of each of `albums`.
fn forget_albums(
    album_cache: &mut TextMap<AlbumSummary>,
    track_cache: &mut TextMap<Vec<Track>>,
    albums: &[AlbumSummary],
)
    ensures
        final(album_cache)@ == uncache(old(album_cache)@, albums@),
        final(track_cache)@ == uncache(old(track_cache)@, albums@),
{
    let mut j: usize = 0;
    assert(albums@.take(0) =~= Seq::<AlbumSummary>::empty());
    while j < albums.len()
        invariant
            j <= albums.len(),
            album_cache@ == uncache(old(album_cache)@, albums@.take(j as int)),
            track_cache@ == uncache(old(track_cache)@, albums@.take(j as int)),
        decreases albums.len() - j,
    {
        let key = to_lowercase(albums[j].album.as_str());
        album_cache.remove(key.as_str());
        track_cache.remove(key.as_str());
        assert(albums@.take(j + 1).drop_last() =~= albums@.take(j as int));
        j += 1;
    }
    assert(albums@.take(albums.len() as int) =~= albums@);
}

/// File each of `albums` under its lower-cased title.
fn remember_albums(album_cache: &mut TextMap<AlbumSummary>, albums: &[AlbumSummary])
    ensures
        final(album_cache)@ == cache_albums(old(album_cache)@, albums@),
{
    let mut j: usize = 0;
    assert(albums@.take(0) =~= Seq::<AlbumSummary>::empty());
    while j < albums.len()
        invariant
            j <= albums.len(),
            album_cache@ == cache_albums(old(album_cache)@, albums@.take(j as int)),
        decreases albums.len() - j,
    {
        let key = to_lowercase(albums[j].album.as_str());
        album_cache.insert(key, albums[j].clone());
        assert(albums@.take(j + 1).drop_last() =~= albums@.take(j as int));
        j += 1;
    }
    assert(albums@.take(albums.len() as int) =~= albums@);
}

impl LibraryPane {
    /// The albums the library files under `name`, when that query succeeded.
    fn browse_albums_of(&self, name: &str) -> (r: Option<Vec<AlbumSummary>>)
        ensures
            match r {
                Some(albums) => (match self@.library {
                    Some(l) => l.albums_of(name@),
                    None => None,
                }) == Some(albums@),
                None => (match self@.library {
                    Some(l) => l.albums_of(name@),
                    None => None,
                }) is None,
            },
    {
        match &self.library {
            Some(lib) => match lib.albums_for_browse_artist(name) {
                Some(rows) => Some(clone_albums(rows)),
                None => None,
            },
            None => None,
        }
    }

    /// Open or close the tree node under the cursor; `false` when there is
    /// nothing to toggle.
    pub fn toggle_expand_at_cursor(&mut self) -> (r: bool)
        ensures
            (final(self)@, r) == toggle_of(old(self)@),
    {
        let ghost v = self@;
        let rows = self.tree_rows();
        let index = match self.tree_cursor.selected(rows.len()) {
            Some(i) => i,
            None => return false,
        };
        let row = rows[index].clone_row();
        assert(row_view(row) == tree_rows_of(v)[index as int]);
        match row {
            TreeRow::Artist { artist, expanded } => {
                let id = TreeNodeId::Artist(artist.name.clone());
                let browse = self.browse_albums_of(artist.name.as_str());
                if expanded {
                    self.expanded.remove(&id);
                    self.expanded.remove_albums_of(artist.name.as_str());
                    match &browse {
                        Some(albums) => {
                            forget_albums(&mut self.tree_album_cache, &mut self.tree_track_cache, albums.as_slice());
                            proof { lemma_uncache_loaded(old(self).tree_track_cache@, albums@); }
                        },
                        None => {},
                    }
                    assert(self@.expanded =~= collapse_artist(v.expanded, artist.name@));
                    assert(self@ =~= toggle_of(v).0);
                } else {
                    self.expanded.insert(id);
                    match &browse {
                        Some(albums) => remember_albums(&mut self.tree_album_cache, albums.as_slice()),
                        None => {},
                    }
                    let listed = self.lib_albums_exec(artist.name.as_str());
                    self.albums = listed;
                    assert(self@ =~= toggle_of(v).0);
                }
                true
            },
            TreeRow::Album { artist, album, expanded, .. } => {
                let id = TreeNodeId::Album { artist: artist.clone(), album: album.album.clone() };
                let key = to_lowercase(album.album.as_str());
                if expanded {
                    self.expanded.remove(&id);
                    self.tree_track_cache.remove(key.as_str());
                    assert(loaded_tracks(self.tree_track_cache@) =~= loaded_tracks(old(self).tree_track_cache@).remove(key@));
                    assert(self@ =~= toggle_of(v).0);
                } else {
                    self.expanded.insert(id);
                    let tracks = self.album_tracks(album.album.as_str());
                    self.tracks = clone_tracks(tracks.as_slice());
                    let ghost loaded = tracks@;
                    self.tree_track_cache.insert(key.clone(), tracks);
                    self.tree_album_cache.insert(key, album);
                    assert(loaded_tracks(self.tree_track_cache@) =~= loaded_tracks(old(self).tree_track_cache@).insert(
                        unicode_lower(row_view(row)->Album_1.album@), loaded));
                    assert(self@ =~= toggle_of(v).0);
                }
                true
            },
            TreeRow::Track { .. } => false,
        }
    }

    /// Enter / open the current selection. Returns what happened.
    pub fn enter(&mut self, strip_inner: usize) -> (r: EnterResult)
        ensures
            (final(self)@, r) == enter_of(old(self)@, strip_inner as nat),
    {
        let ghost v = self@;
        match self.mode {
            Mode::Browse => {},
            _ => return EnterResult::Unchanged,
        }
        let layout = self.effective_layout(strip_inner);
        if layout == EffectiveLayout::Tree {
            return if self.toggle_expand_at_cursor() { EnterResult::Moved } else { EnterResult::Unchanged };
        }
        if layout == EffectiveLayout::Columns {
            match self.column_focus {
                ColumnFocus::Artists => {
                    if self.selected_artist_index().is_none() {
                        return EnterResult::Unchanged;
                    }
                    self.refresh_albums_for_selection();
                    self.column_focus = ColumnFocus::Albums;
                    self.h_offset = 0;
                    EnterResult::Moved
                },
                ColumnFocus::Albums => {
                    if self.selected_album_index().is_none() {
                        return EnterResult::Unchanged;
                    }
                    self.refresh_tracks_for_selection();
                    self.column_focus = ColumnFocus::Tracks;
                    self.h_offset = 0;
                    EnterResult::Moved
                },
                ColumnFocus::Tracks => EnterResult::Unchanged,
            }
        } else {
            match self.paging_level {
                ColumnFocus::Artists => {
                    if self.selected_artist_index().is_none() {
                        return EnterResult::Unchanged;
                    }
                    self.refresh_albums_for_selection();
                    self.paging_level = ColumnFocus::Albums;
                    self.album_cursor.first();
                    self.h_offset = 0;
                    EnterResult::Moved
                },
                ColumnFocus::Albums => {
                    if self.selected_album_index().is_none() {
                        return EnterResult::Unchanged;
                    }
                    self.refresh_tracks_for_selection();
                    self.paging_level = ColumnFocus::Tracks;
                    self.track_cursor.first();
                    self.h_offset = 0;
                    EnterResult::Moved
                },
                ColumnFocus::Tracks => EnterResult::Unchanged,
            }
        }
    }
}


// ---- the search prompt ----

/// What submitting the search prompt asks of the caller.
pub enum SearchRequest {
    /// Nothing to run: show this message.
    Message(String),
    /// Run this query against the library, then hand the answer to
    /// [`LibraryPane::finish_search`].
    Query(String),
}

pub open spec fn search_cancelled() -> Seq<char> {
    "search cancelled"@
}

pub open spec fn no_library_for_search() -> Seq<char> {
    "no library: run `znicz scan <dir>` first"@
}

pub open spec fn quoted(q: Seq<char>) -> Seq<char> {
    seq!['"'] + q + seq!['"']
}

pub open spec fn nothing_matched(q: Seq<char>) -> Seq<char> {
    "nothing matched "@ + quoted(q)
}

/// "no match for …", "1 match for …", "N matches for …".
pub open spec fn match_count(n: nat, q: Seq<char>) -> Seq<char> {
    if n == 0 {
        "no match for "@ + quoted(q)
    } else if n == 1 {
        "1 match for "@ + quoted(q)
    } else {
        decimal(n) + " matches for "@ + quoted(q)
    }
}

pub open spec fn search_failed(e: Seq<char>) -> Seq<char> {
    "search failed: "@ + e
}

/// What a submitted prompt asks for: a message to show, or a query to run.
pub open spec fn submit_request(v: PaneView) -> (bool, Seq<char>) {
    match v.input {
        None => (false, Seq::empty()),
        Some((text, _)) => if trimmed(text).len() == 0 {
            (false, search_cancelled())
        } else if v.library is None {
            (false, no_library_for_search())
        } else {
            (true, trimmed(text))
        },
    }
}

pub open spec fn request_view(r: SearchRequest) -> (bool, Seq<char>) {
    match r {
        SearchRequest::Message(m) => (false, m@),
        SearchRequest::Query(q) => (true, q@),
    }
}

/// The pane after the library answered query `q`.
pub open spec fn finish_of(v: PaneView, q: Seq<char>, answer: Result<Vec<SearchHit>, String>) -> (PaneView, Seq<char>) {
    match answer {
        Ok(hits) => (PaneView {
            hits: hits@,
            mode: ModeView::Search(q),
            list_cursor: 0,
            notice: if hits@.len() == 0 { Some(nothing_matched(q)) } else { None },
            ..v
        }, match_count(hits@.len(), q)),
        Err(e) => (PaneView { notice: Some(search_failed(e@)), ..v }, search_failed(e@)),
    }
}

impl LibraryPane {
    pub fn begin_search(&mut self)
        ensures
            final(self)@ == (PaneView { input: Some((Seq::<char>::empty(), 0nat)), ..old(self)@ }),
    {
        let edit = LineEdit::new();
        self.input = Some(edit);
        assert(self@.input == Some((Seq::<char>::empty(), 0nat)));
        assert(self@ =~= (PaneView { input: Some((Seq::<char>::empty(), 0nat)), ..old(self)@ }));
    }

    /// The text typed so far, while the prompt is open.
    pub fn input(&self) -> (r: Option<&str>)
        ensures
            match r {
                Some(t) => self@.input matches Some((text, _)) && t@ == text,
                None => self@.input is None,
            },
    {
        match &self.input {
            Some(e) => Some(e.as_str()),
            None => None,
        }
    }

    pub fn prompt(&self) -> (r: Option<&LineEdit>)
        ensures
            match r {
                Some(e) => self@.input == Some(e@),
                None => self@.input is None,
            },
    {
        match &self.input {
            Some(e) => Some(e),
            None => None,
        }
    }

    pub fn prompt_mut(&mut self) -> (r: Option<&mut LineEdit>)
        ensures
            match old(self)@.input {
                None => r is None && final(self)@ == old(self)@,
                Some(e) => r is Some && r.unwrap()@ == e
                    && final(self)@ == (PaneView { input: Some(final(r.unwrap())@), ..old(self)@ }),
            },
    {
        self.input.as_mut()
    }

    pub fn is_typing(&self) -> (r: bool)
        ensures
            r == self@.input is Some,
    {
        self.input.is_some()
    }

    pub fn push_char(&mut self, c: char)
        requires
            old(self)@.input matches Some((text, _)) ==> text.len() < usize::MAX,
        ensures
            final(self)@ == (PaneView {
                input: match old(self)@.input {
                    Some((text, caret)) => Some((crate::line_edit::inserted(text, caret as int, c), caret + 1)),
                    None => None,
                },
                ..old(self)@
            }),
    {
        match &mut self.input {
            Some(e) => e.insert(c),
            None => {},
        }
        assert(self@.input == match old(self)@.input {
            Some((text, caret)) => Some((crate::line_edit::inserted(text, caret as int, c), caret + 1)),
            None => None,
        });
        assert(self@ =~= (PaneView {
            input: match old(self)@.input {
                Some((text, caret)) => Some((crate::line_edit::inserted(text, caret as int, c), caret + 1)),
                None => None,
            },
            ..old(self)@
        }));
    }

    pub fn pop_char(&mut self)
        ensures
            final(self)@ == (PaneView {
                input: match old(self)@.input {
                    Some((text, caret)) => if caret == 0 {
                        Some((text, caret))
                    } else {
                        Some((crate::line_edit::removed(text, caret - 1), (caret - 1) as nat))
                    },
                    None => None,
                },
                ..old(self)@
            }),
    {
        match &mut self.input {
            Some(e) => e.backspace(),
            None => {},
        }
        assert(self@ =~= (PaneView {
            input: match old(self)@.input {
                Some((text, caret)) => if caret == 0 {
                    Some((text, caret))
                } else {
                    Some((crate::line_edit::removed(text, caret - 1), (caret - 1) as nat))
                },
                None => None,
            },
            ..old(self)@
        }));
    }

    pub fn cancel_search(&mut self)
        ensures
            final(self)@ == (PaneView { input: None, ..old(self)@ }),
    {
        self.input = None;
    }

    /// Close the prompt and say what to do with what was typed: an empty
    /// query is a cancel, a query without a library is refused, and anything
    /// else is a query for the caller to run.
    pub fn submit_search(&mut self) -> (r: SearchRequest)
        ensures
            final(self)@ == (PaneView { input: None, ..old(self)@ }),
            request_view(r) == submit_request(old(self)@),
    {
        let taken = self.input.take();
        let edit = match taken {
            Some(e) => e,
            None => return SearchRequest::Message(String::new()),
        };
        let chars = crate::text::chars_of(edit.as_str());
        let query = crate::text::trim_chars(chars.as_slice());
        if query.len() == 0 {
            return SearchRequest::Message(owned("search cancelled"));
        }
        if self.library.is_none() {
            return SearchRequest::Message(owned("no library: run `znicz scan <dir>` first"));
        }
        SearchRequest::Query(crate::text::string_from_chars(query.as_slice()))
    }

    /// Show the library's answer to query `query`: the hits and how many
    /// there were, or why the search failed.
    pub fn finish_search(&mut self, query: &str, answer: Result<Vec<SearchHit>, String>) -> (r: String)
        ensures
            (final(self)@, r@) == finish_of(old(self)@, query@, answer),
    {
        let ghost v = self@;
        let ghost given = answer;
        match answer {
            Ok(hits) => {
                let count = hits.len();
                self.search_hits = hits;
                self.mode = Mode::Search(owned(query));
                self.list_cursor.first();
                let mut quoted_query = String::new();
                push_char(&mut quoted_query, '"');
                quoted_query.append(query);
                push_char(&mut quoted_query, '"');
                assert(quoted_query@ =~= quoted(query@));
                if count == 0 {
                    let mut notice = owned("nothing matched ");
                    notice.append(quoted_query.as_str());
                    self.notice = Some(notice);
                } else {
                    self.notice = None;
                }
                let mut message = if count == 0 {
                    owned("no match for ")
                } else if count == 1 {
                    owned("1 match for ")
                } else {
                    let mut m = String::new();
                    push_decimal(&mut m, count as u64);
                    m.append(" matches for ");
                    m
                };
                message.append(quoted_query.as_str());
                assert(self@ =~= finish_of(v, query@, given).0);
                assert(message@ =~= match_count(count as nat, query@));
                message
            },
            Err(e) => {
                let mut message = owned("search failed: ");
                message.append(e.as_str());
                self.notice = Some(owned(message.as_str()));
                assert(self@ =~= finish_of(v, query@, given).0);
                message
            },
        }
    }
}


// ---- jumping from a search hit into browse ----

/// A tree row for artist `name`.
pub open spec fn artist_row(name: Seq<char>) -> spec_fn(RowView) -> bool {
    |row: RowView| row matches RowView::Artist(a, _) && a.name@ == name
}

/// A tree row for album `album` of artist `artist`.
pub open spec fn album_row(artist: Seq<char>, album: Seq<char>) -> spec_fn(RowView) -> bool {
    |row: RowView| row matches RowView::Album(a, al, _, _) && a == artist && al.album@ == album
}

/// Put the tree cursor on the first row `p` accepts, if there is one.
pub open spec fn sync_tree(v: PaneView, p: spec_fn(RowView) -> bool) -> PaneView {
    let rows = tree_rows_of(v);
    match first_where(rows, p, 0) {
        Some(i) => PaneView { tree_cursor: clamp_to(i as nat, rows.len()), ..v },
        None => v,
    }
}

/// A browse artist whose albums include `album`, ignoring ASCII case.
pub open spec fn owns_album(l: LibrarySnapshot, album: Seq<char>) -> spec_fn(ArtistSummary) -> bool {
    |a: ArtistSummary| match l.albums_of(a.name@) {
        Some(albums) => exists|j: int| 0 <= j < albums.len() && eq_ascii_nocase(#[trigger] albums[j].album@, album),
        None => false,
    }
}

/// The first browse artist filed as owning `album`.
pub open spec fn album_owner(v: PaneView, album: Seq<char>) -> Option<Seq<char>> {
    match v.library {
        None => None,
        Some(l) => match first_where(v.artists, owns_album(l, album), 0) {
            Some(i) => Some(v.artists[i].name@),
            None => None,
        },
    }
}

/// Leave search for browse with artist `name` selected and open.
pub open spec fn focus_artist_of(v: PaneView, name: Seq<char>) -> (PaneView, bool) {
    let r = reload_browse_of(PaneView { hits: Seq::empty(), ..v });
    match first_where(r.artists, artist_nocase(name), 0) {
        None => (r, false),
        Some(i) => {
            let found = r.artists[i].name@;
            let a = refresh_albums(PaneView { artist_cursor: clamp_to(i as nat, r.artists.len()), ..r });
            let b = PaneView {
                column_focus: ColumnFocus::Albums,
                paging_level: ColumnFocus::Albums,
                expanded: a.expanded.insert(NodeKey::Artist(found)),
                ..a
            };
            (sync_tree(b, artist_row(found)), true)
        },
    }
}

/// The browse artist an album jump goes to: the album artist when one is
/// named and listed, else the first artist filed as owning the album.
pub open spec fn album_jump_artist(r: PaneView, album: Seq<char>, album_artist: Option<Seq<char>>) -> Option<Seq<char>> {
    match album_artist {
        Some(aa) => if aa.len() > 0 {
            match first_where(r.artists, artist_nocase(aa), 0) {
                Some(i) => Some(r.artists[i].name@),
                None => album_owner(r, album),
            }
        } else {
            album_owner(r, album)
        },
        None => album_owner(r, album),
    }
}

/// Leave search for browse with album `album` selected and open.
pub open spec fn focus_album_of(v: PaneView, album: Seq<char>, album_artist: Option<Seq<char>>) -> (PaneView, bool) {
    let r = reload_browse_of(PaneView { hits: Seq::empty(), ..v });
    match album_jump_artist(r, album, album_artist) {
        None => (r, false),
        Some(artist) => match first_where(r.artists, artist_nocase(artist), 0) {
            None => (r, false),
            Some(ai) => {
                let a = refresh_albums(PaneView { artist_cursor: clamp_to(ai as nat, r.artists.len()), ..r });
                match first_where(a.albums, album_nocase(album), 0) {
                    None => (a, false),
                    Some(bi) => {
                        let title = a.albums[bi].album@;
                        let b = refresh_tracks(PaneView { album_cursor: clamp_to(bi as nat, a.albums.len()), ..a });
                        let c = PaneView {
                            column_focus: ColumnFocus::Tracks,
                            paging_level: ColumnFocus::Tracks,
                            expanded: b.expanded.insert(NodeKey::Artist(artist)).insert(NodeKey::Album(artist, title)),
                            ..b
                        };
                        (sync_tree(c, album_row(artist, title)), true)
                    },
                }
            },
        },
    }
}

impl LibraryPane {
    fn sync_tree_cursor_to_artist(&mut self, name: &str)
        ensures
            final(self)@ == sync_tree(old(self)@, artist_row(name@)),
    {
        let rows = self.tree_rows();
        let ghost v = self@;
        let ghost p = artist_row(name@);
        let mut i: usize = 0;
        while i < rows.len()
            invariant
                v == self@,
                v == old(self)@,
                p == artist_row(name@),
                i <= rows.len(),
                row_views(rows@) == tree_rows_of(v),
                first_where(tree_rows_of(v), p, 0) == first_where(tree_rows_of(v), p, i as int),
            decreases rows.len() - i,
        {
            let hit = match &rows[i] {
                TreeRow::Artist { artist, .. } => same_text(artist.name.as_str(), name),
                _ => false,
            };
            assert(row_views(rows@)[i as int] == row_view(rows@[i as int]));
            assert(hit == p(tree_rows_of(v)[i as int]));
            if hit {
                self.tree_cursor.set(i, rows.len());
                assert(self@ =~= sync_tree(v, p));
                return;
            }
            i += 1;
        }
    }

    fn sync_tree_cursor_to_album(&mut self, artist: &str, album: &str)
        ensures
            final(self)@ == sync_tree(old(self)@, album_row(artist@, album@)),
    {
        let rows = self.tree_rows();
        let ghost v = self@;
        let ghost p = album_row(artist@, album@);
        let mut i: usize = 0;
        while i < rows.len()
            invariant
                v == self@,
                v == old(self)@,
                p == album_row(artist@, album@),
                i <= rows.len(),
                row_views(rows@) == tree_rows_of(v),
                first_where(tree_rows_of(v), p, 0) == first_where(tree_rows_of(v), p, i as int),
            decreases rows.len() - i,
        {
            let hit = match &rows[i] {
                TreeRow::Album { artist: a, album: al, .. } => same_text(a.as_str(), artist) && same_text(al.album.as_str(), album),
                _ => false,
            };
            assert(row_views(rows@)[i as int] == row_view(rows@[i as int]));
            assert(hit == p(tree_rows_of(v)[i as int]));
            if hit {
                self.tree_cursor.set(i, rows.len());
                assert(self@ =~= sync_tree(v, p));
                return;
            }
            i += 1;
        }
    }

    /// The first browse artist filed as owning `album`.
    fn find_browse_artist_for_album(&self, album: &str) -> (r: Option<String>)
        ensures
            match r {
                Some(n) => album_owner(self@, album@) == Some(n@),
                None => album_owner(self@, album@) is None,
            },
    {
        let lib = match &self.library {
            Some(l) => l,
            None => return None,
        };
        let ghost p = owns_album(*lib, album@);
        let mut i: usize = 0;
        while i < self.artists.len()
            invariant
                i <= self.artists.len(),
                self@.library == Some(*lib),
                p == owns_album(*lib, album@),
                first_where(self@.artists, p, 0) == first_where(self@.artists, p, i as int),
            decreases self.artists.len() - i,
        {
            let mut owns = false;
            match lib.albums_for_browse_artist(self.artists[i].name.as_str()) {
                Some(albums) => {
                    let mut j: usize = 0;
                    while j < albums.len()
                        invariant
                            j <= albums.len(),
                            !owns ==> forall|k: int| 0 <= k < j ==> !eq_ascii_nocase(#[trigger] albums@[k].album@, album@),
                            owns ==> exists|k: int| 0 <= k < albums@.len() && eq_ascii_nocase(#[trigger] albums@[k].album@, album@),
                        decreases albums.len() - j,
                    {
                        if same_text_nocase(albums[j].album.as_str(), album) {
                            owns = true;
                        }
                        j += 1;
                    }
                    assert(owns == p(self@.artists[i as int]));
                },
                None => {
                    assert(!p(self@.artists[i as int]));
                },
            }
            if owns {
                return Some(self.artists[i].name.clone());
            }
            i += 1;
        }
        None
    }

    /// Leave search and focus a browse artist.
    pub fn focus_artist(&mut self, name: &str) -> (r: bool)
        ensures
            (final(self)@, r) == focus_artist_of(old(self)@, name@),
    {
        self.search_hits = Vec::new();
        self.reload_browse();
        let ghost r0 = self@;
        let index = match self.find_artist_nocase(name) {
            Some(i) => i,
            None => return false,
        };
        self.artist_cursor.set(index, self.artists.len());
        self.refresh_albums_for_selection();
        self.column_focus = ColumnFocus::Albums;
        self.paging_level = ColumnFocus::Albums;
        let found = self.artists[index].name.clone();
        assert(found@ == r0.artists[index as int].name@);
        self.expanded.insert(TreeNodeId::Artist(found.clone()));
        self.sync_tree_cursor_to_artist(found.as_str());
        true
    }

    /// Leave search and focus a browse album (and its artist when known).
    pub fn focus_album(&mut self, album: &str, album_artist: Option<&str>) -> (r: bool)
        ensures
            (final(self)@, r) == focus_album_of(old(self)@, album@, crate::library_pane::opt_chars(album_artist)),
    {
        self.search_hits = Vec::new();
        self.reload_browse();
        let ghost r0 = self@;
        let jump = match album_artist {
            Some(aa) => if aa.unicode_len() > 0 {
                match self.find_artist_nocase(aa) {
                    Some(i) => Some(self.artists[i].name.clone()),
                    None => self.find_browse_artist_for_album(album),
                }
            } else {
                self.find_browse_artist_for_album(album)
            },
            None => self.find_browse_artist_for_album(album),
        };
        let artist_name = match jump {
            Some(n) => n,
            None => return false,
        };
        let artist_index = match self.find_artist_nocase(artist_name.as_str()) {
            Some(i) => i,
            None => return false,
        };
        self.artist_cursor.set(artist_index, self.artists.len());
        self.refresh_albums_for_selection();
        let album_index = match self.find_album_nocase(album) {
            Some(i) => i,
            None => return false,
        };
        let title = self.albums[album_index].album.clone();
        self.album_cursor.set(album_index, self.albums.len());
        self.refresh_tracks_for_selection();
        self.column_focus = ColumnFocus::Tracks;
        self.paging_level = ColumnFocus::Tracks;
        self.expanded.insert(TreeNodeId::Artist(artist_name.clone()));
        self.expanded.insert(TreeNodeId::Album { artist: artist_name.clone(), album: title.clone() });
        self.sync_tree_cursor_to_album(artist_name.as_str(), title.as_str());
        true
    }
}


// ---- a new pane, and seeding it with rows ----

/// A pane over `library` before anything was read from it.
pub open spec fn fresh_view(library: Option<LibrarySnapshot>) -> PaneView {
    PaneView {
        library,
        mode: ModeView::Browse,
        artists: Seq::empty(),
        albums: Seq::empty(),
        tracks: Seq::empty(),
        hits: Seq::empty(),
        artist_cursor: 0,
        album_cursor: 0,
        track_cursor: 0,
        list_cursor: 0,
        tree_cursor: 0,
        column_focus: ColumnFocus::Artists,
        paging_level: ColumnFocus::Artists,
        expanded: Set::empty(),
        track_cache: Map::empty(),
        album_cache: Map::empty(),
        layout: LibraryLayout::Columns,
        input: None,
        notice: None,
        h_offset: 0,
    }
}

/// The sum of the albums' track counts.
pub open spec fn track_total(albums: Seq<AlbumSummary>) -> nat
    decreases albums.len(),
{
    if albums.len() == 0 {
        0
    } else {
        track_total(albums.drop_last()) + albums.last().track_count as nat
    }
}

pub open spec fn test_artist() -> Seq<char> {
    "Test Artist"@
}

fn sum_track_counts(albums: &[AlbumSummary]) -> (r: u32)
    requires
        track_total(albums@) <= u32::MAX,
    ensures
        r == track_total(albums@),
{
    let mut total: u32 = 0;
    let mut i: usize = 0;
    assert(albums@.take(0) =~= Seq::<AlbumSummary>::empty());
    while i < albums.len()
        invariant
            i <= albums.len(),
            track_total(albums@) <= u32::MAX,
            total == track_total(albums@.take(i as int)),
        decreases albums.len() - i,
    {
        proof {
            assert(albums@.take(i + 1).drop_last() =~= albums@.take(i as int));
            lemma_track_total_prefix(albums@, i + 1);
        }
        total = total + albums[i].track_count;
        i += 1;
    }
    assert(albums@.take(albums.len() as int) =~= albums@);
    total
}

proof fn lemma_track_total_prefix(albums: Seq<AlbumSummary>, k: int)
    requires
        0 <= k <= albums.len(),
    ensures
        track_total(albums.take(k)) <= track_total(albums),
    decreases albums.len() - k,
{
    if k < albums.len() {
        lemma_track_total_prefix(albums, k + 1);
        assert(albums.take(k + 1).drop_last() =~= albums.take(k));
    } else {
        assert(albums.take(k) =~= albums);
    }
}

impl LibraryPane {
    /// A pane over `library` (or none yet), showing its browse roots.
    pub fn new(library: Option<LibrarySnapshot>) -> (r: Self)
        ensures
            r@ == reload_browse_of(fresh_view(library)),
    {
        let mut pane = LibraryPane {
            library,
            mode: Mode::Browse,
            artists: Vec::new(),
            albums: Vec::new(),
            tracks: Vec::new(),
            search_hits: Vec::new(),
            artist_cursor: Cursor::new(),
            album_cursor: Cursor::new(),
            track_cursor: Cursor::new(),
            list_cursor: Cursor::new(),
            column_focus: ColumnFocus::Artists,
            paging_level: ColumnFocus::Artists,
            expanded: NodeSet::new(),
            tree_cursor: Cursor::new(),
            tree_track_cache: TextMap::new(),
            tree_album_cache: TextMap::new(),
            preferred_layout: LibraryLayout::Columns,
            input: None,
            notice: None,
            h_offset: 0,
        };
        assert(pane@ =~= fresh_view(pane.library));
        pane.reload_browse();
        pane
    }

    /// Seed album rows (paging at the albums level) under one artist.
    pub fn inject_albums_for_test(&mut self, albums: Vec<AlbumSummary>)
        requires
            track_total(albums@) <= u32::MAX,
        ensures
            final(self)@.artists.len() == 1,
            final(self)@.artists[0].name@ == test_artist(),
            final(self)@.artists[0].track_count == track_total(albums@),
            final(self)@ == (PaneView {
                artists: final(self)@.artists,
                albums: albums@,
                tracks: Seq::empty(),
                hits: Seq::empty(),
                mode: ModeView::Browse,
                column_focus: ColumnFocus::Albums,
                paging_level: ColumnFocus::Albums,
                layout: LibraryLayout::Columns,
                notice: None,
                artist_cursor: 0,
                album_cursor: clamp_to(old(self)@.album_cursor, albums@.len()),
                ..old(self)@
            }),
    {
        let total = sum_track_counts(albums.as_slice());
        let mut artists: Vec<ArtistSummary> = Vec::new();
        artists.push(ArtistSummary { name: owned("Test Artist"), track_count: total });
        self.artists = artists;
        self.albums = albums;
        self.tracks = Vec::new();
        self.search_hits = Vec::new();
        self.mode = Mode::Browse;
        self.column_focus = ColumnFocus::Albums;
        self.paging_level = ColumnFocus::Albums;
        self.preferred_layout = LibraryLayout::Columns;
        self.notice = None;
        self.artist_cursor.first();
        self.album_cursor.clamp(self.albums.len());
    }

    /// Seed track rows (paging at the tracks level) under one album.
    pub fn inject_tracks_for_test(&mut self, tracks: Vec<Track>)
        ensures
            final(self)@.artists.len() == 1,
            final(self)@.artists[0].name@ == test_artist(),
            final(self)@.artists[0].track_count == tracks@.len() as u32,
            final(self)@.albums.len() == 1,
            final(self)@.albums[0].album@ == "test"@,
            final(self)@.albums[0].album_artist matches Some(a) && a@ == test_artist(),
            final(self)@.albums[0].year is None,
            final(self)@.albums[0].track_count == tracks@.len() as u32,
            final(self)@.albums[0].total_ms is None,
            final(self)@ == (PaneView {
                artists: final(self)@.artists,
                albums: final(self)@.albums,
                tracks: tracks@,
                hits: Seq::empty(),
                mode: ModeView::Browse,
                column_focus: ColumnFocus::Tracks,
                paging_level: ColumnFocus::Tracks,
                layout: LibraryLayout::Columns,
                notice: None,
                track_cursor: clamp_to(old(self)@.track_cursor, tracks@.len()),
                ..old(self)@
            }),
    {
        let count = tracks.len() as u32;
        let mut artists: Vec<ArtistSummary> = Vec::new();
        artists.push(ArtistSummary { name: owned("Test Artist"), track_count: count });
        let mut albums: Vec<AlbumSummary> = Vec::new();
        albums.push(AlbumSummary {
            album: owned("test"),
            album_artist: Some(owned("Test Artist")),
            year: None,
            track_count: count,
            total_ms: None,
        });
        self.artists = artists;
        self.albums = albums;
        self.tracks = tracks;
        self.search_hits = Vec::new();
        self.mode = Mode::Browse;
        self.column_focus = ColumnFocus::Tracks;
        self.paging_level = ColumnFocus::Tracks;
        self.preferred_layout = LibraryLayout::Columns;
        self.notice = None;
        self.track_cursor.clamp(self.tracks.len());
    }

    /// Seed search results for `query`.
    pub fn inject_search_hits_for_test(&mut self, query: &str, hits: Vec<SearchHit>)
        ensures
            final(self)@ == (PaneView {
                hits: hits@,
                mode: ModeView::Search(query@),
                notice: None,
                list_cursor: clamp_to(old(self)@.list_cursor, hits@.len()),
                ..old(self)@
            }),
    {
        self.search_hits = hits;
        self.mode = Mode::Search(owned(query));
        self.notice = None;
        self.list_cursor.clamp(self.search_hits.len());
    }

    /// Seed the browse artists.
    pub fn inject_artists_for_test(&mut self, artists: Vec<ArtistSummary>)
        ensures
            final(self)@ == (PaneView {
                artists: artists@,
                albums: Seq::empty(),
                tracks: Seq::empty(),
                hits: Seq::empty(),
                mode: ModeView::Browse,
                column_focus: ColumnFocus::Artists,
                paging_level: ColumnFocus::Artists,
                notice: None,
                artist_cursor: clamp_to(old(self)@.artist_cursor, artists@.len()),
                ..old(self)@
            }),
    {
        self.artists = artists;
        self.albums = Vec::new();
        self.tracks = Vec::new();
        self.search_hits = Vec::new();
        self.mode = Mode::Browse;
        self.column_focus = ColumnFocus::Artists;
        self.paging_level = ColumnFocus::Artists;
        self.notice = None;
        self.artist_cursor.clamp(self.artists.len());
    }
}

} // verus!
