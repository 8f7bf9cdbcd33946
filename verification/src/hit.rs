//! Where things were drawn, so a mouse click can be mapped back to them.

use vstd::prelude::*;
use crate::input::KeyEvent;
use crate::layout::Rect;

verus! {

/// A drawn list: the cells inside its border, the first item shown, and how
/// many items it holds.
#[derive(Debug, Clone, Copy, PartialEq, Eq, Structural)]
pub struct ListHit {
    pub inner: Rect,
    pub offset: usize,
    pub len: usize,
}

pub open spec fn row_at_of(hit: ListHit, column: int, row: int) -> Option<usize> {
    if !hit.inner.holds(column, row) {
        None
    } else {
        let index = hit.offset + (row - hit.inner.y);
        if index < hit.len { Some(index as usize) } else { None }
    }
}

impl ListHit {
    /// The item under the cell at `column`, `row`, if any.
    pub fn row_at(self, column: u16, row: u16) -> (r: Option<usize>)
        ensures
            r == row_at_of(self, column as int, row as int),
    {
        if !self.inner.contains(column, row) {
            return None;
        }
        let down = (row - self.inner.y) as usize;
        if self.offset < self.len && down < self.len - self.offset {
            Some(self.offset + down)
        } else {
            None
        }
    }
}

/// A footer hint drawn at `rect` that acts like pressing `key`.
#[derive(Debug, Clone, Copy, PartialEq, Eq, Structural)]
pub struct FooterHit {
    pub rect: Rect,
    pub key: KeyEvent,
}

/// Everything clickable on the last frame.
#[derive(Debug, Clone, PartialEq, Eq)]
pub struct HitMap {
    pub library: Option<ListHit>,
    pub library_artists: Option<ListHit>,
    pub library_albums: Option<ListHit>,
    pub library_tracks: Option<ListHit>,
    pub queue: Option<ListHit>,
    pub overlay: Option<Rect>,
    pub overlay_list: Option<ListHit>,
    pub queue_toggle: Option<Rect>,
    pub library_pane: Option<Rect>,
    pub search_prompt: Option<Rect>,
    pub close: Option<Rect>,
    pub footer_hints: Vec<FooterHit>,
}

impl HitMap {
    /// Whether nothing is clickable: the state before the first frame.
    pub open spec fn is_blank(self) -> bool {
        &&& self.library is None
        &&& self.library_artists is None
        &&& self.library_albums is None
        &&& self.library_tracks is None
        &&& self.queue is None
        &&& self.overlay is None
        &&& self.overlay_list is None
        &&& self.queue_toggle is None
        &&& self.library_pane is None
        &&& self.search_prompt is None
        &&& self.close is None
        &&& self.footer_hints@.len() == 0
    }
}

impl Default for HitMap {
    fn default() -> (r: Self)
        ensures
            r.is_blank(),
    {
        HitMap {
            library: None,
            library_artists: None,
            library_albums: None,
            library_tracks: None,
            queue: None,
            overlay: None,
            overlay_list: None,
            queue_toggle: None,
            library_pane: None,
            search_prompt: None,
            close: None,
            footer_hints: Vec::new(),
        }
    }
}

/// A click maps to an item only when it lands inside the list, on a row that
/// holds one; the item is the row's distance below the top plus the offset.
pub proof fn clicks_map_to_shown_items(hit: ListHit, column: int, row: int)
    ensures
        row_at_of(hit, column, row) matches Some(i) ==> i < hit.len && hit.offset <= i
            && i == hit.offset + (row - hit.inner.y) && hit.inner.holds(column, row),
{
}

} // verus!
