//! Screen geometry: the queue drawer as an overlay or a full-width sheet, the
//! library strip it leaves open, and where toasts sit.

use vstd::prelude::*;
use crate::text::char_count;

verus! {

/// A rectangle of terminal cells.
#[derive(Debug, Default, Clone, Copy, PartialEq, Eq, Structural)]
pub struct Rect {
    pub x: u16,
    pub y: u16,
    pub width: u16,
    pub height: u16,
}

impl Rect {
    /// A rectangle, with width and height cut so it does not run past the
    /// last cell column and row.
    pub fn new(x: u16, y: u16, width: u16, height: u16) -> (r: Self)
        ensures
            r.x == x,
            r.y == y,
            r.width == if x + width <= u16::MAX { width as int } else { u16::MAX - x },
            r.height == if y + height <= u16::MAX { height as int } else { u16::MAX - y },
    {
        let width = if width <= u16::MAX - x { width } else { u16::MAX - x };
        let height = if height <= u16::MAX - y { height } else { u16::MAX - y };
        Rect { x, y, width, height }
    }

    pub open spec fn holds(self, column: int, row: int) -> bool {
        self.x <= column < self.x + self.width && self.y <= row < self.y + self.height
    }

    /// Whether the cell at `column`, `row` lies inside.
    pub fn contains(self, column: u16, row: u16) -> (r: bool)
        ensures
            r == self.holds(column as int, row as int),
    {
        column >= self.x && column - self.x < self.width && row >= self.y && row - self.y < self.height
    }

    /// One past the last column, saturating at the screen edge.
    pub fn right(self) -> (r: u16)
        ensures
            r == if self.x + self.width <= u16::MAX { self.x + self.width } else { u16::MAX as int },
    {
        if self.width <= u16::MAX - self.x { self.x + self.width } else { u16::MAX }
    }

    /// One past the last row, saturating at the screen edge.
    pub fn bottom(self) -> (r: u16)
        ensures
            r == if self.y + self.height <= u16::MAX { self.y + self.height } else { u16::MAX as int },
    {
        if self.height <= u16::MAX - self.y { self.y + self.height } else { u16::MAX }
    }

    /// Whether the rectangle lies wholly on the screen.
    pub open spec fn on_screen(self) -> bool {
        self.x + self.width <= u16::MAX && self.y + self.height <= u16::MAX
    }
}

/// Width of the queue drawer when it overlays the library.
pub const DRAWER_WIDTH: u16 = 41;
/// Narrowest library strip worth leaving beside the drawer.
pub const MIN_STRIP: u16 = 40;
/// Narrowest strip interior that still gets three browse columns.
pub const COLUMNS_MIN_INNER: usize = 60;

#[derive(Debug, Clone, Copy, PartialEq, Eq, Structural)]
pub enum Drawer {
    Closed,
    Overlay(Rect),
    Sheet(Rect),
}

pub open spec fn drawer_of(list: Rect, open: bool) -> Drawer {
    if !open {
        Drawer::Closed
    } else if list.width <= DRAWER_WIDTH + MIN_STRIP {
        Drawer::Sheet(list)
    } else {
        Drawer::Overlay(Rect {
            x: (list.x + list.width - DRAWER_WIDTH) as u16,
            y: list.y,
            width: DRAWER_WIDTH,
            height: list.height,
        })
    }
}

/// Where the queue drawer goes, if it is open.
pub fn drawer(list: Rect, open: bool) -> (r: Drawer)
    requires
        list.on_screen(),
    ensures
        r == drawer_of(list, open),
{
    if !open {
        return Drawer::Closed;
    }
    if list.width <= DRAWER_WIDTH + MIN_STRIP {
        Drawer::Sheet(list)
    } else {
        Drawer::Overlay(Rect {
            x: list.x + list.width - DRAWER_WIDTH,
            y: list.y,
            width: DRAWER_WIDTH,
            height: list.height,
        })
    }
}

pub open spec fn strip_width_of(list: Rect, open: bool) -> u16 {
    if open && list.width > DRAWER_WIDTH + MIN_STRIP {
        (list.width - DRAWER_WIDTH) as u16
    } else {
        list.width
    }
}

/// Columns of the library left visible beside the drawer.
pub fn strip_width(list: Rect, open: bool) -> (r: u16)
    requires
        list.on_screen(),
    ensures
        r == strip_width_of(list, open),
{
    match drawer(list, open) {
        Drawer::Closed | Drawer::Sheet(_) => list.width,
        Drawer::Overlay(rect) => list.width - rect.width,
    }
}

pub open spec fn strip_inner_of(list: Rect, open: bool) -> usize {
    if open && list.width > DRAWER_WIDTH + MIN_STRIP {
        (list.width - DRAWER_WIDTH - 1) as usize
    } else if list.width >= 2 {
        (list.width - 2) as usize
    } else {
        0
    }
}

/// Characters that fit inside the visible library: past the left border, and
/// past the right border unless the drawer covers it.
pub fn strip_inner(list: Rect, open: bool) -> (r: usize)
    requires
        list.on_screen(),
    ensures
        r == strip_inner_of(list, open),
{
    match drawer(list, open) {
        Drawer::Overlay(_) => (strip_width(list, true) - 1) as usize,
        _ => if list.width >= 2 { (list.width - 2) as usize } else { 0 },
    }
}

pub open spec fn sheet(list_width: u16, open: bool) -> bool {
    open && list_width <= DRAWER_WIDTH + MIN_STRIP
}

/// Whether an open drawer covers the whole list.
pub fn is_sheet(list_width: u16, open: bool) -> (r: bool)
    ensures
        r == sheet(list_width, open),
{
    open && list_width <= DRAWER_WIDTH + MIN_STRIP
}

/// Whether the browse strip is wide enough for three columns.
pub fn columns_usable(strip_inner: usize) -> (r: bool)
    ensures
        r == (strip_inner >= COLUMNS_MIN_INNER),
{
    strip_inner >= COLUMNS_MIN_INNER
}

/// Height of one boxed toast, including its own border.
pub const TOAST_BOX_HEIGHT: u16 = 3;
/// Gap from the pane border, so the toast does not sit on the line.
pub const TOAST_INSET: u16 = 1;
/// Mark plus the space after it (`× message`).
pub const TOAST_MARK_AND_SPACE: u16 = 2;
/// Left and right border of a boxed toast.
pub const TOAST_BORDERS: u16 = 2;
/// Narrowest list that still gets a boxed toast.
pub const TOAST_BOX_MIN_WIDTH: u16 = 12;

pub open spec fn boxed_toasts(list: Rect) -> bool {
    list.height >= TOAST_BOX_HEIGHT + TOAST_INSET * 2 && list.width >= TOAST_BOX_MIN_WIDTH
}

/// A 3-row bordered box when the list can hold it; otherwise a 1-row line.
pub fn toast_boxed(list: Rect) -> (r: bool)
    ensures
        r == boxed_toasts(list),
{
    list.height >= TOAST_BOX_HEIGHT + TOAST_INSET * 2 && list.width >= TOAST_BOX_MIN_WIDTH
}

/// Columns a toast needs for a text of `chars` characters; kept to the low
/// sixteen bits, as a cell count is.
pub open spec fn toast_width_of(chars: nat, boxed: bool) -> u16 {
    let wanted: int = chars + TOAST_MARK_AND_SPACE + if boxed { TOAST_BORDERS as int } else { 0 };
    let capped: int = if wanted > usize::MAX { usize::MAX as int } else { wanted };
    (if capped == 0 { 1 } else { capped }) as u16
}

/// Columns needed to draw a toast without cutting `text`.
///
/// `boxed` is the 3-row bordered box used when the list is large enough.
pub fn toast_width_for(text: &str, boxed: bool) -> (r: u16)
    ensures
        r == toast_width_of(text@.len(), boxed),
{
    let borders: usize = if boxed { 2 } else { 0 };
    let count = char_count(text);
    let with_mark: usize = if count <= usize::MAX - 2 { count + 2 } else { usize::MAX };
    let wanted: usize = if with_mark <= usize::MAX - borders { with_mark + borders } else { usize::MAX };
    let at_least_one: usize = if wanted == 0 { 1 } else { wanted };
    #[verifier::truncate]
    (at_least_one as u16)
}

/// The `i`-th toast box from the bottom, if it still fits in the list.
pub open spec fn toast_area_at(list: Rect, count: u16, line_width: u16, i: int) -> Option<Rect> {
    let boxed = boxed_toasts(list);
    let inset: int = if boxed { TOAST_INSET as int } else { 0 };
    let height: int = if boxed { TOAST_BOX_HEIGHT as int } else { 1 };
    let room: int = if list.width >= 2 * inset { list.width - 2 * inset } else { 0 };
    let narrowed: int = if line_width < room { line_width as int } else { room };
    let width: int = if narrowed < 1 { 1 } else { narrowed };
    let free: int = if list.width >= width { list.width - width } else { 0 };
    let x: int = list.x + (if free >= inset { free - inset } else { 0 });
    let stacked: int = height * (i + 1);
    let base: int = list.y + list.height - inset;
    let y: int = if base >= stacked { base - stacked } else { 0 };
    if y < list.y {
        None
    } else {
        Some(Rect { x: x as u16, y: y as u16, width: width as u16, height: height as u16 })
    }
}

/// Once a box no longer fits, no box stacked above it fits either.
proof fn lemma_toast_misses_stay_missed(list: Rect, count: u16, line_width: u16, k: int, j: int)
    requires
        0 <= k < j,
        toast_area_at(list, count, line_width, k) is None,
    ensures
        toast_area_at(list, count, line_width, j) is None,
{
    let boxed = boxed_toasts(list);
    let height: int = if boxed { TOAST_BOX_HEIGHT as int } else { 1 };
    assert(height * (k + 1) <= height * (j + 1)) by (nonlinear_arith)
        requires
            0 <= k < j,
            height >= 1,
    ;
}

/// Bottom-right boxes for up to three toasts, inset from the pane border.
///
/// Box `i` is the `i`-th from the bottom; the boxes that would poke above the
/// list are left out.
pub fn toast_areas(list: Rect, count: u16, line_width: u16) -> (r: Vec<Rect>)
    requires
        list.on_screen(),
    ensures
        r@.len() <= (if count < 3 { count as int } else { 3 }),
        (count == 0 || list.width == 0 || list.height == 0) ==> r@.len() == 0,
        forall|k: int| 0 <= k < r@.len() ==> toast_area_at(list, count, line_width, k) == Some(#[trigger] r@[k]),
        !(count == 0 || list.width == 0 || list.height == 0) ==> forall|k: int|
            r@.len() <= k < (if count < 3 { count as int } else { 3 }) ==> (#[trigger] toast_area_at(list, count, line_width, k)) is None,
{
    let n = if count < 3 { count } else { 3 };
    let mut out: Vec<Rect> = Vec::new();
    if n == 0 || list.width == 0 || list.height == 0 {
        return out;
    }
    let boxed = toast_boxed(list);
    let inset: u16 = if boxed { TOAST_INSET } else { 0 };
    let height: u16 = if boxed { TOAST_BOX_HEIGHT } else { 1 };
    let room: u16 = if list.width >= 2 * inset { list.width - 2 * inset } else { 0 };
    let narrowed: u16 = if line_width < room { line_width } else { room };
    let width: u16 = if narrowed < 1 { 1 } else { narrowed };
    let free: u16 = if list.width >= width { list.width - width } else { 0 };
    let x: u16 = list.x + (if free >= inset { free - inset } else { 0 });
    let base: u16 = list.y + list.height - inset;
    let mut i: u16 = 0;
    while i < n
        invariant
            n <= 3,
            n == (if count < 3 { count } else { 3u16 }),
            i <= n,
            out@.len() <= i,
            forall|k: int| 0 <= k < out@.len() ==> toast_area_at(list, count, line_width, k) == Some(#[trigger] out@[k]),
            forall|k: int| out@.len() <= k < i ==> (#[trigger] toast_area_at(list, count, line_width, k)) is None,
            boxed == boxed_toasts(list),
            inset == (if boxed { TOAST_INSET } else { 0u16 }),
            height == (if boxed { TOAST_BOX_HEIGHT } else { 1u16 }),
            room == (if list.width >= 2 * inset { (list.width - 2 * inset) as u16 } else { 0u16 }),
            narrowed == (if line_width < room { line_width } else { room }),
            width == (if narrowed < 1 { 1u16 } else { narrowed }),
            free == (if list.width >= width { (list.width - width) as u16 } else { 0u16 }),
            x == list.x + (if free >= inset { free - inset } else { 0 }),
            base == list.y + list.height - inset,
            list.on_screen(),
            list.height >= 1,
        decreases n - i,
    {
        let stacked: u16 = height * (i + 1);
        let y: u16 = if base >= stacked { base - stacked } else { 0 };
        if y >= list.y {
            proof {
                assert(toast_area_at(list, count, line_width, i as int) == Some(Rect { x, y, width, height }));
                if out@.len() < i {
                    lemma_toast_misses_stay_missed(list, count, line_width, out@.len() as int, i as int);
                }
            }
            out.push(Rect { x, y, width, height });
        } else {
            assert(toast_area_at(list, count, line_width, i as int) is None);
        }
        i += 1;
    }
    out
}

// ---- overlays ----

pub open spec fn min_u16(a: u16, b: u16) -> u16 {
    if a < b { a } else { b }
}

/// A box `width` by `height`, cut to `area` and centred in it.
pub open spec fn centered_of(area: Rect, width: u16, height: u16) -> Rect {
    let w = min_u16(width, area.width);
    let h = min_u16(height, area.height);
    Rect { x: (area.x + (area.width - w) / 2) as u16, y: (area.y + (area.height - h) / 2) as u16, width: w, height: h }
}

/// A box centred in `area`; never larger than `area`.
pub fn centered_box(area: Rect, width: u16, height: u16) -> (r: Rect)
    requires
        area.on_screen(),
    ensures
        r == centered_of(area, width, height),
{
    let w = if width < area.width { width } else { area.width };
    let h = if height < area.height { height } else { area.height };
    Rect { x: area.x + (area.width - w) / 2, y: area.y + (area.height - h) / 2, width: w, height: h }
}

/// The share of `n` that is `percent` of it, rounded down.
pub open spec fn share(n: u16, percent: nat) -> nat {
    (n * percent / 100) as nat
}

/// The size of a list overlay for a screen `area`: seventy percent of it
/// each way, at least forty columns by eight rows, never more than the screen.
pub open spec fn overlay_size(area: Rect) -> (u16, u16) {
    let w = if share(area.width, 70) < 40 { 40 } else { share(area.width, 70) };
    let h = if share(area.height, 70) < 8 { 8 } else { share(area.height, 70) };
    (if w < area.width { w as u16 } else { area.width }, if h < area.height { h as u16 } else { area.height })
}

/// Where a list overlay (devices, playlists, radio) is drawn.
pub fn overlay_box(area: Rect) -> (r: Rect)
    requires
        area.on_screen(),
    ensures
        r == centered_of(area, overlay_size(area).0, overlay_size(area).1),
{
    let seventy_w: u32 = (area.width as u32) * 70 / 100;
    let seventy_h: u32 = (area.height as u32) * 70 / 100;
    let w: u32 = if seventy_w < 40 { 40 } else { seventy_w };
    let h: u32 = if seventy_h < 8 { 8 } else { seventy_h };
    let width: u16 = if w < area.width as u32 { w as u16 } else { area.width };
    let height: u16 = if h < area.height as u32 { h as u16 } else { area.height };
    centered_box(area, width, height)
}

/// An overlay never leaves the screen area it is drawn over.
pub proof fn a_centred_box_stays_inside(area: Rect, width: u16, height: u16)
    requires
        area.on_screen(),
    ensures
        centered_of(area, width, height).x >= area.x,
        centered_of(area, width, height).y >= area.y,
        centered_of(area, width, height).x + centered_of(area, width, height).width <= area.x + area.width,
        centered_of(area, width, height).y + centered_of(area, width, height).height <= area.y + area.height,
        centered_of(area, width, height).width <= width,
        centered_of(area, width, height).height <= height,
{
}

} // verus!
