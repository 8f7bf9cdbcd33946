//! The transport line: what is playing, how far in, and which of its parts
//! fit the width the terminal gives it.
//!
//! Every part is measured in characters. The symbol and the times are never
//! dropped; when space runs out the toggles go first, then the volume, then
//! the seek bar, then the subtitle.

use vstd::prelude::*;
use crate::text::{owned, push_char};

verus! {

#[derive(Debug, Clone, Copy, PartialEq, Eq, Structural)]
pub enum PlaybackStatus {
    Playing,
    Paused,
    Stopped,
}

#[derive(Debug, Clone, Copy, PartialEq, Eq, Structural)]
pub enum RepeatMode {
    Off,
    All,
    One,
}

pub open spec fn symbol_text(status: PlaybackStatus) -> Seq<char> {
    match status {
        PlaybackStatus::Playing => seq!['▶'],
        PlaybackStatus::Paused => seq!['❚', '❚'],
        PlaybackStatus::Stopped => seq!['■'],
    }
}

/// The symbol padded to two columns, so the title does not jump.
pub open spec fn marker_text(status: PlaybackStatus) -> Seq<char> {
    let s = symbol_text(status);
    if s.len() < 2 { s.push(' ') } else { s }
}

pub open spec fn repeat_text(mode: RepeatMode) -> Seq<char> {
    match mode {
        RepeatMode::Off => "repeat off"@,
        RepeatMode::All => "repeat all"@,
        RepeatMode::One => "repeat one"@,
    }
}

/// " repeat all  shuffle", " shuffle", " repeat one", or nothing when both are off.
pub open spec fn toggles_of(repeat: RepeatMode, shuffle: bool) -> Option<Seq<char>> {
    if repeat == RepeatMode::Off {
        if shuffle { Some(" shuffle"@) } else { None }
    } else if shuffle {
        Some(seq![' '] + repeat_text(repeat) + "  shuffle"@)
    } else {
        Some(seq![' '] + repeat_text(repeat))
    }
}

/// Symbol for the current transport state.
pub fn status_symbol(status: PlaybackStatus) -> (r: &'static str)
    ensures
        r@ == symbol_text(status),
{
    proof {
        reveal_strlit("▶");
        reveal_strlit("❚❚");
        reveal_strlit("■");
    }
    match status {
        PlaybackStatus::Playing => "▶",
        PlaybackStatus::Paused => "❚❚",
        PlaybackStatus::Stopped => "■",
    }
}

/// Play and pause glyphs are different widths; pad so the title does not jump.
pub fn status_marker(status: PlaybackStatus) -> (r: String)
    ensures
        r@ == marker_text(status),
        r@.len() == 2,
{
    let mut out = owned(status_symbol(status));
    if out.as_str().unicode_len() < 2 {
        push_char(&mut out, ' ');
    }
    out
}

/// Label for the repeat indicator in the status bar.
pub fn repeat_label(mode: RepeatMode) -> (r: &'static str)
    ensures
        r@ == repeat_text(mode),
{
    match mode {
        RepeatMode::Off => "repeat off",
        RepeatMode::All => "repeat all",
        RepeatMode::One => "repeat one",
    }
}

/// The repeat and shuffle indicators, each shown only when on.
pub fn toggles_text(repeat: RepeatMode, shuffle: bool) -> (r: Option<String>)
    ensures
        match r {
            Some(t) => toggles_of(repeat, shuffle) == Some(t@),
            None => toggles_of(repeat, shuffle) is None,
        },
{
    if repeat == RepeatMode::Off {
        if shuffle { Some(owned(" shuffle")) } else { None }
    } else {
        let mut out = String::new();
        push_char(&mut out, ' ');
        out.append(repeat_label(repeat));
        if shuffle {
            out.append("  shuffle");
        }
        Some(out)
    }
}

/// The sum of the known lengths.
pub open spec fn sum_known(durations: Seq<Option<u64>>) -> nat
    decreases durations.len(),
{
    if durations.len() == 0 {
        0
    } else {
        sum_known(durations.drop_last()) + match durations.last() {
            Some(d) => d as nat,
            None => 0,
        }
    }
}

/// The total length, when there is at least one entry and every length is known.
pub open spec fn total_of(durations: Seq<Option<u64>>) -> Option<nat> {
    if durations.len() == 0 || exists|j: int| 0 <= j < durations.len() && durations[j] is None {
        None
    } else {
        Some(sum_known(durations))
    }
}

proof fn lemma_sum_prefix(durations: Seq<Option<u64>>, k: int)
    requires
        0 <= k <= durations.len(),
    ensures
        sum_known(durations.take(k)) <= sum_known(durations),
    decreases durations.len() - k,
{
    if k < durations.len() {
        assert(durations.take(k + 1).drop_last() =~= durations.take(k));
        lemma_sum_prefix(durations, k + 1);
    } else {
        assert(durations.take(k) =~= durations);
    }
}

/// Total time of everything queued, in milliseconds, when every entry's
/// length is known.
pub fn total_duration(durations: &[Option<u64>]) -> (r: Option<u64>)
    requires
        total_of(durations@) matches Some(t) ==> t <= u64::MAX,
    ensures
        match r {
            Some(t) => total_of(durations@) == Some(t as nat),
            None => total_of(durations@) is None,
        },
{
    if durations.len() == 0 {
        return None;
    }
    let mut i: usize = 0;
    while i < durations.len()
        invariant
            i <= durations.len(),
            forall|j: int| 0 <= j < i ==> durations@[j] is Some,
        decreases durations.len() - i,
    {
        if durations[i].is_none() {
            return None;
        }
        i += 1;
    }
    let mut total: u64 = 0;
    let mut k: usize = 0;
    assert(durations@.take(0) =~= Seq::<Option<u64>>::empty());
    while k < durations.len()
        invariant
            0 < durations.len(),
            k <= durations.len(),
            forall|j: int| 0 <= j < durations.len() ==> durations@[j] is Some,
            total_of(durations@) matches Some(t) ==> t <= u64::MAX,
            total == sum_known(durations@.take(k as int)),
        decreases durations.len() - k,
    {
        proof {
            assert(durations@.take(k + 1).drop_last() =~= durations@.take(k as int));
            assert(durations@.take(k + 1).last() == durations@[k as int]);
            lemma_sum_prefix(durations@, k + 1);
        }
        match durations[k] {
            Some(d) => {
                total = total + d;
            },
            None => {},
        }
        k += 1;
    }
    assert(durations@.take(durations.len() as int) =~= durations@);
    Some(total)
}

/// The optional parts of a transport line that are drawn.
#[derive(Debug, Clone, Copy, PartialEq, Eq, Structural)]
pub struct Parts {
    pub subtitle: bool,
    pub seek: bool,
    pub volume: bool,
    pub toggles: bool,
}

pub open spec fn opt_len(len: Option<usize>) -> nat {
    match len {
        Some(n) => n as nat,
        None => 0,
    }
}

/// Width the chosen parts need beyond `fixed`: each part's own length, and
/// a space plus a four-column bar for the seek bar.
pub open spec fn parts_width(p: Parts, subtitle: Option<usize>, volume: Option<usize>, toggles: Option<usize>) -> nat {
    (if p.subtitle { opt_len(subtitle) } else { 0 }) + (if p.seek { 5nat } else { 0 })
        + (if p.volume { opt_len(volume) } else { 0 }) + (if p.toggles { opt_len(toggles) } else { 0 })
}

/// The parts kept for a line `width` wide: everything that exists, then
/// without toggles, without volume, without the seek bar, and finally without
/// the subtitle, taking the first that fits (or the last).
#[verifier::opaque]
pub open spec fn fitted_parts(width: nat, fixed: nat, subtitle: Option<usize>, volume: Option<usize>, toggles: Option<usize>) -> Parts {
    let c0 = Parts { subtitle: subtitle is Some, seek: true, volume: volume is Some, toggles: toggles is Some };
    let c1 = Parts { toggles: false, ..c0 };
    let c2 = Parts { volume: false, ..c1 };
    let c3 = Parts { seek: false, ..c2 };
    let c4 = Parts { subtitle: false, ..c3 };
    if fixed + parts_width(c0, subtitle, volume, toggles) <= width {
        c0
    } else if fixed + parts_width(c1, subtitle, volume, toggles) <= width {
        c1
    } else if fixed + parts_width(c2, subtitle, volume, toggles) <= width {
        c2
    } else if fixed + parts_width(c3, subtitle, volume, toggles) <= width {
        c3
    } else {
        c4
    }
}

pub open spec fn sat(a: int) -> nat {
    if a > 0 { a as nat } else { 0 }
}

pub open spec fn min_nat(a: nat, b: nat) -> nat {
    if a < b { a } else { b }
}

/// How a one-line transport is laid out.
#[derive(Debug, Clone, Copy, PartialEq, Eq, Structural)]
pub enum ChromeLine {
    /// Nothing fits.
    Empty,
    /// Only the symbol, cut to `width`.
    Symbol { width: usize },
    /// The symbol and the times, each cut to its width.
    SymbolTimes { symbol_width: usize, times_width: usize },
    /// Symbol, title cut to `title_width`, the subtitle when `subtitle`, a
    /// seek bar `seek_width` wide when that is not 0, the times, then volume
    /// and toggles when set.
    Full { title_width: usize, subtitle: bool, seek_width: usize, volume: bool, toggles: bool },
}

/// A transport layout with its widths as numbers.
pub enum ChromeShape {
    Empty,
    Symbol(nat),
    SymbolTimes(nat, nat),
    /// Title width, subtitle shown, seek bar width, volume shown, toggles shown.
    Full(nat, bool, nat, bool, bool),
}

pub open spec fn chrome_shape(c: ChromeLine) -> ChromeShape {
    match c {
        ChromeLine::Empty => ChromeShape::Empty,
        ChromeLine::Symbol { width } => ChromeShape::Symbol(width as nat),
        ChromeLine::SymbolTimes { symbol_width, times_width } => ChromeShape::SymbolTimes(symbol_width as nat, times_width as nat),
        ChromeLine::Full { title_width, subtitle, seek_width, volume, toggles } => ChromeShape::Full(
            title_width as nat,
            subtitle,
            seek_width as nat,
            volume,
            toggles,
        ),
    }
}

/// The seek bar width left in a middle section of `budget` columns beside
/// `reserved` columns of subtitle: at most 40.
pub open spec fn seek_width_of(seek: bool, budget: nat, reserved: nat) -> nat {
    if seek && budget > reserved + 1 { min_nat((budget - reserved - 1) as nat, 40) } else { 0 }
}

/// The columns the volume and toggles take when drawn.
pub open spec fn tail_of(p: Parts, volume: Option<usize>, toggles: Option<usize>) -> nat {
    (if p.volume { opt_len(volume) } else { 0 }) + (if p.toggles { opt_len(toggles) } else { 0 })
}

pub open spec fn seek_prefix(seek_width: nat) -> nat {
    if seek_width > 0 { 1 } else { 0 }
}

/// Place the title, then the subtitle and the seek bar in what is left of
/// a middle section `budget` columns wide.
pub open spec fn place_middle(p: Parts, sub_len: nat, budget: nat, seek_width: nat, title_len: nat) -> ChromeShape {
    let title_width = sat(budget - (sub_len + seek_prefix(seek_width) + seek_width));
    let after_title = sat(budget - min_nat(title_len, title_width));
    let show_subtitle = p.subtitle && sub_len <= after_title;
    let after_subtitle = if show_subtitle { sat(after_title - sub_len) } else { after_title };
    ChromeShape::Full(
        title_width,
        show_subtitle,
        if seek_width > 0 && after_subtitle >= seek_prefix(seek_width) + seek_width { seek_width } else { 0 },
        p.volume,
        p.toggles,
    )
}

pub open spec fn middle_budget(width: nat, fixed: nat, tail: nat) -> nat {
    sat(width - (fixed + tail))
}

pub open spec fn drawn_subtitle(p: Parts, subtitle: Option<usize>) -> nat {
    if p.subtitle { opt_len(subtitle) } else { 0 }
}

/// The full line once the symbol and the times fit, with `fixed` their
/// combined width.
pub open spec fn full_chrome_of(
    width: nat,
    fixed: nat,
    title_len: nat,
    subtitle: Option<usize>,
    volume: Option<usize>,
    toggles: Option<usize>,
) -> ChromeShape {
    full_chrome_with(fitted_parts(width, fixed, subtitle, volume, toggles), width, fixed, title_len, subtitle, volume, toggles)
}

pub open spec fn full_chrome_with(
    p: Parts,
    width: nat,
    fixed: nat,
    title_len: nat,
    subtitle: Option<usize>,
    volume: Option<usize>,
    toggles: Option<usize>,
) -> ChromeShape {
    full_chrome_at(p, middle_budget(width, fixed, tail_of(p, volume, toggles)), drawn_subtitle(p, subtitle), title_len)
}

pub open spec fn full_chrome_at(p: Parts, budget: nat, sub_len: nat, title_len: nat) -> ChromeShape {
    place_middle(p, sub_len, budget, seek_width_of(p.seek, budget, sub_len), title_len)
}

pub open spec fn chrome_of(
    width: nat,
    symbol_len: nat,
    times_len: nat,
    title_len: nat,
    subtitle: Option<usize>,
    volume: Option<usize>,
    toggles: Option<usize>,
) -> ChromeShape {
    if width == 0 {
        ChromeShape::Empty
    } else if width <= symbol_len {
        ChromeShape::Symbol(width)
    } else if width <= symbol_len + times_len {
        ChromeShape::SymbolTimes(min_nat(symbol_len, width), sat(width - symbol_len))
    } else {
        full_chrome_of(width, symbol_len + times_len, title_len, subtitle, volume, toggles)
    }
}

fn opt_exec(len: Option<usize>) -> (r: usize)
    ensures
        r == opt_len(len),
{
    match len {
        Some(n) => n,
        None => 0,
    }
}

/// Drop parts, in order, until the line fits.
fn fit_parts(width: usize, fixed: usize, subtitle: Option<usize>, volume: Option<usize>, toggles: Option<usize>) -> (r: Parts)
    requires
        fixed + opt_len(subtitle) + opt_len(volume) + opt_len(toggles) + 5 <= usize::MAX,
    ensures
        r == fitted_parts(width as nat, fixed as nat, subtitle, volume, toggles),
{
    reveal(fitted_parts);
    let mut p = Parts { subtitle: subtitle.is_some(), seek: true, volume: volume.is_some(), toggles: toggles.is_some() };
    let ghost c0 = p;
    let sub_len = opt_exec(subtitle);
    let vol_len = opt_exec(volume);
    let tog_len = opt_exec(toggles);
    let mut step: u8 = 0;
    while step < 4
        invariant
            step <= 4,
            sub_len == opt_len(subtitle),
            vol_len == opt_len(volume),
            tog_len == opt_len(toggles),
            fixed + opt_len(subtitle) + opt_len(volume) + opt_len(toggles) + 5 <= usize::MAX,
            c0 == (Parts { subtitle: subtitle is Some, seek: true, volume: volume is Some, toggles: toggles is Some }),
            step >= 1 ==> fixed + parts_width(c0, subtitle, volume, toggles) > width,
            step >= 2 ==> fixed + parts_width(Parts { toggles: false, ..c0 }, subtitle, volume, toggles) > width,
            step >= 3 ==> fixed + parts_width(Parts { toggles: false, volume: false, ..c0 }, subtitle, volume, toggles) > width,
            step >= 4 ==> fixed + parts_width(Parts { toggles: false, volume: false, seek: false, ..c0 }, subtitle, volume, toggles) > width,
            p == (if step == 0 {
                c0
            } else if step == 1 {
                Parts { toggles: false, ..c0 }
            } else if step == 2 {
                Parts { toggles: false, volume: false, ..c0 }
            } else if step == 3 {
                Parts { toggles: false, volume: false, seek: false, ..c0 }
            } else {
                Parts { toggles: false, volume: false, seek: false, subtitle: false, ..c0 }
            }),
        decreases 4 - step,
    {
        let need = fixed + (if p.subtitle { sub_len } else { 0 }) + (if p.seek { 5 } else { 0 })
            + (if p.volume { vol_len } else { 0 }) + (if p.toggles { tog_len } else { 0 });
        if need <= width {
            proof { reveal(fitted_parts); }
            return p;
        }
        if step == 0 {
            p.toggles = false;
        } else if step == 1 {
            p.volume = false;
        } else if step == 2 {
            p.seek = false;
        } else {
            p.subtitle = false;
        }
        step += 1;
    }
    p
}

fn place_middle_exec(p: Parts, sub_len: usize, budget: usize, seek_width: usize, title_len: usize) -> (r: ChromeLine)
    requires
        seek_width <= 40,
    ensures
        chrome_shape(r) == place_middle(p, sub_len as nat, budget as nat, seek_width as nat, title_len as nat),
{
    let prefix: usize = if seek_width > 0 { 1 } else { 0 };
    let title_width: usize = if sub_len < budget && budget - sub_len > prefix + seek_width {
        budget - sub_len - prefix - seek_width
    } else {
        0
    };
    let shown_title: usize = if title_len < title_width { title_len } else { title_width };
    let after_title: usize = if budget > shown_title { budget - shown_title } else { 0 };
    let show_subtitle = p.subtitle && sub_len <= after_title;
    let after_subtitle: usize = if show_subtitle { after_title - sub_len } else { after_title };
    let shown_seek: usize = if seek_width > 0 && after_subtitle >= prefix + seek_width { seek_width } else { 0 };
    ChromeLine::Full { title_width, subtitle: show_subtitle, seek_width: shown_seek, volume: p.volume, toggles: p.toggles }
}

fn full_chrome(
    width: usize,
    fixed: usize,
    title_len: usize,
    subtitle: Option<usize>,
    volume: Option<usize>,
    toggles: Option<usize>,
) -> (r: ChromeLine)
    requires
        fixed + title_len + opt_len(subtitle) + opt_len(volume) + opt_len(toggles) + 5 <= usize::MAX,
    ensures
        chrome_shape(r) == full_chrome_of(width as nat, fixed as nat, title_len as nat, subtitle, volume, toggles),
{
    let p = fit_parts(width, fixed, subtitle, volume, toggles);
    let vol_len = opt_exec(volume);
    let tog_len = opt_exec(toggles);
    let tail: usize = (if p.volume { vol_len } else { 0 }) + (if p.toggles { tog_len } else { 0 });
    let budget: usize = if width > fixed + tail { width - (fixed + tail) } else { 0 };
    let sub_len: usize = if p.subtitle { opt_exec(subtitle) } else { 0 };
    let seek_width: usize = if p.seek && budget > sub_len + 1 {
        let room = budget - sub_len - 1;
        if room < 40 { room } else { 40 }
    } else {
        0
    };
    assert(tail as nat == tail_of(p, volume, toggles));
    assert(budget as nat == middle_budget(width as nat, fixed as nat, tail_of(p, volume, toggles)));
    assert(sub_len as nat == drawn_subtitle(p, subtitle));
    assert(seek_width as nat == seek_width_of(p.seek, budget as nat, sub_len as nat));
    place_middle_exec(p, sub_len, budget, seek_width, title_len)
}

/// Lay out the one-line transport: symbol, title, subtitle, seek bar,
/// times, volume and toggles, in `width` columns.
pub fn chrome_layout(
    width: usize,
    symbol_len: usize,
    times_len: usize,
    title_len: usize,
    subtitle: Option<usize>,
    volume: Option<usize>,
    toggles: Option<usize>,
) -> (r: ChromeLine)
    requires
        symbol_len + times_len + title_len + opt_len(subtitle) + opt_len(volume) + opt_len(toggles) + 5 <= usize::MAX,
    ensures
        chrome_shape(r) == chrome_of(width as nat, symbol_len as nat, times_len as nat, title_len as nat, subtitle, volume, toggles),
{
    if width == 0 {
        return ChromeLine::Empty;
    }
    if width <= symbol_len {
        return ChromeLine::Symbol { width };
    }
    if width <= symbol_len + times_len {
        return ChromeLine::SymbolTimes {
            symbol_width: if symbol_len < width { symbol_len } else { width },
            times_width: width - symbol_len,
        };
    }
    full_chrome(width, symbol_len + times_len, title_len, subtitle, volume, toggles)
}

/// How the seek row of the stacked transport is laid out.
#[derive(Debug, Clone, Copy, PartialEq, Eq, Structural)]
pub enum SeekRow {
    Empty,
    /// A seek bar `seek_width` wide when that is not 0, the times, then the
    /// volume and the toggles when set.
    Parts { seek_width: usize, volume: bool, toggles: bool },
}

/// A seek row with its bar width as a number: `None` when empty.
pub open spec fn seek_shape(r: SeekRow) -> Option<(nat, bool, bool)> {
    match r {
        SeekRow::Empty => None,
        SeekRow::Parts { seek_width, volume, toggles } => Some((seek_width as nat, volume, toggles)),
    }
}

pub open spec fn seek_row_of(width: nat, times_len: nat, volume: Option<usize>, toggles: Option<usize>) -> Option<(nat, bool, bool)> {
    if width == 0 {
        None
    } else {
        let p = fitted_parts(width, times_len, None, volume, toggles);
        let tail = (if p.volume { opt_len(volume) } else { 0 }) + (if p.toggles { opt_len(toggles) } else { 0 });
        let budget = sat(width - (times_len + tail));
        Some((seek_width_of(p.seek, budget, 0), p.volume, p.toggles))
    }
}

/// Lay out the seek row: seek bar, times, volume, toggles.
pub fn seek_row_layout(width: usize, times_len: usize, volume: Option<usize>, toggles: Option<usize>) -> (r: SeekRow)
    requires
        times_len + opt_len(volume) + opt_len(toggles) + 5 <= usize::MAX,
    ensures
        seek_shape(r) == seek_row_of(width as nat, times_len as nat, volume, toggles),
{
    if width == 0 {
        return SeekRow::Empty;
    }
    let p = fit_parts(width, times_len, None, volume, toggles);
    let tail = (if p.volume { opt_exec(volume) } else { 0 }) + (if p.toggles { opt_exec(toggles) } else { 0 });
    let budget: usize = if width > times_len + tail { width - (times_len + tail) } else { 0 };
    let seek_width: usize = if p.seek && budget > 1 {
        let room = budget - 1;
        if room < 40 { room } else { 40 }
    } else {
        0
    };
    SeekRow::Parts { seek_width, volume: p.volume, toggles: p.toggles }
}

/// The title row of the stacked transport: the symbol cut to the width when
/// that is all there is room for, otherwise the title gets the rest.
pub fn title_row_width(width: usize, symbol_len: usize) -> (r: Option<usize>)
    ensures
        r == (if width <= symbol_len { None } else { Some((width - symbol_len) as usize) }),
{
    if width <= symbol_len { None } else { Some(width - symbol_len) }
}

/// Whether the bit-perfect badge fits after `used` columns: it needs two
/// columns of gap, and is never shown while stopped.
pub fn badge_fits(status: PlaybackStatus, used: usize, badge_len: usize, width: usize) -> (r: bool)
    ensures
        r == (status != PlaybackStatus::Stopped && used + badge_len + 2 <= width),
{
    if status == PlaybackStatus::Stopped {
        return false;
    }
    if used > width || badge_len > width - used || width - used - badge_len < 2 {
        false
    } else {
        true
    }
}

} // verus!
