//! Cursor position for the list panes.
//!
//! Kept apart from drawing so the movement rules can be checked without a
//! terminal. Lists change under the cursor (a scan finishes, a queue entry is
//! removed), so the length is passed in on every call rather than stored.

use vstd::prelude::*;
use vstd::arithmetic::div_mod::{lemma_add_mod_noop, lemma_mod_bound, lemma_sub_mod_noop_right};

verus! {

/// The row a raw index stands for in a list of `len` rows.
pub open spec fn clamped(index: int, len: int) -> int {
    if index < len - 1 { index } else { len - 1 }
}

/// Where stepping by `delta` lands: wrapping at both ends.
pub open spec fn wrapped_step(index: int, delta: int, len: int) -> int {
    (clamped(index, len) + delta) % len
}

/// Where paging by `delta` lands: stopping at both ends.
pub open spec fn paged(index: int, delta: int, len: int) -> int {
    let target = clamped(index, len) + delta;
    if target < 0 {
        0
    } else if target > len - 1 {
        len - 1
    } else {
        target
    }
}

/// What `selected` reports for a raw index and a list length.
pub open spec fn selection(index: int, len: int) -> Option<int> {
    if len == 0 {
        None
    } else {
        Some(clamped(index, len))
    }
}

/// Stepping back by as many rows as a step went forward puts the cursor on
/// the row it started from, however far the step wrapped.
pub proof fn a_step_back_undoes_a_step(index: nat, delta: int, len: int)
    requires
        len > 0,
    ensures
        wrapped_step(wrapped_step(index as int, delta, len), -delta, len) == clamped(index as int, len),
{
    let c = clamped(index as int, len);
    lemma_mod_bound(c + delta, len);
    vstd::arithmetic::div_mod::lemma_add_mod_noop_right(-delta, c + delta, len);
    vstd::arithmetic::div_mod::lemma_small_mod(c as nat, len as nat);
}

/// Every move lands on a row of a non-empty list: steps wrap and pages
/// stop at the ends, so the cursor never points past either end.
pub proof fn moves_stay_on_the_list(index: nat, delta: int, len: int)
    requires
        len > 0,
    ensures
        0 <= wrapped_step(index as int, delta, len) < len,
        0 <= paged(index as int, delta, len) < len,
        selection(index as int, len) matches Some(i) && 0 <= i < len,
{
    lemma_mod_bound(clamped(index as int, len) + delta, len);
}

#[derive(Debug, Default, Clone, Copy)]
pub struct Cursor {
    index: usize,
}

impl View for Cursor {
    type V = nat;

    /// The raw index the cursor holds.
    closed spec fn view(&self) -> nat {
        self.index as nat
    }
}

impl Cursor {
    pub fn new() -> (c: Self)
        ensures
            c@ == 0,
    {
        Cursor { index: 0 }
    }

    /// Where the cursor sits, or `None` when the list is empty.
    pub fn selected(&self, len: usize) -> (r: Option<usize>)
        ensures
            r == (match selection(self@ as int, len as int) {
                Some(i) => Some(i as usize),
                None => None::<usize>,
            }),
            r matches Some(i) ==> i < len && selection(self@ as int, len as int) == Some(i as int),
            r is None ==> selection(self@ as int, len as int) is None,
    {
        if len == 0 {
            None
        } else if self.index < len - 1 {
            Some(self.index)
        } else {
            Some(len - 1)
        }
    }

    /// Raw index, for handing to the list widget.
    pub fn index(&self) -> (r: usize)
        ensures
            r == self@,
    {
        self.index
    }

    /// Step by one or more rows, wrapping at both ends.
    ///
    /// Wrapping means holding `j` on a short list keeps cycling instead of
    /// silently stopping, which reads as a frozen UI.
    pub fn step(&mut self, delta: isize, len: usize)
        ensures
            len == 0 ==> final(self)@ == 0,
            len > 0 ==> final(self)@ == wrapped_step(old(self)@ as int, delta as int, len as int),
            len > 0 ==> final(self)@ < len,
    {
        if len == 0 {
            self.index = 0;
            return;
        }
        let current: usize = if self.index < len - 1 { self.index } else { len - 1 };
        let ghost cur = current as int;
        let ghost n = len as int;
        let ghost d = delta as int;
        if delta >= 0 {
            let forward: usize = (delta as usize) % len;
            proof {
                lemma_mod_bound(d, n);
                vstd::arithmetic::div_mod::lemma_small_mod(cur as nat, n as nat);
                lemma_add_mod_noop(cur, d, n);
            }
            if forward >= len - current {
                let next: usize = forward - (len - current);
                proof {
                    let f = forward as int;
                    vstd::arithmetic::div_mod::lemma_small_mod(next as nat, n as nat);
                    vstd::arithmetic::div_mod::lemma_mod_add_multiples_vanish(next as int, n);
                    assert(cur + f == next + n);
                    vstd::arithmetic::div_mod::lemma_mod_twice(d, n);
                    lemma_add_mod_noop(cur, f, n);
                }
                self.index = next;
            } else {
                let next: usize = current + forward;
                proof {
                    vstd::arithmetic::div_mod::lemma_small_mod(next as nat, n as nat);
                    vstd::arithmetic::div_mod::lemma_mod_twice(d, n);
                    lemma_add_mod_noop(cur, forward as int, n);
                }
                self.index = next;
            }
        } else {
            let magnitude: usize = ((0 - (delta + 1)) as usize) + 1;
            let back: usize = magnitude % len;
            let next: usize = if back <= current { current - back } else { current + (len - back) };
            proof {
                let m = magnitude as int;
                assert(m == -d);
                lemma_mod_bound(m, n);
                vstd::arithmetic::div_mod::lemma_fundamental_div_mod(m, n);
                let k = m / n;
                assert(m == n * k + m % n);
                if back <= current {
                    assert(next as int == (cur + d) + n * k);
                    vstd::arithmetic::div_mod::lemma_mod_multiples_vanish(k, cur + d, n);
                } else {
                    assert(next as int == (cur + d) + n * (k + 1)) by (nonlinear_arith)
                        requires
                            next as int == cur + (n - m % n),
                            m == n * k + m % n,
                            d == -m,
                    ;
                    vstd::arithmetic::div_mod::lemma_mod_multiples_vanish(k + 1, cur + d, n);
                }
                vstd::arithmetic::div_mod::lemma_small_mod(next as nat, n as nat);
            }
            self.index = next;
        }
    }

    /// Jump a screenful, stopping at the ends instead of wrapping.
    pub fn page(&mut self, delta: isize, len: usize)
        ensures
            len == 0 ==> final(self)@ == 0,
            len > 0 ==> final(self)@ == paged(old(self)@ as int, delta as int, len as int),
            len > 0 ==> final(self)@ < len,
    {
        if len == 0 {
            self.index = 0;
            return;
        }
        let current: usize = if self.index < len - 1 { self.index } else { len - 1 };
        if delta >= 0 {
            let forward = delta as usize;
            if forward > len - 1 - current {
                self.index = len - 1;
            } else {
                self.index = current + forward;
            }
        } else {
            let magnitude: usize = ((0 - (delta + 1)) as usize) + 1;
            if magnitude > current {
                self.index = 0;
            } else {
                self.index = current - magnitude;
            }
        }
    }

    pub fn first(&mut self)
        ensures
            final(self)@ == 0,
    {
        self.index = 0;
    }

    pub fn last(&mut self, len: usize)
        ensures
            final(self)@ == if len == 0 { 0 } else { len - 1 },
    {
        self.index = if len == 0 { 0 } else { len - 1 };
    }

    /// Put the cursor on a specific row, for example the playing track.
    pub fn set(&mut self, index: usize, len: usize)
        ensures
            final(self)@ == if len == 0 { 0 } else { clamped(index as int, len as int) },
    {
        self.index = if len == 0 {
            0
        } else if index < len - 1 {
            index
        } else {
            len - 1
        };
    }

    /// Keep the cursor inside a list that just got shorter.
    pub fn clamp(&mut self, len: usize)
        ensures
            final(self)@ == if len == 0 { 0 } else { clamped(old(self)@ as int, len as int) },
    {
        self.index = if len == 0 {
            0
        } else if self.index < len - 1 {
            self.index
        } else {
            len - 1
        };
    }
}

} // verus!
