//! Lock files of the shared player process.
//!
//! `player.lock` holds the process id of the player that took it, on its
//! first line. Reading the file and asking the system whether that process
//! lives are left to the frontend; what the file says, and which stale files
//! to remove, is decided here.

use vstd::prelude::*;
use crate::text::{chars_of, trim_chars, trimmed};

verus! {

/// The text before the first line feed.
pub open spec fn first_line(s: Seq<char>) -> Seq<char>
    decreases s.len(),
{
    if s.len() == 0 {
        s
    } else if s[0] == '\n' {
        Seq::empty()
    } else {
        seq![s[0]] + first_line(s.drop_first())
    }
}

pub open spec fn is_digit(c: char) -> bool {
    '0' <= c && c <= '9'
}

pub open spec fn digit_value(c: char) -> nat {
    (c as u32 - '0' as u32) as nat
}

/// The number the decimal digits `s` spell.
pub open spec fn digits_value(s: Seq<char>) -> nat
    decreases s.len(),
{
    if s.len() == 0 {
        0
    } else {
        digits_value(s.drop_last()) * 10 + digit_value(s.last())
    }
}

/// `s` without a leading `+`.
pub open spec fn unsigned_body(s: Seq<char>) -> Seq<char> {
    if s.len() > 0 && s[0] == '+' { s.drop_first() } else { s }
}

pub open spec fn all_digits(s: Seq<char>) -> bool {
    forall|i: int| 0 <= i < s.len() ==> is_digit(#[trigger] s[i])
}

/// One or more decimal digits whose value fits a `u32`.
pub open spec fn parse_digits(body: Seq<char>) -> Option<u32> {
    if body.len() == 0 || !all_digits(body) || digits_value(body) > u32::MAX {
        None
    } else {
        Some(digits_value(body) as u32)
    }
}

/// `s` read as a `u32` the way `str::parse` reads one: an optional `+`,
/// then one or more decimal digits, with a value that fits.
pub open spec fn parse_u32(s: Seq<char>) -> Option<u32> {
    parse_digits(unsigned_body(s))
}

/// The process id a lock file's text names: its first line, trimmed.
pub open spec fn holder_pid_of(text: Seq<char>) -> Option<u32> {
    if text.len() == 0 { None } else { parse_u32(trimmed(first_line(text))) }
}

proof fn lemma_digits_grow(s: Seq<char>, k: int)
    requires
        0 <= k <= s.len(),
        forall|i: int| 0 <= i < s.len() ==> is_digit(#[trigger] s[i]),
    ensures
        digits_value(s.take(k)) <= digits_value(s),
    decreases s.len() - k,
{
    if k < s.len() {
        assert(s.take(k + 1).drop_last() =~= s.take(k));
        lemma_digits_grow(s, k + 1);
    } else {
        assert(s.take(k) =~= s);
    }
}

/// Read a decimal `u32`, as `str::parse::<u32>` does.
pub fn parse_u32_chars(s: &[char]) -> (r: Option<u32>)
    ensures
        r == parse_u32(s@),
{
    let start: usize = if s.len() > 0 && s[0] == '+' { 1 } else { 0 };
    let ghost body = unsigned_body(s@);
    assert(body =~= s@.skip(start as int));
    if start >= s.len() {
        return None;
    }
    let mut value: u64 = 0;
    let mut i: usize = start;
    assert(body.take(0) =~= Seq::<char>::empty());
    while i < s.len()
        invariant
            start <= i <= s.len(),
            body == s@.skip(start as int),
            body == unsigned_body(s@),
            body.len() > 0,
            forall|j: int| 0 <= j < i - start ==> is_digit(#[trigger] body[j]),
            value == digits_value(body.take(i - start)),
            value <= u32::MAX,
        decreases s.len() - i,
    {
        let c = s[i];
        if !('0' <= c && c <= '9') {
            assert(!is_digit(body[i - start]));
            assert(!all_digits(body));
            return None;
        }
        proof {
            assert(body.take(i - start + 1).drop_last() =~= body.take(i - start));
            assert(body.take(i - start + 1).last() == c);
        }
        let d = (c as u32 - '0' as u32) as u64;
        value = value * 10 + d;
        if value > 0xFFFF_FFFF {
            proof {
                if all_digits(body) {
                    lemma_digits_grow(body, i - start + 1);
                    assert(digits_value(body) > u32::MAX);
                }
            }
            return None;
        }
        i += 1;
    }
    assert(body.take(i - start) =~= body);
    Some(value as u32)
}


/// The text before the first line feed.
fn first_line_chars(s: &[char]) -> (r: Vec<char>)
    ensures
        r@ == first_line(s@),
{
    let mut out: Vec<char> = Vec::new();
    let mut i: usize = 0;
    assert(s@.skip(0) =~= s@);
    assert(out@ + first_line(s@) =~= first_line(s@));
    while i < s.len()
        invariant
            i <= s.len(),
            first_line(s@) == out@ + first_line(s@.skip(i as int)),
        decreases s.len() - i,
    {
        assert(s@.skip(i as int).drop_first() =~= s@.skip(i + 1));
        if s[i] == '\n' {
            assert(first_line(s@.skip(i as int)) =~= Seq::<char>::empty());
            assert(out@ + Seq::<char>::empty() =~= out@);
            return out;
        }
        out.push(s[i]);
        assert(first_line(s@) =~= out@ + first_line(s@.skip(i + 1)));
        i += 1;
    }
    assert(first_line(s@.skip(i as int)) =~= Seq::<char>::empty());
    assert(out@ + Seq::<char>::empty() =~= out@);
    out
}

/// The process id a lock file's text names: its first line, trimmed and
/// read as a number. An empty file names none.
pub fn lock_holder_pid(text: &str) -> (r: Option<u32>)
    ensures
        r == holder_pid_of(text@),
{
    let chars = chars_of(text);
    if chars.len() == 0 {
        return None;
    }
    let line = first_line_chars(chars.as_slice());
    let body = trim_chars(line.as_slice());
    parse_u32_chars(body.as_slice())
}

/// Whether the process named `pid` needs asking at all.
pub fn worth_asking(pid: Option<u32>) -> (r: bool)
    ensures
        r == (pid matches Some(p) && p != 0),
{
    match pid {
        Some(p) => p != 0,
        None => false,
    }
}

/// Which stale files to remove when no player answers: the lock when its
/// holder is gone, the advertisement when nothing listens behind it.
pub fn stale_files(player_up: bool, lock_exists: bool, holder_alive: bool, ipc_exists: bool, player_up_now: bool) -> (r: (bool, bool))
    ensures
        r == (if player_up { (false, false) } else { (lock_exists && !holder_alive, ipc_exists && !player_up_now) }),
{
    if player_up {
        return (false, false);
    }
    (lock_exists && !holder_alive, ipc_exists && !player_up_now)
}

/// How far taking `player.lock` has got once the file was found taken.
#[derive(Debug, Clone, Copy, PartialEq, Eq, Structural)]
pub enum LockWait {
    /// The lock was just found taken.
    Found,
    /// Its holder lives: waiting for it to come up, or to go away.
    Polling,
    /// The wait is over; one last look decides.
    LastLook,
}

/// What the taker does next.
#[derive(Debug, Clone, Copy, PartialEq, Eq, Structural)]
pub enum LockMove {
    /// Another player runs, or is starting: leave the lock to it.
    Yield,
    /// Sleep a moment, then look again.
    Sleep,
    /// Look again at once, in this phase (a new wait starts its clock).
    Look(LockWait),
    /// The lock is stale: remove it and the advertisement, and try again.
    ClearAndRetry,
}

/// The next move, from what the last look saw: whether a player answers,
/// whether the lock's holder lives, and whether the wait has run out.
/// What is not needed is not asked for: the holder only when no player
/// answers, neither of them once the wait has run out.
pub open spec fn lock_move(phase: LockWait, player_up: bool, holder_alive: bool, timed_out: bool) -> LockMove {
    match phase {
        LockWait::Found => if player_up {
            LockMove::Yield
        } else if holder_alive {
            LockMove::Look(LockWait::Polling)
        } else {
            LockMove::ClearAndRetry
        },
        LockWait::Polling => if timed_out {
            LockMove::Look(LockWait::LastLook)
        } else if player_up {
            LockMove::Yield
        } else if !holder_alive {
            LockMove::Look(LockWait::LastLook)
        } else {
            LockMove::Sleep
        },
        LockWait::LastLook => if player_up || holder_alive {
            LockMove::Yield
        } else {
            LockMove::ClearAndRetry
        },
    }
}

/// The next move of a taker that found `player.lock` taken.
pub fn next_lock_move(phase: LockWait, player_up: bool, holder_alive: bool, timed_out: bool) -> (r: LockMove)
    ensures
        r == lock_move(phase, player_up, holder_alive, timed_out),
{
    match phase {
        LockWait::Found => {
            if player_up {
                LockMove::Yield
            } else if holder_alive {
                LockMove::Look(LockWait::Polling)
            } else {
                LockMove::ClearAndRetry
            }
        },
        LockWait::Polling => {
            if timed_out {
                LockMove::Look(LockWait::LastLook)
            } else if player_up {
                LockMove::Yield
            } else if !holder_alive {
                LockMove::Look(LockWait::LastLook)
            } else {
                LockMove::Sleep
            }
        },
        LockWait::LastLook => {
            if player_up || holder_alive {
                LockMove::Yield
            } else {
                LockMove::ClearAndRetry
            }
        },
    }
}

/// A lock is never cleared while a player answers or its holder still
/// lives: a player that is still starting is not robbed of its lock. And
/// a wait ends only with a last look, which decides on fresh answers.
pub proof fn a_live_lock_is_never_cleared(phase: LockWait, player_up: bool, holder_alive: bool, timed_out: bool)
    ensures
        (player_up || holder_alive) ==> lock_move(phase, player_up, holder_alive, timed_out) != LockMove::ClearAndRetry,
        phase == LockWait::Polling && timed_out ==> lock_move(phase, player_up, holder_alive, timed_out)
            == LockMove::Look(LockWait::LastLook),
        lock_move(phase, player_up, holder_alive, timed_out) is Look ==> phase != LockWait::LastLook,
{
}

} // verus!
