//! Small helpers that turn numbers into strings fit for a narrow terminal.
//!
//! Lengths of time are whole milliseconds throughout the library.

use vstd::prelude::*;
use crate::text::{decimal, digit_char, digit_exec, owned, push_char, push_decimal, push_two_digits, two_digits};

verus! {

/// `M:SS`, or `H:MM:SS` for anything an hour or longer, of whole seconds.
pub open spec fn duration_text(millis: nat) -> Seq<char> {
    let secs = millis / 1000;
    let h = secs / 3600;
    let m = (secs % 3600) / 60;
    let s = secs % 60;
    if h > 0 {
        decimal(h) + seq![':'] + two_digits(m) + seq![':'] + two_digits(s)
    } else {
        decimal(m) + seq![':'] + two_digits(s)
    }
}

/// The placeholder shown for a length that is not known.
pub open spec fn unknown_duration() -> Seq<char> {
    seq!['-', '-', ':', '-', '-']
}

pub open spec fn duration_opt_text(millis: Option<u64>) -> Seq<char> {
    match millis {
        Some(ms) => duration_text(ms as nat),
        None => unknown_duration(),
    }
}

/// The unit suffix of a sample rate.
pub open spec fn khz_suffix() -> Seq<char> {
    seq![' ', 'k', 'H', 'z']
}

/// `2^52 · 1000`: once `rate · 2^k` reaches it, `rate · 2^k / 1000` has the
/// 53 significant bits that a binary64 value holds.
pub const RATE_SCALE_LIMIT: u128 = 4503599627370496000;

/// `(rate · 2^k, 2^k)` for the least `k` with `rate · 2^k >= RATE_SCALE_LIMIT`
/// (`k = 0` for a zero rate). The binary64 value nearest to `rate / 1000`
/// is then `round(rate · 2^k / 1000) / 2^k`, so the remainder of the first
/// component mod 1000 tells where that value lies against `rate / 1000`.
pub open spec fn scaled_rate(rate: nat) -> (nat, nat)
    decreases (if rate < RATE_SCALE_LIMIT { RATE_SCALE_LIMIT - rate } else { 0 }),
{
    if rate == 0 || rate >= RATE_SCALE_LIMIT {
        (rate, 1)
    } else {
        let next = scaled_rate(2 * rate);
        (next.0, 2 * next.1)
    }
}

/// `whole.tenths kHz`, carrying into the whole part when the tenths reach ten.
pub open spec fn tenths_text(whole: nat, tenths: nat) -> Seq<char> {
    if tenths >= 10 {
        decimal(whole + 1) + seq!['.', '0'] + khz_suffix()
    } else {
        decimal(whole) + seq!['.'] + seq![digit_char(tenths)] + khz_suffix()
    }
}

/// A sample rate in kHz, as the binary64 value nearest to `rate / 1000` is
/// written: with no decimals when its fraction, times ten, rounds to zero,
/// otherwise to one decimal, rounding half to even on the stored value.
///
/// Away from a tie (`rest % 100 != 50`) that is plain rounding of the exact
/// rate. At a tie the stored value decides: it sits above the tie when the
/// scaled remainder is over 500, on it when the remainder is zero, and below
/// it otherwise. Just under `W.05` the fraction times ten may still round up
/// to `0.5` (when it misses by at most `2^-55`), which gives `W.0`.
pub open spec fn khz_text(rate: nat) -> Seq<char> {
    let whole = rate / 1000;
    let rest = rate % 1000;
    if rest % 100 != 50 {
        if rest < 50 {
            decimal(whole) + khz_suffix()
        } else {
            tenths_text(whole, (rest + 50) / 100)
        }
    } else {
        let scaled = scaled_rate(rate);
        let over = scaled.0 % 1000;
        if rest == 50 {
            if over > 500 {
                tenths_text(whole, 1)
            } else if over * 36028797018963968 <= 100 * scaled.1 {
                tenths_text(whole, 0)
            } else {
                decimal(whole) + khz_suffix()
            }
        } else {
            let low = rest / 100;
            let tenths = if over > 500 {
                low + 1
            } else if over > 0 {
                low
            } else if low % 2 == 0 {
                low
            } else {
                low + 1
            };
            tenths_text(whole, tenths)
        }
    }
}

pub open spec fn channel_text(channels: nat) -> Seq<char> {
    if channels == 1 {
        seq!['m', 'o', 'n', 'o']
    } else if channels == 2 {
        seq!['s', 't', 'e', 'r', 'e', 'o']
    } else {
        decimal(channels) + seq!['c', 'h']
    }
}

/// `text` cut to `max` characters, ending with `…` when something was dropped.
pub open spec fn truncated(text: Seq<char>, max: nat) -> Seq<char> {
    if max == 0 {
        Seq::empty()
    } else if text.len() <= max {
        text
    } else {
        text.take(max - 1).push('…')
    }
}

/// A cut string never takes more than its columns, a string that fits is
/// left alone, and one that was cut ends in `…`.
pub proof fn a_cut_text_fits_its_columns(text: Seq<char>, max: nat, offset: nat)
    ensures
        truncated(text, max).len() <= max,
        text.len() <= max ==> truncated(text, max) == text,
        text.len() > max > 0 ==> truncated(text, max).last() == '…'
            && truncated(text, max).len() == max
            && truncated(text, max).take(max - 1) == text.take(max - 1),
        panned(text, offset, max).len() <= max,
{
    if text.len() > max && max > 0 {
        assert(truncated(text, max).take(max - 1) =~= text.take(max - 1));
    }
}

/// `text` with its first `offset` characters skipped.
pub open spec fn skipped(text: Seq<char>, offset: nat) -> Seq<char> {
    if offset >= text.len() {
        Seq::empty()
    } else {
        text.skip(offset as int)
    }
}

pub open spec fn panned(text: Seq<char>, offset: nat, width: nat) -> Seq<char> {
    truncated(skipped(text, offset), width)
}

pub open spec fn position_text(index: nat, total: nat) -> Seq<char> {
    if total == 0 {
        seq!['0', '/', '0']
    } else {
        decimal(index + 1) + seq!['/'] + decimal(total)
    }
}

/// `M:SS`, or `H:MM:SS` for anything an hour or longer.
pub fn duration(millis: u64) -> (r: String)
    ensures
        r@ == duration_text(millis as nat),
{
    let secs = millis / 1000;
    let h = secs / 3600;
    let m = (secs % 3600) / 60;
    let s = secs % 60;
    let mut out = String::new();
    if h > 0 {
        push_decimal(&mut out, h);
        push_char(&mut out, ':');
        push_two_digits(&mut out, m);
        push_char(&mut out, ':');
        push_two_digits(&mut out, s);
    } else {
        push_decimal(&mut out, m);
        push_char(&mut out, ':');
        push_two_digits(&mut out, s);
    }
    assert(out@ =~= duration_text(millis as nat));
    out
}

/// A duration that may be unknown, as it is for radio streams.
pub fn duration_opt(millis: Option<u64>) -> (r: String)
    ensures
        r@ == duration_opt_text(millis),
{
    match millis {
        Some(ms) => duration(ms),
        None => {
            let out = owned("--:--");
            proof {
                reveal_strlit("--:--");
            }
            assert(out@ =~= unknown_duration());
            out
        },
    }
}

/// `whole.tenths kHz` appended to `out`.
fn push_tenths(out: &mut String, whole: u64, tenths: u64)
    requires
        whole < u64::MAX,
        tenths <= 10,
    ensures
        final(out)@ == old(out)@ + tenths_text(whole as nat, tenths as nat),
{
    if tenths == 10 {
        push_decimal(out, whole + 1);
        push_char(out, '.');
        push_char(out, '0');
    } else {
        push_decimal(out, whole);
        push_char(out, '.');
        push_char(out, digit_exec(tenths));
    }
    push_khz_suffix(out);
    assert(final(out)@ =~= old(out)@ + tenths_text(whole as nat, tenths as nat));
}

fn push_khz_suffix(out: &mut String)
    ensures
        final(out)@ == old(out)@ + khz_suffix(),
{
    push_char(out, ' ');
    push_char(out, 'k');
    push_char(out, 'H');
    push_char(out, 'z');
    assert(final(out)@ =~= old(out)@ + khz_suffix());
}

/// `(rate · 2^k, 2^k)` as `scaled_rate` gives it, for a positive rate.
fn scale_rate(rate: u32) -> (r: (u128, u128))
    requires
        rate > 0,
    ensures
        r.0 == scaled_rate(rate as nat).0,
        r.1 == scaled_rate(rate as nat).1,
        r.0 < 2 * RATE_SCALE_LIMIT,
        r.1 <= r.0,
{
    let mut n: u128 = rate as u128;
    let mut p: u128 = 1;
    while n < RATE_SCALE_LIMIT
        invariant
            0 < n < 2 * RATE_SCALE_LIMIT,
            p <= n,
            scaled_rate(rate as nat).0 == scaled_rate(n as nat).0,
            scaled_rate(rate as nat).1 == p * scaled_rate(n as nat).1,
        decreases 2 * RATE_SCALE_LIMIT - n,
    {
        let ghost next = scaled_rate(2 * n as nat);
        assert(scaled_rate(n as nat) == (next.0, 2 * next.1));
        assert(p * (2 * next.1) == (2 * p) * next.1) by (nonlinear_arith);
        n = 2 * n;
        p = 2 * p;
    }
    (n, p)
}

/// Sample rate in kHz, dropping a pointless trailing `.0`.
pub fn khz(rate: u32) -> (r: String)
    ensures
        r@ == khz_text(rate as nat),
{
    let whole: u64 = (rate / 1000) as u64;
    let rest: u64 = (rate % 1000) as u64;
    let mut out = String::new();
    if rest % 100 != 50 {
        if rest < 50 {
            push_decimal(&mut out, whole);
            push_khz_suffix(&mut out);
        } else {
            push_tenths(&mut out, whole, (rest + 50) / 100);
        }
    } else {
        let (n, p) = scale_rate(rate);
        let over: u128 = n % 1000;
        if rest == 50 {
            if over > 500 {
                push_tenths(&mut out, whole, 1);
            } else if over * 36028797018963968 <= 100 * p {
                push_tenths(&mut out, whole, 0);
            } else {
                push_decimal(&mut out, whole);
                push_khz_suffix(&mut out);
            }
        } else {
            let low: u64 = rest / 100;
            let tenths: u64 = if over > 500 {
                low + 1
            } else if over > 0 {
                low
            } else if low % 2 == 0 {
                low
            } else {
                low + 1
            };
            push_tenths(&mut out, whole, tenths);
        }
    }
    assert(out@ =~= khz_text(rate as nat));
    out
}

pub fn channel_name(channels: u16) -> (r: String)
    ensures
        r@ == channel_text(channels as nat),
{
    let mut out = String::new();
    if channels == 1 {
        push_char(&mut out, 'm');
        push_char(&mut out, 'o');
        push_char(&mut out, 'n');
        push_char(&mut out, 'o');
    } else if channels == 2 {
        push_char(&mut out, 's');
        push_char(&mut out, 't');
        push_char(&mut out, 'e');
        push_char(&mut out, 'r');
        push_char(&mut out, 'e');
        push_char(&mut out, 'o');
    } else {
        push_decimal(&mut out, channels as u64);
        push_char(&mut out, 'c');
        push_char(&mut out, 'h');
    }
    assert(out@ =~= channel_text(channels as nat));
    out
}

/// Skip `offset` characters, then truncate to `width`.
pub fn pan(text: &str, offset: usize, width: usize) -> (r: String)
    ensures
        r@ == panned(text@, offset as nat, width as nat),
{
    let n = text.unicode_len();
    if offset >= n {
        let empty = String::new();
        truncate(empty.as_str(), width)
    } else {
        let rest = text.substring_char(offset, n);
        assert(rest@ =~= text@.skip(offset as int));
        truncate(rest, width)
    }
}

/// Cut a string to `max` columns, ending with `…` when something was dropped.
///
/// Counts characters rather than bytes so non-ASCII titles are not cut mid-character.
pub fn truncate(text: &str, max: usize) -> (r: String)
    ensures
        r@ == truncated(text@, max as nat),
{
    if max == 0 {
        return String::new();
    }
    let count = text.unicode_len();
    if count <= max {
        return owned(text);
    }
    let keep = text.substring_char(0, max - 1);
    let mut out = owned(keep);
    push_char(&mut out, '…');
    assert(out@ =~= truncated(text@, max as nat));
    out
}

/// `1/12` style position marker for lists.
pub fn position_of(index: usize, total: usize) -> (r: String)
    requires
        total == 0 || index < u64::MAX,
    ensures
        r@ == position_text(index as nat, total as nat),
{
    let mut out = String::new();
    if total == 0 {
        push_char(&mut out, '0');
        push_char(&mut out, '/');
        push_char(&mut out, '0');
    } else {
        push_decimal(&mut out, index as u64 + 1);
        push_char(&mut out, '/');
        push_decimal(&mut out, total as u64);
    }
    assert(out@ =~= position_text(index as nat, total as nat));
    out
}

} // verus!
