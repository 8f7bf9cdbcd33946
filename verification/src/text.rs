//! Character-level string helpers shared by the formatting and layout code.
//!
//! Everything here counts Unicode scalar values, never bytes, so a title with
//! `ł` or `ż` is measured and cut the way the terminal shows it.

use vstd::prelude::*;

verus! {

/// The decimal digit for `d`, which must be below ten.
pub open spec fn digit_char(d: nat) -> char {
    if d == 0 { '0' }
    else if d == 1 { '1' }
    else if d == 2 { '2' }
    else if d == 3 { '3' }
    else if d == 4 { '4' }
    else if d == 5 { '5' }
    else if d == 6 { '6' }
    else if d == 7 { '7' }
    else if d == 8 { '8' }
    else { '9' }
}

/// `n` written in base ten with no padding, as `format!("{n}")` writes it.
pub open spec fn decimal(n: nat) -> Seq<char>
    decreases n,
{
    if n < 10 {
        seq![digit_char(n)]
    } else {
        decimal(n / 10).push(digit_char(n % 10))
    }
}

/// Ten to the power `k`.
pub open spec fn pow10(k: nat) -> nat
    decreases k,
{
    if k == 0 { 1 } else { 10 * pow10((k - 1) as nat) }
}

/// A number below `10^k` takes at most `k` digits.
pub proof fn lemma_decimal_len(n: nat, k: nat)
    requires
        k >= 1,
        n < pow10(k),
    ensures
        decimal(n).len() <= k,
    decreases n,
{
    if n >= 10 {
        if k == 1 {
            assert(pow10(1) == 10) by {
                reveal_with_fuel(pow10, 2);
            }
        }
        let p = pow10((k - 1) as nat);
        assert(pow10(k) == 10 * p);
        assert(n / 10 < p) by (nonlinear_arith)
            requires
                n < 10 * p,
        ;
        if k - 1 == 0 {
            assert(p == 1);
        }
        lemma_decimal_len(n / 10, (k - 1) as nat);
    }
}

/// Any `u64` takes at most twenty digits.
pub proof fn lemma_decimal_u64(n: nat)
    requires
        n <= u64::MAX,
    ensures
        decimal(n).len() <= 20,
{
    assert(pow10(20) == 100000000000000000000) by {
        reveal_with_fuel(pow10, 21);
    }
    lemma_decimal_len(n, 20);
}

/// `n` padded with a leading zero to two digits, as `{n:02}` writes it.
pub open spec fn two_digits(n: nat) -> Seq<char> {
    if n < 10 {
        seq!['0', digit_char(n)]
    } else {
        decimal(n)
    }
}

/// Whether `s` holds `c` anywhere.
pub open spec fn has_char(s: Seq<char>, c: char) -> bool {
    exists|i: int| 0 <= i < s.len() && s[i] == c
}

/// Whether `part` occurs in `s` starting at `at`.
pub open spec fn occurs_at(s: Seq<char>, part: Seq<char>, at: int) -> bool {
    0 <= at && at + part.len() <= s.len() && s.subrange(at, at + part.len()) == part
}

/// Whether `part` occurs somewhere in `s`.
pub open spec fn contains_seq(s: Seq<char>, part: Seq<char>) -> bool {
    exists|at: int| occurs_at(s, part, at)
}

/// Whether `s` starts with `prefix`.
pub open spec fn starts_with(s: Seq<char>, prefix: Seq<char>) -> bool {
    occurs_at(s, prefix, 0)
}

/// ASCII whitespace, plus the other characters `char::is_whitespace` accepts
/// that appear in practice.
pub open spec fn is_space(c: char) -> bool {
    c == ' ' || c == '\t' || c == '\n' || c == '\r' || c == '\u{0B}' || c == '\u{0C}'
        || c == '\u{85}' || c == '\u{A0}' || c == '\u{1680}' || ('\u{2000}' <= c && c <= '\u{200A}')
        || c == '\u{2028}' || c == '\u{2029}' || c == '\u{202F}' || c == '\u{205F}'
        || c == '\u{3000}'
}

/// Index of the first non-space character, or the length when there is none.
pub open spec fn leading_spaces(s: Seq<char>) -> nat
    decreases s.len(),
{
    if s.len() == 0 || !is_space(s[0]) {
        0
    } else {
        1 + leading_spaces(s.drop_first())
    }
}

/// Number of spaces at the end of `s`.
pub open spec fn trailing_spaces(s: Seq<char>) -> nat
    decreases s.len(),
{
    if s.len() == 0 || !is_space(s.last()) {
        0
    } else {
        1 + trailing_spaces(s.drop_last())
    }
}

/// `s` without leading and trailing whitespace, as `str::trim` gives it.
pub open spec fn trimmed(s: Seq<char>) -> Seq<char> {
    let front = s.skip(leading_spaces(s) as int);
    front.take(front.len() - trailing_spaces(front))
}

/// The ASCII lower-case form of one character; other characters stay.
pub open spec fn ascii_lower(c: char) -> char {
    if 'A' <= c && c <= 'Z' {
        ((c as u32) + 32) as char
    } else {
        c
    }
}

/// `s` with ASCII letters lowered, as `to_ascii_lowercase` gives it.
pub open spec fn lowered(s: Seq<char>) -> Seq<char> {
    s.map_values(|c: char| ascii_lower(c))
}

/// Whether two strings match when ASCII case is ignored, as `eq_ignore_ascii_case`.
pub open spec fn eq_ascii_nocase(a: Seq<char>, b: Seq<char>) -> bool {
    lowered(a) == lowered(b)
}

proof fn lemma_leading_bound(s: Seq<char>)
    ensures
        leading_spaces(s) <= s.len(),
        forall|i: int| 0 <= i < leading_spaces(s) ==> is_space(#[trigger] s[i]),
        leading_spaces(s) < s.len() ==> !is_space(s[leading_spaces(s) as int]),
    decreases s.len(),
{
    if s.len() > 0 && is_space(s[0]) {
        lemma_leading_bound(s.drop_first());
        assert forall|i: int| 0 <= i < leading_spaces(s) implies is_space(#[trigger] s[i]) by {
            if i > 0 {
                assert(s[i] == s.drop_first()[i - 1]);
            }
        }
    }
}

/// The ASCII upper-case form of one character; other characters stay.
pub open spec fn ascii_upper(c: char) -> char {
    if 'a' <= c && c <= 'z' {
        ((c as u32) - 32) as char
    } else {
        c
    }
}

/// `s` with ASCII letters raised, as `to_ascii_uppercase` gives it.
pub open spec fn uppercased(s: Seq<char>) -> Seq<char> {
    s.map_values(|c: char| ascii_upper(c))
}

pub open spec fn all_spaces(s: Seq<char>) -> bool {
    forall|i: int| 0 <= i < s.len() ==> is_space(#[trigger] s[i])
}

proof fn lemma_leading_is(s: Seq<char>, n: nat)
    requires
        n <= s.len(),
        forall|i: int| 0 <= i < n ==> is_space(#[trigger] s[i]),
        n == s.len() || !is_space(s[n as int]),
    ensures
        leading_spaces(s) == n,
    decreases n,
{
    if n > 0 {
        let t = s.drop_first();
        assert forall|i: int| 0 <= i < n - 1 implies is_space(#[trigger] t[i]) by {
            assert(t[i] == s[i + 1]);
        }
        if n < s.len() {
            assert(t[n - 1] == s[n as int]);
        }
        assert(is_space(s[0]));
        lemma_leading_is(t, (n - 1) as nat);
    }
}

proof fn lemma_trailing_is(s: Seq<char>, n: nat)
    requires
        n <= s.len(),
        forall|i: int| s.len() - n <= i < s.len() ==> is_space(#[trigger] s[i]),
        n == s.len() || !is_space(s[s.len() - n - 1]),
    ensures
        trailing_spaces(s) == n,
    decreases n,
{
    if n > 0 {
        let t = s.drop_last();
        assert forall|i: int| t.len() - (n - 1) <= i < t.len() implies is_space(#[trigger] t[i]) by {
            assert(t[i] == s[i]);
        }
        if n < s.len() {
            assert(t[t.len() - (n - 1) - 1] == s[s.len() - n - 1]);
        }
        assert(is_space(s[s.len() - 1]));
        lemma_trailing_is(t, (n - 1) as nat);
    }
}

/// Lowering ASCII letters never makes or unmakes a space.
proof fn lemma_lower_keeps_spaces(c: char)
    ensures
        is_space(ascii_lower(c)) == is_space(c),
{
}

/// Trimming and ASCII lowering can be done in either order.
pub proof fn lemma_trim_lower_commute(s: Seq<char>)
    ensures
        trimmed(lowered(s)) == lowered(trimmed(s)),
{
    let l = lowered(s);
    lemma_leading_bound(s);
    let a = leading_spaces(s);
    assert forall|i: int| 0 <= i < s.len() implies is_space(#[trigger] l[i]) == is_space(s[i]) by {
        lemma_lower_keeps_spaces(s[i]);
    }
    assert forall|i: int| 0 <= i < a implies is_space(#[trigger] l[i]) by {
        assert(is_space(s[i]));
        lemma_lower_keeps_spaces(s[i]);
    }
    if a < s.len() {
        lemma_lower_keeps_spaces(s[a as int]);
    }
    lemma_leading_is(l, a);
    let front = s.skip(a as int);
    let lfront = l.skip(a as int);
    assert(lfront =~= lowered(front));
    lemma_trailing_bound(front);
    let b = trailing_spaces(front);
    assert forall|i: int| lfront.len() - b <= i < lfront.len() implies is_space(#[trigger] lfront[i]) by {
        assert(is_space(front[i]));
        lemma_lower_keeps_spaces(front[i]);
    }
    if b < front.len() {
        lemma_lower_keeps_spaces(front[front.len() - b - 1]);
    }
    lemma_trailing_is(lfront, b);
    assert(lfront.take(lfront.len() - b) =~= lowered(front.take(front.len() - b)));
}

/// Spaces around a text never survive a trim.
pub proof fn lemma_trim_ignores_surrounding_spaces(before: Seq<char>, x: Seq<char>, after: Seq<char>)
    requires
        all_spaces(before),
        all_spaces(after),
    ensures
        trimmed(before + x + after) == trimmed(x),
{
    let t = before + x + after;
    lemma_leading_bound(x);
    let a = leading_spaces(x);
    if a == x.len() {
        assert forall|i: int| 0 <= i < t.len() implies is_space(#[trigger] t[i]) by {
            if i < before.len() {
                assert(t[i] == before[i]);
            } else if i < before.len() + x.len() {
                assert(t[i] == x[i - before.len()]);
            } else {
                assert(t[i] == after[i - before.len() - x.len()]);
            }
        }
        lemma_leading_is(t, t.len());
        assert(trimmed(t) =~= Seq::<char>::empty());
        assert(trimmed(x) =~= Seq::<char>::empty());
    } else {
        let n = before.len() + a;
        assert forall|i: int| 0 <= i < n implies is_space(#[trigger] t[i]) by {
            if i < before.len() {
                assert(t[i] == before[i]);
            } else {
                assert(t[i] == x[i - before.len()]);
            }
        }
        assert(t[n as int] == x[a as int]);
        lemma_leading_is(t, n);
        let front = x.skip(a as int);
        let tfront = t.skip(n as int);
        assert(tfront =~= front + after);
        lemma_trailing_bound(front);
        let b = trailing_spaces(front);
        assert(!is_space(front[0]));
        assert(b < front.len()) by {
            if b == front.len() {
                assert(is_space(front[0]));
            }
        }
        let m = after.len() + b;
        assert forall|i: int| tfront.len() - m <= i < tfront.len() implies is_space(#[trigger] tfront[i]) by {
            if i < front.len() {
                assert(tfront[i] == front[i]);
            } else {
                assert(tfront[i] == after[i - front.len()]);
            }
        }
        assert(tfront[tfront.len() - m - 1] == front[front.len() - b - 1]);
        lemma_trailing_is(tfront, m);
        assert(tfront.take(tfront.len() - m) =~= front.take(front.len() - b));
    }
}

/// Lowering undoes raising: case never matters once lowered.
pub proof fn lemma_lower_of_upper(s: Seq<char>)
    ensures
        lowered(uppercased(s)) == lowered(s),
{
    assert(lowered(uppercased(s)) =~= lowered(s));
}

proof fn lemma_trailing_bound(s: Seq<char>)
    ensures
        trailing_spaces(s) <= s.len(),
        forall|i: int| s.len() - trailing_spaces(s) <= i < s.len() ==> is_space(#[trigger] s[i]),
        trailing_spaces(s) < s.len() ==> !is_space(s[s.len() - trailing_spaces(s) - 1]),
    decreases s.len(),
{
    if s.len() > 0 && is_space(s.last()) {
        lemma_trailing_bound(s.drop_last());
        assert forall|i: int| s.len() - trailing_spaces(s) <= i < s.len() implies is_space(#[trigger] s[i]) by {
            if i < s.len() - 1 {
                assert(s[i] == s.drop_last()[i]);
            }
        }
    }
}

/// Append one character; `String::push`.
#[verifier::external_body]
pub(crate) fn push_char(s: &mut String, c: char)
    ensures
        final(s)@ == old(s)@.push(c),
{
    s.push(c);
}

/// The characters of `s` as a vector.
pub fn chars_of(s: &str) -> (r: Vec<char>)
    ensures
        r@ == s@,
{
    let n = s.unicode_len();
    let mut out: Vec<char> = Vec::new();
    let mut i: usize = 0;
    while i < n
        invariant
            n == s@.len(),
            i <= n,
            out@ == s@.take(i as int),
        decreases n - i,
    {
        out.push(s.get_char(i));
        i += 1;
        assert(out@ =~= s@.take(i as int));
    }
    assert(out@ =~= s@);
    out
}

/// A `String` holding exactly `chars`.
pub fn string_from_chars(chars: &[char]) -> (r: String)
    ensures
        r@ == chars@,
{
    let mut out = String::new();
    let mut i: usize = 0;
    while i < chars.len()
        invariant
            i <= chars.len(),
            out@ == chars@.take(i as int),
        decreases chars.len() - i,
    {
        push_char(&mut out, chars[i]);
        i += 1;
        assert(out@ =~= chars@.take(i as int));
    }
    assert(out@ =~= chars@);
    out
}

/// A `String` copy of `s`.
pub fn owned(s: &str) -> (r: String)
    ensures
        r@ == s@,
{
    String::from_str(s)
}

/// Characters in `s`.
pub fn char_count(s: &str) -> (r: usize)
    ensures
        r == s@.len(),
{
    s.unicode_len()
}

/// Whether two strings hold the same characters.
pub fn same_text(a: &str, b: &str) -> (r: bool)
    ensures
        r == (a@ == b@),
{
    let n = a.unicode_len();
    if n != b.unicode_len() {
        return false;
    }
    let mut i: usize = 0;
    while i < n
        invariant
            n == a@.len(),
            n == b@.len(),
            i <= n,
            forall|j: int| 0 <= j < i ==> a@[j] == b@[j],
        decreases n - i,
    {
        if a.get_char(i) != b.get_char(i) {
            return false;
        }
        i += 1;
    }
    assert(a@ =~= b@);
    true
}

/// One character lowered the ASCII way.
pub fn lower_char(c: char) -> (r: char)
    ensures
        r == ascii_lower(c),
{
    if 'A' <= c && c <= 'Z' {
        let code: u8 = (c as u32 + 32) as u8;
        code as char
    } else {
        c
    }
}

/// Whether two strings match ignoring ASCII case.
pub fn same_text_nocase(a: &str, b: &str) -> (r: bool)
    ensures
        r == eq_ascii_nocase(a@, b@),
{
    let n = a.unicode_len();
    if n != b.unicode_len() {
        assert(lowered(a@).len() != lowered(b@).len());
        return false;
    }
    let mut i: usize = 0;
    while i < n
        invariant
            n == a@.len(),
            n == b@.len(),
            i <= n,
            forall|j: int| 0 <= j < i ==> ascii_lower(a@[j]) == ascii_lower(b@[j]),
        decreases n - i,
    {
        if lower_char(a.get_char(i)) != lower_char(b.get_char(i)) {
            assert(lowered(a@)[i as int] != lowered(b@)[i as int]);
            return false;
        }
        i += 1;
    }
    assert(lowered(a@) =~= lowered(b@));
    true
}

/// `s` without surrounding whitespace.
pub fn trim_chars(s: &[char]) -> (r: Vec<char>)
    ensures
        r@ == trimmed(s@),
{
    proof {
        lemma_leading_bound(s@);
    }
    let n = s.len();
    let mut start: usize = 0;
    while start < n && is_space_exec(s[start])
        invariant
            start <= n,
            n == s@.len(),
            forall|i: int| 0 <= i < start ==> is_space(#[trigger] s@[i]),
            leading_spaces(s@) <= n,
            forall|i: int| 0 <= i < leading_spaces(s@) ==> is_space(#[trigger] s@[i]),
            leading_spaces(s@) < n ==> !is_space(s@[leading_spaces(s@) as int]),
            start <= leading_spaces(s@),
        decreases n - start,
    {
        start += 1;
    }
    assert(start == leading_spaces(s@));
    let ghost front = s@.skip(start as int);
    proof {
        lemma_trailing_bound(front);
    }
    let mut end: usize = n;
    while end > start && is_space_exec(s[end - 1])
        invariant
            start <= end <= n,
            n == s@.len(),
            front == s@.skip(start as int),
            forall|i: int| end <= i < n ==> is_space(#[trigger] s@[i]),
            trailing_spaces(front) <= front.len(),
            forall|i: int| front.len() - trailing_spaces(front) <= i < front.len() ==> is_space(#[trigger] front[i]),
            trailing_spaces(front) < front.len() ==> !is_space(front[front.len() - trailing_spaces(front) - 1]),
            n - end <= trailing_spaces(front),
        decreases end - start,
    {
        assert(front[end - 1 - start] == s@[end - 1]);
        end -= 1;
    }
    assert(n - end == trailing_spaces(front)) by {
        if n - end < trailing_spaces(front) {
            assert(front[front.len() - (n - end) - 1] == s@[end - 1]);
        }
    }
    let mut out: Vec<char> = Vec::new();
    let mut i: usize = start;
    while i < end
        invariant
            start <= i <= end <= n,
            n == s@.len(),
            out@ == s@.subrange(start as int, i as int),
        decreases end - i,
    {
        out.push(s[i]);
        i += 1;
        assert(out@ =~= s@.subrange(start as int, i as int));
    }
    assert(out@ =~= trimmed(s@));
    out
}

/// Whether `c` counts as whitespace for trimming and splitting.
pub fn is_space_exec(c: char) -> (r: bool)
    ensures
        r == is_space(c),
{
    c == ' ' || c == '\t' || c == '\n' || c == '\r' || c == '\u{0B}' || c == '\u{0C}'
        || c == '\u{85}' || c == '\u{A0}' || c == '\u{1680}' || ('\u{2000}' <= c && c <= '\u{200A}')
        || c == '\u{2028}' || c == '\u{2029}' || c == '\u{202F}' || c == '\u{205F}'
        || c == '\u{3000}'
}

/// `s` lowered the ASCII way.
pub fn lower_chars(s: &[char]) -> (r: Vec<char>)
    ensures
        r@ == lowered(s@),
{
    let mut out: Vec<char> = Vec::new();
    let mut i: usize = 0;
    while i < s.len()
        invariant
            i <= s.len(),
            out@ == lowered(s@.take(i as int)),
        decreases s.len() - i,
    {
        out.push(lower_char(s[i]));
        i += 1;
        assert(out@ =~= lowered(s@.take(i as int)));
    }
    assert(s@.take(s@.len() as int) =~= s@);
    out
}

/// Whether the character vector equals the string literal's characters.
pub fn chars_equal(a: &[char], b: &str) -> (r: bool)
    ensures
        r == (a@ == b@),
{
    let n = b.unicode_len();
    if a.len() != n {
        return false;
    }
    let mut i: usize = 0;
    while i < n
        invariant
            n == b@.len(),
            n == a@.len(),
            i <= n,
            forall|j: int| 0 <= j < i ==> a@[j] == b@[j],
        decreases n - i,
    {
        if a[i] != b.get_char(i) {
            return false;
        }
        i += 1;
    }
    assert(a@ =~= b@);
    true
}

/// Whether `c` occurs in `s`.
pub fn contains_char(s: &str, c: char) -> (r: bool)
    ensures
        r == has_char(s@, c),
{
    let n = s.unicode_len();
    let mut i: usize = 0;
    while i < n
        invariant
            n == s@.len(),
            i <= n,
            forall|j: int| 0 <= j < i ==> s@[j] != c,
        decreases n - i,
    {
        if s.get_char(i) == c {
            return true;
        }
        i += 1;
    }
    false
}

/// Whether `part` occurs in `s` at character `at`.
pub fn occurs_at_exec(s: &[char], part: &[char], at: usize) -> (r: bool)
    ensures
        r == occurs_at(s@, part@, at as int),
{
    if at > s.len() || part.len() > s.len() - at {
        return false;
    }
    let mut j: usize = 0;
    while j < part.len()
        invariant
            at + part.len() <= s.len(),
            j <= part.len(),
            forall|k: int| 0 <= k < j ==> s@[at + k] == part@[k],
        decreases part.len() - j,
    {
        if s[at + j] != part[j] {
            assert(s@.subrange(at as int, at + part@.len())[j as int] != part@[j as int]);
            return false;
        }
        j += 1;
    }
    assert(s@.subrange(at as int, at + part@.len()) =~= part@);
    true
}

/// Whether `part` occurs anywhere in `s`.
pub fn contains_exec(s: &[char], part: &[char]) -> (r: bool)
    ensures
        r == contains_seq(s@, part@),
{
    if part.len() > s.len() {
        return false;
    }
    let last = s.len() - part.len();
    let mut at: usize = 0;
    loop
        invariant
            at <= last,
            last + part.len() == s.len(),
            forall|k: int| 0 <= k < at ==> !occurs_at(s@, part@, k),
        ensures
            forall|k: int| 0 <= k <= last ==> !occurs_at(s@, part@, k),
        decreases last - at,
    {
        if occurs_at_exec(s, part, at) {
            return true;
        }
        if at == last {
            break;
        }
        at += 1;
    }
    assert forall|k: int| !occurs_at(s@, part@, k) by {
        if 0 <= k <= last {
        }
    }
    false
}

/// Append `n` in base ten.
pub fn push_decimal(s: &mut String, n: u64)
    ensures
        final(s)@ == old(s)@ + decimal(n as nat),
    decreases n,
{
    if n < 10 {
        push_char(s, digit_exec(n));
        assert(decimal(n as nat) =~= seq![digit_char(n as nat)]);
    } else {
        push_decimal(s, n / 10);
        push_char(s, digit_exec(n % 10));
    }
}

/// `n` in base ten, with a leading minus sign when negative.
pub open spec fn signed_decimal(n: int) -> Seq<char> {
    if n < 0 {
        seq!['-'] + decimal((-n) as nat)
    } else {
        decimal(n as nat)
    }
}

/// Append `n` in base ten, signed.
pub fn push_signed(s: &mut String, n: i32)
    ensures
        final(s)@ == old(s)@ + signed_decimal(n as int),
{
    if n < 0 {
        push_char(s, '-');
        let magnitude: u64 = (0i64 - (n as i64)) as u64;
        push_decimal(s, magnitude);
        assert(final(s)@ =~= old(s)@ + signed_decimal(n as int));
    } else {
        push_decimal(s, n as u64);
    }
}

/// Append `n` padded to two digits.
pub fn push_two_digits(s: &mut String, n: u64)
    ensures
        final(s)@ == old(s)@ + two_digits(n as nat),
{
    if n < 10 {
        push_char(s, '0');
        push_char(s, digit_exec(n));
        assert(final(s)@ =~= old(s)@ + two_digits(n as nat));
    } else {
        push_decimal(s, n);
    }
}

/// `n` in base ten as a new string.
pub fn decimal_string(n: u64) -> (r: String)
    ensures
        r@ == decimal(n as nat),
{
    let mut s = String::new();
    push_decimal(&mut s, n);
    assert(s@ =~= decimal(n as nat));
    s
}

/// The digit character for `d`.
pub fn digit_exec(d: u64) -> (r: char)
    requires
        d < 10,
    ensures
        r == digit_char(d as nat),
{
    if d == 0 { '0' }
    else if d == 1 { '1' }
    else if d == 2 { '2' }
    else if d == 3 { '3' }
    else if d == 4 { '4' }
    else if d == 5 { '5' }
    else if d == 6 { '6' }
    else if d == 7 { '7' }
    else if d == 8 { '8' }
    else { '9' }
}

} // verus!
