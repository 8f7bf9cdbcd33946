//! Footer hint segments turned into key presses and click targets.

use vstd::prelude::*;
use crate::hit::FooterHit;
use crate::input::{KeyCode, KeyEvent, KeyModifiers};
use crate::keys::{devices_table, global_table, hint_line, library_table, navigation_table, playlists_table, queue_table};
use crate::layout::Rect;
use crate::text::{
    chars_equal, chars_of, has_char, string_from_chars, contains_exec, contains_seq, is_space, is_space_exec, occurs_at,
    occurs_at_exec, starts_with, trim_chars, trimmed,
};

verus! {

/// Characters before the first whitespace.
pub open spec fn word_len(s: Seq<char>) -> nat
    decreases s.len(),
{
    if s.len() == 0 || is_space(s[0]) {
        0
    } else {
        1 + word_len(s.drop_first())
    }
}

pub open spec fn first_word(s: Seq<char>) -> Seq<char> {
    s.take(word_len(s) as int)
}

pub open spec fn plain_key(code: KeyCode) -> KeyEvent {
    KeyEvent { code, modifiers: KeyModifiers { control: false, alt: false, shift: false } }
}

/// The key a footer segment such as `? help` or `Esc close` stands for.
pub open spec fn hint_key(segment: Seq<char>) -> Option<KeyEvent> {
    let seg = trimmed(segment);
    let word = first_word(seg);
    if seg.len() == 0 {
        None
    } else if contains_seq(seg, "Esc"@) && contains_seq(seg, "close"@) {
        Some(plain_key(KeyCode::Esc))
    } else if starts_with(seg, "Alt-"@) && contains_seq(seg, "pan"@) {
        Some(KeyEvent { code: KeyCode::Right, modifiers: KeyModifiers { control: false, alt: true, shift: false } })
    } else if word == "Enter"@ {
        Some(plain_key(KeyCode::Enter))
    } else if word == "Esc"@ {
        Some(plain_key(KeyCode::Esc))
    } else if word == "Space"@ {
        Some(plain_key(KeyCode::Char(' ')))
    } else if word == "type"@ || word == "←"@ || word == "→"@ {
        None
    } else if word.len() == 1 {
        Some(plain_key(KeyCode::Char(word[0])))
    } else {
        None
    }
}

proof fn lemma_word_len(s: Seq<char>)
    ensures
        word_len(s) <= s.len(),
        forall|i: int| 0 <= i < word_len(s) ==> !is_space(#[trigger] s[i]),
        word_len(s) < s.len() ==> is_space(s[word_len(s) as int]),
    decreases s.len(),
{
    if s.len() > 0 && !is_space(s[0]) {
        lemma_word_len(s.drop_first());
        assert forall|i: int| 0 <= i < word_len(s) implies !is_space(#[trigger] s[i]) by {
            if i > 0 {
                assert(s[i] == s.drop_first()[i - 1]);
            }
        }
    }
}

/// The leading word of `s`.
fn first_word_exec(s: &[char]) -> (r: Vec<char>)
    ensures
        r@ == first_word(s@),
{
    proof { lemma_word_len(s@); }
    let mut out: Vec<char> = Vec::new();
    let mut i: usize = 0;
    while i < s.len() && !is_space_exec(s[i])
        invariant
            i <= s.len(),
            i <= word_len(s@),
            word_len(s@) <= s@.len(),
            forall|k: int| 0 <= k < word_len(s@) ==> !is_space(#[trigger] s@[k]),
            word_len(s@) < s@.len() ==> is_space(s@[word_len(s@) as int]),
            out@ == s@.take(i as int),
        decreases s.len() - i,
    {
        out.push(s[i]);
        i += 1;
        assert(out@ =~= s@.take(i as int));
    }
    out
}

/// The key a footer segment stands for, if it stands for one.
pub fn key_for_hint_segment(segment: &str) -> (r: Option<KeyEvent>)
    ensures
        r == hint_key(segment@),
{
    let all = chars_of(segment);
    let seg = trim_chars(all.as_slice());
    if seg.len() == 0 {
        return None;
    }
    let esc = chars_of("Esc");
    let close = chars_of("close");
    if contains_exec(seg.as_slice(), esc.as_slice()) && contains_exec(seg.as_slice(), close.as_slice()) {
        return Some(KeyEvent::plain(KeyCode::Esc));
    }
    let alt = chars_of("Alt-");
    let pan = chars_of("pan");
    if occurs_at_exec(seg.as_slice(), alt.as_slice(), 0) && contains_exec(seg.as_slice(), pan.as_slice()) {
        return Some(KeyEvent::new(KeyCode::Right, KeyModifiers::alt()));
    }
    let word = first_word_exec(seg.as_slice());
    if chars_equal(word.as_slice(), "Enter") {
        Some(KeyEvent::plain(KeyCode::Enter))
    } else if chars_equal(word.as_slice(), "Esc") {
        Some(KeyEvent::plain(KeyCode::Esc))
    } else if chars_equal(word.as_slice(), "Space") {
        Some(KeyEvent::plain(KeyCode::Char(' ')))
    } else if chars_equal(word.as_slice(), "type") || chars_equal(word.as_slice(), "←")
        || chars_equal(word.as_slice(), "→") {
        None
    } else if word.len() == 1 {
        Some(KeyEvent::plain(KeyCode::Char(word[0])))
    } else {
        None
    }
}

/// The separator between footer segments.
pub open spec fn hint_separator() -> Seq<char> {
    seq![' ', '·', ' ']
}

/// The first place at or after `from` where `sep` occurs in `s`, or -1.
pub open spec fn first_match(s: Seq<char>, sep: Seq<char>, from: int) -> int
    decreases s.len() - from,
{
    if from < 0 || from + sep.len() > s.len() {
        -1
    } else if occurs_at(s, sep, from) {
        from
    } else if from >= s.len() {
        -1
    } else {
        first_match(s, sep, from + 1)
    }
}

pub proof fn lemma_first_match(s: Seq<char>, sep: Seq<char>, from: int)
    requires
        0 <= from,
    ensures
        first_match(s, sep, from) == -1 || (from <= first_match(s, sep, from)
            && first_match(s, sep, from) + sep.len() <= s.len()
            && occurs_at(s, sep, first_match(s, sep, from))),
        first_match(s, sep, from) == -1 ==> forall|k: int| from <= k ==> !occurs_at(s, sep, k),
        first_match(s, sep, from) != -1 ==> forall|k: int| from <= k < first_match(s, sep, from) ==> !occurs_at(s, sep, k),
    decreases s.len() - from,
{
    if from + sep.len() <= s.len() && !occurs_at(s, sep, from) && from < s.len() {
        lemma_first_match(s, sep, from + 1);
    } else if from + sep.len() <= s.len() && !occurs_at(s, sep, from) {
        assert forall|k: int| from <= k implies !occurs_at(s, sep, k) by {
            if k > from {
            }
        }
    }
}

proof fn lemma_first_match_is(s: Seq<char>, sep: Seq<char>, from: int, k: int)
    requires
        0 <= from <= k,
        occurs_at(s, sep, k),
        forall|j: int| from <= j < k ==> !occurs_at(s, sep, j),
    ensures
        first_match(s, sep, from) == k,
    decreases k - from,
{
    if from < k {
        assert(!occurs_at(s, sep, from));
        lemma_first_match_is(s, sep, from + 1, k);
    }
}

/// `s` cut at every separator, as `str::split` cuts it.
pub open spec fn split_on(s: Seq<char>, sep: Seq<char>) -> Seq<Seq<char>>
    decreases s.len(),
{
    let k = first_match(s, sep, 0);
    if sep.len() == 0 || k < 0 {
        seq![s]
    } else {
        proof { lemma_first_match(s, sep, 0); }
        seq![s.take(k)] + split_on(s.skip(k + sep.len()), sep)
    }
}

/// `a + b` held at the top of the `u16` range.
pub open spec fn sat_add(a: u16, b: u16) -> u16 {
    if a + b > u16::MAX { u16::MAX } else { (a + b) as u16 }
}

/// The click targets for segments `i..` of a footer line, starting at column `x`.
pub open spec fn hits_from(area: Rect, parts: Seq<Seq<char>>, i: int, x: u16) -> Seq<FooterHit>
    decreases parts.len() - i,
{
    if i < 0 || i >= parts.len() {
        Seq::empty()
    } else {
        let part = parts[i];
        let sep_width: u16 = if i + 1 < parts.len() { 3 } else { 0 };
        let part_width = part.len() as u16;
        if sat_add(x, part_width) > area.width {
            Seq::empty()
        } else {
            let here = match hint_key(part) {
                Some(key) => seq![FooterHit {
                    rect: Rect { x: (area.x + x) as u16, y: area.y, width: part_width, height: 1 },
                    key,
                }],
                None => Seq::empty(),
            };
            let after = sat_add(x, part_width);
            if sat_add(after, sep_width) > area.width {
                here
            } else {
                here + hits_from(area, parts, i + 1, sat_add(after, sep_width))
            }
        }
    }
}

pub open spec fn footer_hits_of(area: Rect, line: Seq<char>) -> Seq<FooterHit> {
    if area.width == 0 || area.height == 0 {
        Seq::empty()
    } else {
        hits_from(area, split_on(line, hint_separator()), 0, 0)
    }
}

/// `line` cut at every ` · `.
fn split_hint_line(line: &[char]) -> (r: Vec<Vec<char>>)
    ensures
        r@.len() == split_on(line@, hint_separator()).len(),
        forall|i: int| 0 <= i < r@.len() ==> (#[trigger] r@[i])@ == split_on(line@, hint_separator())[i],
{
    let sep: Vec<char> = vec![' ', '·', ' '];
    assert(sep@ =~= hint_separator());
    let mut parts: Vec<Vec<char>> = Vec::new();
    let mut current: Vec<char> = Vec::new();
    let mut start: usize = 0;
    let mut at: usize = 0;
    assert(line@.skip(0) =~= line@);
    assert(parts@.map_values(|p: Vec<char>| p@) =~= Seq::<Seq<char>>::empty());
    while at < line.len()
        invariant
            sep@ == hint_separator(),
            start <= at <= line.len(),
            current@ == line@.subrange(start as int, at as int),
            forall|k: int| start <= k < at ==> !occurs_at(line@, sep@, k),
            split_on(line@, sep@) == parts@.map_values(|p: Vec<char>| p@) + split_on(line@.skip(start as int), sep@),
        decreases line.len() - at,
    {
        if occurs_at_exec(line, sep.as_slice(), at) {
            proof {
                let rest = line@.skip(start as int);
                let k = (at - start) as int;
                assert forall|j: int| 0 <= j < k implies !occurs_at(rest, sep@, j) by {
                    assert(!occurs_at(line@, sep@, start + j));
                    assert(rest.subrange(j, j + 3) =~= line@.subrange(start + j, start + j + 3));
                }
                assert(rest.subrange(k, k + 3) =~= line@.subrange(at as int, at + 3));
                lemma_first_match_is(rest, sep@, 0, k);
                assert(rest.take(k) =~= current@);
                assert(rest.skip(k + 3) =~= line@.skip(at + 3));
                assert(split_on(rest, sep@) =~= seq![current@] + split_on(line@.skip(at + 3), sep@));
            }
            let ghost before = parts@.map_values(|p: Vec<char>| p@);
            let piece = current;
            parts.push(piece);
            proof {
                assert(parts@.map_values(|p: Vec<char>| p@) =~= before.push(piece@));
            }
            current = Vec::new();
            at = at + 3;
            start = at;
            assert(current@ =~= line@.subrange(start as int, at as int));
        } else {
            current.push(line[at]);
            at = at + 1;
            assert(current@ =~= line@.subrange(start as int, at as int));
        }
    }
    proof {
        let rest = line@.skip(start as int);
        assert forall|j: int| 0 <= j implies !occurs_at(rest, sep@, j) by {
            if j + 3 <= rest.len() {
                assert(!occurs_at(line@, sep@, start + j));
                assert(rest.subrange(j, j + 3) =~= line@.subrange(start + j, start + j + 3));
            }
        }
        lemma_first_match(rest, sep@, 0);
        assert(split_on(rest, sep@) == seq![rest]);
        assert(rest =~= current@);
    }
    let ghost before = parts@.map_values(|p: Vec<char>| p@);
    let ghost last = current@;
    parts.push(current);
    assert(parts@.map_values(|p: Vec<char>| p@) =~= before.push(last));
    assert(parts@.map_values(|p: Vec<char>| p@) =~= split_on(line@, sep@));
    parts
}

/// Click targets for the footer `line` drawn in `area`: one per segment that
/// stands for a key, left to right, stopping at the first segment (or
/// separator) that would run past the edge.
pub fn layout_footer_hits(area: Rect, line: &str) -> (r: Vec<FooterHit>)
    requires
        area.on_screen(),
    ensures
        r@ == footer_hits_of(area, line@),
{
    let mut out: Vec<FooterHit> = Vec::new();
    if area.width == 0 || area.height == 0 {
        return out;
    }
    let chars = chars_of(line);
    let parts = split_hint_line(chars.as_slice());
    let ghost spec_parts = split_on(line@, hint_separator());
    let mut x: u16 = 0;
    let mut i: usize = 0;
    while i < parts.len()
        invariant_except_break
            footer_hits_of(area, line@) == out@ + hits_from(area, spec_parts, i as int, x),
        invariant
            area.on_screen(),
            area.width > 0 && area.height > 0,
            x <= area.width,
            parts@.len() == spec_parts.len(),
            forall|k: int| 0 <= k < parts@.len() ==> (#[trigger] parts@[k])@ == spec_parts[k],
            i <= parts.len(),
        ensures
            footer_hits_of(area, line@) == out@,
        decreases parts.len() - i,
    {
        let part = &parts[i];
        let sep_width: u16 = if i + 1 < parts.len() { 3 } else { 0 };
        #[verifier::truncate]
        let part_width: u16 = part.len() as u16;
        let after: u16 = if x <= u16::MAX - part_width { x + part_width } else { u16::MAX };
        if after > area.width {
            assert(hits_from(area, spec_parts, i as int, x) =~= Seq::<FooterHit>::empty());
            assert(out@ + Seq::<FooterHit>::empty() =~= out@);
            break;
        }
        let text = string_from_chars(part.as_slice());
        let ghost before = out@;
        match key_for_hint_segment(text.as_str()) {
            Some(key) => {
                out.push(FooterHit {
                    rect: Rect { x: area.x + x, y: area.y, width: part_width, height: 1 },
                    key,
                });
            },
            None => {},
        }
        let next: u16 = if after <= u16::MAX - sep_width { after + sep_width } else { u16::MAX };
        let ghost here = out@.subrange(before.len() as int, out@.len() as int);
        proof {
            assert(out@ =~= before + here);
            assert(text@ == spec_parts[i as int]);
        }
        if next > area.width {
            assert(hits_from(area, spec_parts, i as int, x) == here);
            break;
        }
        proof {
            assert(hits_from(area, spec_parts, i as int, x) == here + hits_from(area, spec_parts, i + 1, next));
            assert(before + (here + hits_from(area, spec_parts, i + 1, next)) =~= out@ + hits_from(area, spec_parts, i + 1, next));
        }
        x = next;
        i += 1;
    }
    out
}

// ---- the shown keys and the documented keys ----

/// A separator of three characters, a space on each side of a mark.
pub open spec fn spaced_mark(sep: Seq<char>) -> bool {
    sep.len() == 3 && sep[0] == ' ' && sep[2] == ' ' && sep[1] != ' '
}

/// A text with no occurrence of the mark of `sep` is not cut by it.
proof fn lemma_split_none(a: Seq<char>, sep: Seq<char>)
    requires
        spaced_mark(sep),
        forall|i: int| 0 <= i < a.len() ==> a[i] != sep[1],
    ensures
        split_on(a, sep) == seq![a],
{
    lemma_first_match(a, sep, 0);
    let k = first_match(a, sep, 0);
    if k != -1 {
        assert(a.subrange(k, k + 3)[1] == sep[1]);
        assert(a[k + 1] == sep[1]);
    }
}

/// A text that starts with a piece free of the mark, then the separator,
/// is cut right after that piece.
proof fn lemma_split_cons(a: Seq<char>, rest: Seq<char>, sep: Seq<char>)
    requires
        spaced_mark(sep),
        forall|i: int| 0 <= i < a.len() ==> a[i] != sep[1],
    ensures
        split_on(a + sep + rest, sep) == seq![a] + split_on(rest, sep),
{
    let t = a + sep + rest;
    let n = a.len() as int;
    assert(t.subrange(n, n + 3) =~= sep);
    assert forall|j: int| 0 <= j < n implies !occurs_at(t, sep, j) by {
        if occurs_at(t, sep, j) {
            assert(t.subrange(j, j + 3)[1] == sep[1]);
            assert(t[j + 1] == sep[1]);
            if j + 1 < n {
                assert(t[j + 1] == a[j + 1]);
            } else {
                assert(t[j + 1] == sep[0]);
            }
        }
    }
    lemma_first_match_is(t, sep, 0, n);
    assert(t.take(n) =~= a);
    assert(t.skip(n + 3) =~= rest);
}

/// The first word of a text is its first `n` characters when those are not
/// spaces and a space or the end follows.
proof fn lemma_word_is(s: Seq<char>, n: nat)
    requires
        n <= s.len(),
        forall|i: int| 0 <= i < n ==> !is_space(#[trigger] s[i]),
        n == s.len() || is_space(s[n as int]),
    ensures
        word_len(s) == n,
        first_word(s) == s.take(n as int),
    decreases n,
{
    if n > 0 {
        let t = s.drop_first();
        assert forall|i: int| 0 <= i < n - 1 implies !is_space(#[trigger] t[i]) by {
            assert(t[i] == s[i + 1]);
        }
        if n < s.len() {
            assert(t[n - 1] == s[n as int]);
        }
        assert(!is_space(s[0]));
        lemma_word_is(t, (n - 1) as nat);
    }
}

/// A text that neither starts nor ends with a space is its own trim.
proof fn lemma_trim_unchanged(s: Seq<char>)
    requires
        s.len() > 0,
        !is_space(s[0]),
        !is_space(s.last()),
    ensures
        trimmed(s) == s,
{
    assert(crate::text::leading_spaces(s) == 0);
    assert(s.skip(0) =~= s);
    assert(crate::text::trailing_spaces(s) == 0);
    assert(s.take(s.len() as int) =~= s);
}

pub open spec fn key_separator() -> Seq<char> {
    seq![' ', '/', ' ']
}

/// The keys a row of the keymap names: its key column cut at ` / `.
pub open spec fn key_names(keys: Seq<char>) -> Seq<Seq<char>> {
    split_on(keys, key_separator())
}

/// Every row of every keymap table, in the order the help shows them.
pub open spec fn all_bindings() -> Seq<(Seq<char>, Seq<char>)> {
    global_table() + navigation_table() + queue_table() + library_table() + devices_table() + playlists_table()
}

/// Whether `word` is a key some row of the keymap names.
pub open spec fn documented(word: Seq<char>) -> bool {
    exists|i: int, j: int|
        0 <= i < all_bindings().len() && 0 <= j < key_names(all_bindings()[i].0).len()
            && #[trigger] key_names(all_bindings()[i].0)[j] == word
}

/// A text shorter than the separator is never cut.
proof fn lemma_split_short(a: Seq<char>, sep: Seq<char>)
    requires
        spaced_mark(sep),
        a.len() < 3,
    ensures
        split_on(a, sep) == seq![a],
{
}

proof fn lemma_documented_enter()
    ensures
        documented("Enter"@),
{
    reveal_strlit("Enter");
    lemma_split_none("Enter"@, key_separator());
    assert(all_bindings()[23].0 == "Enter"@);
    assert(key_names(all_bindings()[23].0)[0] == "Enter"@);
}

proof fn lemma_documented_d()
    ensures
        documented("d"@),
{
    reveal_strlit("d / Del");
    reveal_strlit("d");
    reveal_strlit("Del");
    assert("d / Del"@ =~= "d"@ + key_separator() + "Del"@);
    lemma_split_none("Del"@, key_separator());
    lemma_split_cons("d"@, "Del"@, key_separator());
    assert(key_names("d / Del"@) =~= seq!["d"@, "Del"@]);
    assert(all_bindings()[24].0 == "d / Del"@);
    assert(key_names(all_bindings()[24].0)[0] == "d"@);
}

proof fn lemma_documented_upper_c()
    ensures
        documented("C"@),
{
    reveal_strlit("C");
    lemma_split_short("C"@, key_separator());
    assert(all_bindings()[25].0 == "C"@);
    assert(key_names(all_bindings()[25].0)[0] == "C"@);
}

proof fn lemma_documented_o()
    ensures
        documented("o"@),
{
    reveal_strlit("o");
    lemma_split_short("o"@, key_separator());
    assert(all_bindings()[26].0 == "o"@);
    assert(key_names(all_bindings()[26].0)[0] == "o"@);
}

proof fn lemma_documented_alt_left()
    ensures
        documented("Alt-←"@),
{
    reveal_strlit("Alt-← / Alt-→");
    reveal_strlit("Alt-←");
    reveal_strlit("Alt-→");
    assert("Alt-← / Alt-→"@ =~= "Alt-←"@ + key_separator() + "Alt-→"@);
    lemma_split_none("Alt-→"@, key_separator());
    lemma_split_cons("Alt-←"@, "Alt-→"@, key_separator());
    assert(key_names("Alt-← / Alt-→"@) =~= seq!["Alt-←"@, "Alt-→"@]);
    assert(all_bindings()[14].0 == "Alt-← / Alt-→"@);
    assert(key_names(all_bindings()[14].0)[0] == "Alt-←"@);
}

proof fn lemma_documented_bracket()
    ensures
        documented("]"@),
{
    reveal_strlit("]");
    lemma_split_short("]"@, key_separator());
    assert(all_bindings()[12].0 == "]"@);
    assert(key_names(all_bindings()[12].0)[0] == "]"@);
}

proof fn lemma_documented_question()
    ensures
        documented("?"@),
{
    reveal_strlit("?");
    lemma_split_short("?"@, key_separator());
    assert(all_bindings()[17].0 == "?"@);
    assert(key_names(all_bindings()[17].0)[0] == "?"@);
}

proof fn lemma_documented_slash()
    ensures
        documented("/"@),
{
    reveal_strlit("/");
    lemma_split_short("/"@, key_separator());
    assert(all_bindings()[27].0 == "/"@);
    assert(key_names(all_bindings()[27].0)[0] == "/"@);
}

proof fn lemma_documented_a()
    ensures
        documented("a"@),
{
    reveal_strlit("a");
    lemma_split_short("a"@, key_separator());
    assert(all_bindings()[29].0 == "a"@);
    assert(key_names(all_bindings()[29].0)[0] == "a"@);
}

proof fn lemma_documented_i()
    ensures
        documented("i"@),
{
    reveal_strlit("i");
    lemma_split_short("i"@, key_separator());
    assert(all_bindings()[15].0 == "i"@);
    assert(key_names(all_bindings()[15].0)[0] == "i"@);
}

proof fn lemma_documented_upper_p()
    ensures
        documented("P"@),
{
    reveal_strlit("P");
    lemma_split_short("P"@, key_separator());
    assert(all_bindings()[4].0 == "P"@);
    assert(key_names(all_bindings()[4].0)[0] == "P"@);
}

proof fn lemma_documented_comma()
    ensures
        documented(","@),
{
    reveal_strlit(",");
    lemma_split_short(","@, key_separator());
    assert(all_bindings()[16].0 == ","@);
    assert(key_names(all_bindings()[16].0)[0] == ","@);
}

proof fn lemma_documented_upper_r()
    ensures
        documented("R"@),
{
    reveal_strlit("R");
    lemma_split_short("R"@, key_separator());
    assert(all_bindings()[34].0 == "R"@);
    assert(key_names(all_bindings()[34].0)[0] == "R"@);
}

proof fn lemma_documented_esc()
    ensures
        documented("Esc"@),
{
    reveal_strlit("Esc");
    lemma_split_none("Esc"@, key_separator());
    assert(all_bindings()[35].0 == "Esc"@);
    assert(key_names(all_bindings()[35].0)[0] == "Esc"@);
}

proof fn lemma_documented_space()
    ensures
        documented("Space"@),
{
    reveal_strlit("Space");
    lemma_split_none("Space"@, key_separator());
    assert(all_bindings()[0].0 == "Space"@);
    assert(key_names(all_bindings()[0].0)[0] == "Space"@);
}

proof fn lemma_documented_w()
    ensures
        documented("w"@),
{
    reveal_strlit("w");
    lemma_split_short("w"@, key_separator());
    assert(all_bindings()[38].0 == "w"@);
    assert(key_names(all_bindings()[38].0)[0] == "w"@);
}

proof fn lemma_documented_q()
    ensures
        documented("q"@),
{
    reveal_strlit("q");
    lemma_split_short("q"@, key_separator());
    assert(all_bindings()[18].0 == "q"@);
    assert(key_names(all_bindings()[18].0)[0] == "q"@);
}

proof fn lemma_hints_queue()
    ensures
        forall|i: int| 0 <= i < split_on("Enter play · d remove · C clear · o jump · Alt-← / Alt-→ pan · ] close · ? help"@, hint_separator()).len()
            ==> documented(first_word(trimmed(#[trigger] split_on("Enter play · d remove · C clear · o jump · Alt-← / Alt-→ pan · ] close · ? help"@, hint_separator())[i]))),
{
    reveal_strlit("Enter play · d remove · C clear · o jump · Alt-← / Alt-→ pan · ] close · ? help");
    reveal_strlit("Enter play");
    reveal_strlit("d remove");
    reveal_strlit("C clear");
    reveal_strlit("o jump");
    reveal_strlit("Alt-← / Alt-→ pan");
    reveal_strlit("] close");
    reveal_strlit("? help");
    let sep = hint_separator();
    let r6 = "? help"@;
    let r5 = "] close"@ + sep + r6;
    let r4 = "Alt-← / Alt-→ pan"@ + sep + r5;
    let r3 = "o jump"@ + sep + r4;
    let r2 = "C clear"@ + sep + r3;
    let r1 = "d remove"@ + sep + r2;
    let r0 = "Enter play"@ + sep + r1;
    assert("Enter play · d remove · C clear · o jump · Alt-← / Alt-→ pan · ] close · ? help"@ =~= r0);
    lemma_split_none(r6, sep);
    lemma_split_cons("] close"@, r6, sep);
    lemma_split_cons("Alt-← / Alt-→ pan"@, r5, sep);
    lemma_split_cons("o jump"@, r4, sep);
    lemma_split_cons("C clear"@, r3, sep);
    lemma_split_cons("d remove"@, r2, sep);
    lemma_split_cons("Enter play"@, r1, sep);
    let parts = seq!["Enter play"@, "d remove"@, "C clear"@, "o jump"@, "Alt-← / Alt-→ pan"@, "] close"@, "? help"@];
    assert(split_on("Enter play · d remove · C clear · o jump · Alt-← / Alt-→ pan · ] close · ? help"@, sep) =~= parts);
    lemma_trim_unchanged("Enter play"@);
    lemma_word_is("Enter play"@, 5);
    reveal_strlit("Enter");
    assert("Enter play"@.take(5) =~= "Enter"@);
    lemma_documented_enter();
    assert(documented(first_word(trimmed(parts[0]))));
    lemma_trim_unchanged("d remove"@);
    lemma_word_is("d remove"@, 1);
    reveal_strlit("d");
    assert("d remove"@.take(1) =~= "d"@);
    lemma_documented_d();
    assert(documented(first_word(trimmed(parts[1]))));
    lemma_trim_unchanged("C clear"@);
    lemma_word_is("C clear"@, 1);
    reveal_strlit("C");
    assert("C clear"@.take(1) =~= "C"@);
    lemma_documented_upper_c();
    assert(documented(first_word(trimmed(parts[2]))));
    lemma_trim_unchanged("o jump"@);
    lemma_word_is("o jump"@, 1);
    reveal_strlit("o");
    assert("o jump"@.take(1) =~= "o"@);
    lemma_documented_o();
    assert(documented(first_word(trimmed(parts[3]))));
    lemma_trim_unchanged("Alt-← / Alt-→ pan"@);
    lemma_word_is("Alt-← / Alt-→ pan"@, 5);
    reveal_strlit("Alt-←");
    assert("Alt-← / Alt-→ pan"@.take(5) =~= "Alt-←"@);
    lemma_documented_alt_left();
    assert(documented(first_word(trimmed(parts[4]))));
    lemma_trim_unchanged("] close"@);
    lemma_word_is("] close"@, 1);
    reveal_strlit("]");
    assert("] close"@.take(1) =~= "]"@);
    lemma_documented_bracket();
    assert(documented(first_word(trimmed(parts[5]))));
    lemma_trim_unchanged("? help"@);
    lemma_word_is("? help"@, 1);
    reveal_strlit("?");
    assert("? help"@.take(1) =~= "?"@);
    lemma_documented_question();
    assert(documented(first_word(trimmed(parts[6]))));
}

proof fn lemma_hints_library()
    ensures
        forall|i: int| 0 <= i < split_on("/ search · a add · ] queue · i inspect · P · Alt-← / Alt-→ pan · , devices · ? help"@, hint_separator()).len()
            ==> documented(first_word(trimmed(#[trigger] split_on("/ search · a add · ] queue · i inspect · P · Alt-← / Alt-→ pan · , devices · ? help"@, hint_separator())[i]))),
{
    reveal_strlit("/ search · a add · ] queue · i inspect · P · Alt-← / Alt-→ pan · , devices · ? help");
    reveal_strlit("/ search");
    reveal_strlit("a add");
    reveal_strlit("] queue");
    reveal_strlit("i inspect");
    reveal_strlit("P");
    reveal_strlit("Alt-← / Alt-→ pan");
    reveal_strlit(", devices");
    reveal_strlit("? help");
    let sep = hint_separator();
    let r7 = "? help"@;
    let r6 = ", devices"@ + sep + r7;
    let r5 = "Alt-← / Alt-→ pan"@ + sep + r6;
    let r4 = "P"@ + sep + r5;
    let r3 = "i inspect"@ + sep + r4;
    let r2 = "] queue"@ + sep + r3;
    let r1 = "a add"@ + sep + r2;
    let r0 = "/ search"@ + sep + r1;
    assert("/ search · a add · ] queue · i inspect · P · Alt-← / Alt-→ pan · , devices · ? help"@ =~= r0);
    lemma_split_none(r7, sep);
    lemma_split_cons(", devices"@, r7, sep);
    lemma_split_cons("Alt-← / Alt-→ pan"@, r6, sep);
    lemma_split_cons("P"@, r5, sep);
    lemma_split_cons("i inspect"@, r4, sep);
    lemma_split_cons("] queue"@, r3, sep);
    lemma_split_cons("a add"@, r2, sep);
    lemma_split_cons("/ search"@, r1, sep);
    let parts = seq!["/ search"@, "a add"@, "] queue"@, "i inspect"@, "P"@, "Alt-← / Alt-→ pan"@, ", devices"@, "? help"@];
    assert(split_on("/ search · a add · ] queue · i inspect · P · Alt-← / Alt-→ pan · , devices · ? help"@, sep) =~= parts);
    lemma_trim_unchanged("/ search"@);
    lemma_word_is("/ search"@, 1);
    reveal_strlit("/");
    assert("/ search"@.take(1) =~= "/"@);
    lemma_documented_slash();
    assert(documented(first_word(trimmed(parts[0]))));
    lemma_trim_unchanged("a add"@);
    lemma_word_is("a add"@, 1);
    reveal_strlit("a");
    assert("a add"@.take(1) =~= "a"@);
    lemma_documented_a();
    assert(documented(first_word(trimmed(parts[1]))));
    lemma_trim_unchanged("] queue"@);
    lemma_word_is("] queue"@, 1);
    reveal_strlit("]");
    assert("] queue"@.take(1) =~= "]"@);
    lemma_documented_bracket();
    assert(documented(first_word(trimmed(parts[2]))));
    lemma_trim_unchanged("i inspect"@);
    lemma_word_is("i inspect"@, 1);
    reveal_strlit("i");
    assert("i inspect"@.take(1) =~= "i"@);
    lemma_documented_i();
    assert(documented(first_word(trimmed(parts[3]))));
    lemma_trim_unchanged("P"@);
    lemma_word_is("P"@, 1);
    assert("P"@.take(1) =~= "P"@);
    lemma_documented_upper_p();
    assert(documented(first_word(trimmed(parts[4]))));
    lemma_trim_unchanged("Alt-← / Alt-→ pan"@);
    lemma_word_is("Alt-← / Alt-→ pan"@, 5);
    reveal_strlit("Alt-←");
    assert("Alt-← / Alt-→ pan"@.take(5) =~= "Alt-←"@);
    lemma_documented_alt_left();
    assert(documented(first_word(trimmed(parts[5]))));
    lemma_trim_unchanged(", devices"@);
    lemma_word_is(", devices"@, 1);
    reveal_strlit(",");
    assert(", devices"@.take(1) =~= ","@);
    lemma_documented_comma();
    assert(documented(first_word(trimmed(parts[6]))));
    lemma_trim_unchanged("? help"@);
    lemma_word_is("? help"@, 1);
    reveal_strlit("?");
    assert("? help"@.take(1) =~= "?"@);
    lemma_documented_question();
    assert(documented(first_word(trimmed(parts[7]))));
}

proof fn lemma_hints_devices()
    ensures
        forall|i: int| 0 <= i < split_on("Enter select · R rescan · Esc close · ? help"@, hint_separator()).len()
            ==> documented(first_word(trimmed(#[trigger] split_on("Enter select · R rescan · Esc close · ? help"@, hint_separator())[i]))),
{
    reveal_strlit("Enter select · R rescan · Esc close · ? help");
    reveal_strlit("Enter select");
    reveal_strlit("R rescan");
    reveal_strlit("Esc close");
    reveal_strlit("? help");
    let sep = hint_separator();
    let r3 = "? help"@;
    let r2 = "Esc close"@ + sep + r3;
    let r1 = "R rescan"@ + sep + r2;
    let r0 = "Enter select"@ + sep + r1;
    assert("Enter select · R rescan · Esc close · ? help"@ =~= r0);
    lemma_split_none(r3, sep);
    lemma_split_cons("Esc close"@, r3, sep);
    lemma_split_cons("R rescan"@, r2, sep);
    lemma_split_cons("Enter select"@, r1, sep);
    let parts = seq!["Enter select"@, "R rescan"@, "Esc close"@, "? help"@];
    assert(split_on("Enter select · R rescan · Esc close · ? help"@, sep) =~= parts);
    lemma_trim_unchanged("Enter select"@);
    lemma_word_is("Enter select"@, 5);
    reveal_strlit("Enter");
    assert("Enter select"@.take(5) =~= "Enter"@);
    lemma_documented_enter();
    assert(documented(first_word(trimmed(parts[0]))));
    lemma_trim_unchanged("R rescan"@);
    lemma_word_is("R rescan"@, 1);
    reveal_strlit("R");
    assert("R rescan"@.take(1) =~= "R"@);
    lemma_documented_upper_r();
    assert(documented(first_word(trimmed(parts[1]))));
    lemma_trim_unchanged("Esc close"@);
    lemma_word_is("Esc close"@, 3);
    reveal_strlit("Esc");
    assert("Esc close"@.take(3) =~= "Esc"@);
    lemma_documented_esc();
    assert(documented(first_word(trimmed(parts[2]))));
    lemma_trim_unchanged("? help"@);
    lemma_word_is("? help"@, 1);
    reveal_strlit("?");
    assert("? help"@.take(1) =~= "?"@);
    lemma_documented_question();
    assert(documented(first_word(trimmed(parts[3]))));
}

proof fn lemma_hints_inspector()
    ensures
        forall|i: int| 0 <= i < split_on("i / Esc close · Space pause · ? help"@, hint_separator()).len()
            ==> documented(first_word(trimmed(#[trigger] split_on("i / Esc close · Space pause · ? help"@, hint_separator())[i]))),
{
    reveal_strlit("i / Esc close · Space pause · ? help");
    reveal_strlit("i / Esc close");
    reveal_strlit("Space pause");
    reveal_strlit("? help");
    let sep = hint_separator();
    let r2 = "? help"@;
    let r1 = "Space pause"@ + sep + r2;
    let r0 = "i / Esc close"@ + sep + r1;
    assert("i / Esc close · Space pause · ? help"@ =~= r0);
    lemma_split_none(r2, sep);
    lemma_split_cons("Space pause"@, r2, sep);
    lemma_split_cons("i / Esc close"@, r1, sep);
    let parts = seq!["i / Esc close"@, "Space pause"@, "? help"@];
    assert(split_on("i / Esc close · Space pause · ? help"@, sep) =~= parts);
    lemma_trim_unchanged("i / Esc close"@);
    lemma_word_is("i / Esc close"@, 1);
    reveal_strlit("i");
    assert("i / Esc close"@.take(1) =~= "i"@);
    lemma_documented_i();
    assert(documented(first_word(trimmed(parts[0]))));
    lemma_trim_unchanged("Space pause"@);
    lemma_word_is("Space pause"@, 5);
    reveal_strlit("Space");
    assert("Space pause"@.take(5) =~= "Space"@);
    lemma_documented_space();
    assert(documented(first_word(trimmed(parts[1]))));
    lemma_trim_unchanged("? help"@);
    lemma_word_is("? help"@, 1);
    reveal_strlit("?");
    assert("? help"@.take(1) =~= "?"@);
    lemma_documented_question();
    assert(documented(first_word(trimmed(parts[2]))));
}

proof fn lemma_hints_playlists()
    ensures
        forall|i: int| 0 <= i < split_on("Enter play · a add · w save · Esc close · ? help"@, hint_separator()).len()
            ==> documented(first_word(trimmed(#[trigger] split_on("Enter play · a add · w save · Esc close · ? help"@, hint_separator())[i]))),
{
    reveal_strlit("Enter play · a add · w save · Esc close · ? help");
    reveal_strlit("Enter play");
    reveal_strlit("a add");
    reveal_strlit("w save");
    reveal_strlit("Esc close");
    reveal_strlit("? help");
    let sep = hint_separator();
    let r4 = "? help"@;
    let r3 = "Esc close"@ + sep + r4;
    let r2 = "w save"@ + sep + r3;
    let r1 = "a add"@ + sep + r2;
    let r0 = "Enter play"@ + sep + r1;
    assert("Enter play · a add · w save · Esc close · ? help"@ =~= r0);
    lemma_split_none(r4, sep);
    lemma_split_cons("Esc close"@, r4, sep);
    lemma_split_cons("w save"@, r3, sep);
    lemma_split_cons("a add"@, r2, sep);
    lemma_split_cons("Enter play"@, r1, sep);
    let parts = seq!["Enter play"@, "a add"@, "w save"@, "Esc close"@, "? help"@];
    assert(split_on("Enter play · a add · w save · Esc close · ? help"@, sep) =~= parts);
    lemma_trim_unchanged("Enter play"@);
    lemma_word_is("Enter play"@, 5);
    reveal_strlit("Enter");
    assert("Enter play"@.take(5) =~= "Enter"@);
    lemma_documented_enter();
    assert(documented(first_word(trimmed(parts[0]))));
    lemma_trim_unchanged("a add"@);
    lemma_word_is("a add"@, 1);
    reveal_strlit("a");
    assert("a add"@.take(1) =~= "a"@);
    lemma_documented_a();
    assert(documented(first_word(trimmed(parts[1]))));
    lemma_trim_unchanged("w save"@);
    lemma_word_is("w save"@, 1);
    reveal_strlit("w");
    assert("w save"@.take(1) =~= "w"@);
    lemma_documented_w();
    assert(documented(first_word(trimmed(parts[2]))));
    lemma_trim_unchanged("Esc close"@);
    lemma_word_is("Esc close"@, 3);
    reveal_strlit("Esc");
    assert("Esc close"@.take(3) =~= "Esc"@);
    lemma_documented_esc();
    assert(documented(first_word(trimmed(parts[3]))));
    lemma_trim_unchanged("? help"@);
    lemma_word_is("? help"@, 1);
    reveal_strlit("?");
    assert("? help"@.take(1) =~= "?"@);
    lemma_documented_question();
    assert(documented(first_word(trimmed(parts[4]))));
}

proof fn lemma_hints_fallback()
    ensures
        forall|i: int| 0 <= i < split_on("] queue · ? help · q quit"@, hint_separator()).len()
            ==> documented(first_word(trimmed(#[trigger] split_on("] queue · ? help · q quit"@, hint_separator())[i]))),
{
    reveal_strlit("] queue · ? help · q quit");
    reveal_strlit("] queue");
    reveal_strlit("? help");
    reveal_strlit("q quit");
    let sep = hint_separator();
    let r2 = "q quit"@;
    let r1 = "? help"@ + sep + r2;
    let r0 = "] queue"@ + sep + r1;
    assert("] queue · ? help · q quit"@ =~= r0);
    lemma_split_none(r2, sep);
    lemma_split_cons("? help"@, r2, sep);
    lemma_split_cons("] queue"@, r1, sep);
    let parts = seq!["] queue"@, "? help"@, "q quit"@];
    assert(split_on("] queue · ? help · q quit"@, sep) =~= parts);
    lemma_trim_unchanged("] queue"@);
    lemma_word_is("] queue"@, 1);
    reveal_strlit("]");
    assert("] queue"@.take(1) =~= "]"@);
    lemma_documented_bracket();
    assert(documented(first_word(trimmed(parts[0]))));
    lemma_trim_unchanged("? help"@);
    lemma_word_is("? help"@, 1);
    reveal_strlit("?");
    assert("? help"@.take(1) =~= "?"@);
    lemma_documented_question();
    assert(documented(first_word(trimmed(parts[1]))));
    lemma_trim_unchanged("q quit"@);
    lemma_word_is("q quit"@, 1);
    reveal_strlit("q");
    assert("q quit"@.take(1) =~= "q"@);
    lemma_documented_q();
    assert(documented(first_word(trimmed(parts[2]))));
}

/// Every segment of every footer hint line starts with a key that the
/// keymap documents, so the shown keys and the documented keys cannot drift
/// apart; and every line points at the help.
pub proof fn footer_hints_show_documented_keys(pane: Seq<char>)
    ensures
        forall|i: int| 0 <= i < split_on(hint_line(pane), hint_separator()).len()
            ==> documented(first_word(trimmed(#[trigger] split_on(hint_line(pane), hint_separator())[i]))),
        has_char(hint_line(pane), '?'),
{
    lemma_hints_queue();
    lemma_hints_library();
    lemma_hints_devices();
    lemma_hints_inspector();
    lemma_hints_playlists();
    lemma_hints_fallback();
    crate::keys::every_hint_line_mentions_help(pane);
}

} // verus!
