//! One-line text with a caret.
//!
//! Every prompt (library search, playlist save/rename/copy, radio name and
//! URL) shares this buffer so Left/Right/Home/End/Backspace/Delete behave the
//! same everywhere.

use vstd::prelude::*;
use crate::input::{KeyCode, KeyEvent};
use crate::text::{owned, push_char};

verus! {

/// `text` with `c` placed before character `at`.
pub open spec fn inserted(text: Seq<char>, at: int, c: char) -> Seq<char> {
    text.take(at).push(c) + text.skip(at)
}

/// `text` without the character at `at`.
pub open spec fn removed(text: Seq<char>, at: int) -> Seq<char> {
    text.take(at) + text.skip(at + 1)
}

/// What an editing key does to (text, caret), when it is one.
pub open spec fn edit_key(text: Seq<char>, caret: nat, key: KeyEvent) -> Option<(Seq<char>, nat)> {
    if key.modifiers.control || key.modifiers.alt {
        None
    } else {
        match key.code {
            KeyCode::Left => Some((text, if caret == 0 { 0 } else { (caret - 1) as nat })),
            KeyCode::Right => Some((text, if caret < text.len() { caret + 1 } else { caret })),
            KeyCode::Home => Some((text, 0)),
            KeyCode::End => Some((text, text.len())),
            KeyCode::Backspace => Some(
                if caret == 0 { (text, caret) } else { (removed(text, caret - 1), (caret - 1) as nat) },
            ),
            KeyCode::Delete => Some(
                if caret >= text.len() { (text, caret) } else { (removed(text, caret as int), caret) },
            ),
            KeyCode::Char(c) => Some((inserted(text, caret as int, c), caret + 1)),
            _ => None,
        }
    }
}

#[derive(Debug, PartialEq, Eq)]
pub struct LineEdit {
    text: String,
    /// Caret as a count of Unicode scalar values from the start.
    cursor: usize,
}

impl View for LineEdit {
    /// The text and the caret position in characters.
    type V = (Seq<char>, nat);

    closed spec fn view(&self) -> (Seq<char>, nat) {
        (self.text@, self.cursor as nat)
    }
}

impl LineEdit {
    #[verifier::type_invariant]
    spec fn caret_inside(self) -> bool {
        self.cursor <= self.text@.len()
    }

    pub fn new() -> (r: Self)
        ensures
            r@.0 == Seq::<char>::empty(),
            r@.1 == 0,
    {
        LineEdit { text: String::new(), cursor: 0 }
    }

    /// A buffer holding `text`, caret at the end.
    pub fn from_text(text: &str) -> (r: Self)
        ensures
            r@.0 == text@,
            r@.1 == text@.len(),
    {
        let cursor = text.unicode_len();
        LineEdit { text: owned(text), cursor }
    }

    pub fn as_str(&self) -> (r: &str)
        ensures
            r@ == self@.0,
    {
        self.text.as_str()
    }

    /// Characters in the buffer.
    pub fn len(&self) -> (r: usize)
        ensures
            r == self@.0.len(),
    {
        self.text.as_str().unicode_len()
    }

    /// The caret, in characters from the start.
    pub fn cursor(&self) -> (r: usize)
        ensures
            r == self@.1,
    {
        self.cursor
    }

    pub fn insert(&mut self, c: char)
        requires
            old(self)@.0.len() < usize::MAX,
        ensures
            final(self)@.0 == inserted(old(self)@.0, old(self)@.1 as int, c),
            final(self)@.1 == old(self)@.1 + 1,
    {
        proof { use_type_invariant(&*self); }
        let n = self.text.as_str().unicode_len();
        let at = self.cursor;
        let before = self.text.as_str().substring_char(0, at);
        let after = self.text.as_str().substring_char(at, n);
        let mut text = owned(before);
        push_char(&mut text, c);
        text.append(after);
        assert(text@ =~= inserted(self.text@, at as int, c));
        *self = LineEdit { text, cursor: at + 1 };
    }

    pub fn backspace(&mut self)
        ensures
            old(self)@.1 == 0 ==> final(self)@ == old(self)@,
            old(self)@.1 > 0 ==> final(self)@.0 == removed(old(self)@.0, old(self)@.1 - 1)
                && final(self)@.1 == old(self)@.1 - 1,
    {
        proof { use_type_invariant(&*self); }
        if self.cursor == 0 {
            return;
        }
        let at = self.cursor - 1;
        let text = self.without(at);
        *self = LineEdit { text, cursor: at };
    }

    pub fn delete(&mut self)
        ensures
            old(self)@.1 >= old(self)@.0.len() ==> final(self)@ == old(self)@,
            old(self)@.1 < old(self)@.0.len() ==> final(self)@.0 == removed(old(self)@.0, old(self)@.1 as int)
                && final(self)@.1 == old(self)@.1,
    {
        proof { use_type_invariant(&*self); }
        let n = self.text.as_str().unicode_len();
        if self.cursor >= n {
            return;
        }
        let at = self.cursor;
        let text = self.without(at);
        *self = LineEdit { text, cursor: at };
    }

    pub fn left(&mut self)
        ensures
            final(self)@.0 == old(self)@.0,
            final(self)@.1 == if old(self)@.1 == 0 { 0 } else { (old(self)@.1 - 1) as nat },
    {
        proof { use_type_invariant(&*self); }
        if self.cursor > 0 {
            self.cursor = self.cursor - 1;
        }
    }

    pub fn right(&mut self)
        ensures
            final(self)@.0 == old(self)@.0,
            final(self)@.1 == if old(self)@.1 < old(self)@.0.len() { old(self)@.1 + 1 } else { old(self)@.1 },
    {
        proof { use_type_invariant(&*self); }
        let n = self.text.as_str().unicode_len();
        if self.cursor < n {
            self.cursor = self.cursor + 1;
        }
    }

    pub fn home(&mut self)
        ensures
            final(self)@.0 == old(self)@.0,
            final(self)@.1 == 0,
    {
        self.cursor = 0;
    }

    pub fn end(&mut self)
        ensures
            final(self)@.0 == old(self)@.0,
            final(self)@.1 == old(self)@.0.len(),
    {
        let n = self.text.as_str().unicode_len();
        self.cursor = n;
    }

    /// Apply a key that edits the line. Esc and Enter are left to the caller.
    ///
    /// Returns whether the key changed the buffer or the caret.
    pub fn on_key(&mut self, key: KeyEvent) -> (handled: bool)
        requires
            old(self)@.0.len() < usize::MAX,
        ensures
            handled == (edit_key(old(self)@.0, old(self)@.1, key) matches Some(e) && e != old(self)@),
            edit_key(old(self)@.0, old(self)@.1, key) is Some ==> final(self)@ == edit_key(old(self)@.0, old(self)@.1, key).unwrap(),
            edit_key(old(self)@.0, old(self)@.1, key) is None ==> final(self)@ == old(self)@,
    {
        proof { use_type_invariant(&*self); }
        if key.modifiers.control || key.modifiers.alt {
            return false;
        }
        let len = self.text.as_str().unicode_len();
        let at_start = self.cursor == 0;
        let at_end = self.cursor >= len;
        match key.code {
            KeyCode::Left => {
                self.left();
                !at_start
            },
            KeyCode::Right => {
                self.right();
                !at_end
            },
            KeyCode::Home => {
                self.home();
                !at_start
            },
            KeyCode::End => {
                self.end();
                !at_end
            },
            KeyCode::Backspace => {
                self.backspace();
                proof {
                    if !at_start {
                        assert(self@.0.len() < old(self)@.0.len());
                    }
                }
                !at_start
            },
            KeyCode::Delete => {
                self.delete();
                proof {
                    if !at_end {
                        assert(self@.0.len() < old(self)@.0.len());
                    }
                }
                !at_end
            },
            KeyCode::Char(c) => {
                self.insert(c);
                proof {
                    assert(self@.0.len() == old(self)@.0.len() + 1);
                }
                true
            },
            _ => false,
        }
    }

    /// Text before and after the caret, for drawing `█` in the middle.
    pub fn split_at_cursor(&self) -> (r: (&str, &str))
        ensures
            r.0@ == self@.0.take(self@.1 as int),
            r.1@ == self@.0.skip(self@.1 as int),
    {
        proof { use_type_invariant(self); }
        let n = self.text.as_str().unicode_len();
        let before = self.text.as_str().substring_char(0, self.cursor);
        let after = self.text.as_str().substring_char(self.cursor, n);
        (before, after)
    }

    /// The text with the character at `at` left out.
    fn without(&self, at: usize) -> (r: String)
        requires
            at < self@.0.len(),
        ensures
            r@ == removed(self@.0, at as int),
    {
        let n = self.text.as_str().unicode_len();
        let before = self.text.as_str().substring_char(0, at);
        let after = self.text.as_str().substring_char(at + 1, n);
        let mut text = owned(before);
        text.append(after);
        assert(text@ =~= removed(self.text@, at as int));
        text
    }
}

impl Clone for LineEdit {
    fn clone(&self) -> (r: Self)
        ensures
            r@ == self@,
    {
        proof { use_type_invariant(self); }
        LineEdit { text: owned(self.text.as_str()), cursor: self.cursor }
    }
}

impl Default for LineEdit {
    fn default() -> (r: Self)
        ensures
            r@.0 == Seq::<char>::empty(),
            r@.1 == 0,
    {
        Self::new()
    }
}

} // verus!

verus! {

/// Backspace right after typing a character takes the buffer back to where it was.
pub proof fn backspace_undoes_insert(text: Seq<char>, caret: nat, c: char)
    requires
        caret <= text.len(),
    ensures
        ({
            let typed = edit_key(text, caret, KeyEvent { code: KeyCode::Char(c), modifiers: crate::input::KeyModifiers { control: false, alt: false, shift: false } });
            &&& typed is Some
            &&& edit_key(typed.unwrap().0, typed.unwrap().1, KeyEvent { code: KeyCode::Backspace, modifiers: crate::input::KeyModifiers { control: false, alt: false, shift: false } })
                == Some((text, caret))
        }),
{
    let t2 = inserted(text, caret as int, c);
    assert(removed(t2, caret as int) =~= text);
}

/// A typed character lands at the caret, and the caret moves just past it:
/// what was before the caret is followed by the character, and what was
/// after it stays after it. Backspace at the very start changes nothing.
pub proof fn typing_lands_at_the_caret(text: Seq<char>, caret: nat, c: char)
    requires
        caret <= text.len(),
    ensures
        ({
            let plain = crate::input::KeyModifiers { control: false, alt: false, shift: false };
            let typed = edit_key(text, caret, KeyEvent { code: KeyCode::Char(c), modifiers: plain });
            &&& typed is Some
            &&& typed.unwrap().0 == text.take(caret as int).push(c) + text.skip(caret as int)
            &&& typed.unwrap().0.take(typed.unwrap().1 as int) == text.take(caret as int).push(c)
            &&& typed.unwrap().0.skip(typed.unwrap().1 as int) == text.skip(caret as int)
            &&& edit_key(text, 0, KeyEvent { code: KeyCode::Backspace, modifiers: plain }) == Some((text, 0nat))
        }),
{
    let t2 = inserted(text, caret as int, c);
    assert(t2.take(caret + 1int) =~= text.take(caret as int).push(c));
    assert(t2.skip(caret + 1int) =~= text.skip(caret as int));
}

/// Moving the caret never changes the text, and it stays inside the text.
pub proof fn caret_moves_keep_the_text(text: Seq<char>, caret: nat, key: KeyEvent)
    requires
        caret <= text.len(),
        key.code is Left || key.code is Right || key.code is Home || key.code is End,
        !key.modifiers.control && !key.modifiers.alt,
    ensures
        edit_key(text, caret, key) is Some,
        edit_key(text, caret, key).unwrap().0 == text,
        edit_key(text, caret, key).unwrap().1 <= text.len(),
        key.code is Right ==> edit_key(text, caret, key).unwrap().1 == if caret + 1 <= text.len() {
            caret + 1
        } else {
            text.len()
        },
{
}

/// Every edit leaves the caret inside the text.
pub proof fn edits_keep_the_caret_inside(text: Seq<char>, caret: nat, key: KeyEvent)
    requires
        caret <= text.len(),
        edit_key(text, caret, key) is Some,
    ensures
        edit_key(text, caret, key).unwrap().1 <= edit_key(text, caret, key).unwrap().0.len(),
{
}

} // verus!
