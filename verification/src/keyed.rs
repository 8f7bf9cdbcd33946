//! A small map keyed by text, for the browser's per-album caches.
//!
//! It holds a handful of entries at a time, so a vector searched front to back
//! serves; its meaning is the `Map` from each key's characters to its value.

use vstd::prelude::*;
use crate::text::same_text;

verus! {

/// The value filed under `key`: the first entry with that key.
pub open spec fn lookup<V>(entries: Seq<(String, V)>, key: Seq<char>) -> Option<V>
    decreases entries.len(),
{
    if entries.len() == 0 {
        None
    } else if entries[0].0@ == key {
        Some(entries[0].1)
    } else {
        lookup(entries.drop_first(), key)
    }
}

pub open spec fn as_map<V>(entries: Seq<(String, V)>) -> Map<Seq<char>, V> {
    Map::new(|k: Seq<char>| lookup(entries, k) is Some, |k: Seq<char>| lookup(entries, k).unwrap())
}

/// Keeps the entries not filed under `key`.
pub open spec fn other_key<V>(key: Seq<char>) -> spec_fn((String, V)) -> bool {
    |e: (String, V)| e.0@ != key
}

/// Entries other than those filed under `key`, in order.
pub open spec fn without_key<V>(entries: Seq<(String, V)>, key: Seq<char>) -> Seq<(String, V)> {
    entries.filter(other_key::<V>(key))
}

proof fn lemma_lookup_without<V>(entries: Seq<(String, V)>, key: Seq<char>, k: Seq<char>)
    ensures
        lookup(without_key(entries, key), k) == if k == key { None } else { lookup(entries, k) },
    decreases entries.len(),
{
    reveal(Seq::filter);
    let f = other_key::<V>(key);
    if entries.len() > 0 {
        let rest = entries.drop_first();
        lemma_lookup_without(rest, key, k);
        let head = seq![entries[0]];
        assert(entries =~= head + rest);
        Seq::filter_distributes_over_add(head, rest, f);
        assert(head.drop_last() =~= Seq::<(String, V)>::empty());
        assert(Seq::<(String, V)>::empty().filter(f) =~= Seq::<(String, V)>::empty());
        if f(entries[0]) {
            assert(head.filter(f) =~= head);
            let w = head + rest.filter(f);
            assert(w[0] == entries[0]);
            assert(w.drop_first() =~= rest.filter(f));
        } else {
            assert(head.filter(f) =~= Seq::<(String, V)>::empty());
            assert(Seq::<(String, V)>::empty() + rest.filter(f) =~= rest.filter(f));
        }
    } else {
        assert(entries.filter(f) =~= entries);
    }
}

proof fn lemma_lookup_push<V>(entries: Seq<(String, V)>, key: String, value: V, k: Seq<char>)
    requires
        lookup(entries, key@) is None,
    ensures
        lookup(entries.push((key, value)), k) == if k == key@ { Some(value) } else { lookup(entries, k) },
    decreases entries.len(),
{
    let pushed = entries.push((key, value));
    if entries.len() > 0 {
        assert(pushed[0] == entries[0]);
        assert(entries[0].0@ != key@);
        if entries[0].0@ == k {
            assert(lookup(pushed, k) == Some(entries[0].1));
            assert(lookup(entries, k) == Some(entries[0].1));
        } else {
            assert(lookup(entries.drop_first(), key@) is None);
            lemma_lookup_push(entries.drop_first(), key, value, k);
            assert(pushed.drop_first() =~= entries.drop_first().push((key, value)));
            assert(lookup(pushed, k) == lookup(pushed.drop_first(), k));
            assert(lookup(entries, k) == lookup(entries.drop_first(), k));
        }
    } else {
        assert(pushed[0] == (key, value));
        assert(pushed.drop_first() =~= Seq::<(String, V)>::empty());
        assert(lookup(pushed.drop_first(), k) is None);
    }
}

pub struct TextMap<V> {
    entries: Vec<(String, V)>,
}

impl<V> View for TextMap<V> {
    type V = Map<Seq<char>, V>;

    closed spec fn view(&self) -> Map<Seq<char>, V> {
        as_map(self.entries@)
    }
}

impl<V> TextMap<V> {
    pub fn new() -> (r: Self)
        ensures
            r@ == Map::<Seq<char>, V>::empty(),
    {
        let r = TextMap { entries: Vec::new() };
        assert(r@ =~= Map::<Seq<char>, V>::empty());
        r
    }

    pub fn get(&self, key: &str) -> (r: Option<&V>)
        ensures
            match r {
                Some(v) => self@.dom().contains(key@) && self@[key@] == *v,
                None => !self@.dom().contains(key@),
            },
    {
        let mut i: usize = 0;
        assert(self.entries@.skip(0) =~= self.entries@);
        while i < self.entries.len()
            invariant
                i <= self.entries.len(),
                lookup(self.entries@, key@) == lookup(self.entries@.skip(i as int), key@),
            decreases self.entries.len() - i,
        {
            assert(self.entries@.skip(i as int).drop_first() =~= self.entries@.skip(i + 1));
            if same_text(self.entries[i].0.as_str(), key) {
                return Some(&self.entries[i].1);
            }
            i += 1;
        }
        None
    }

    pub fn remove(&mut self, key: &str)
        ensures
            final(self)@ == old(self)@.remove(key@),
    {
        let ghost before = self.entries@;
        let mut kept: Vec<(String, V)> = Vec::new();
        let mut rest: Vec<(String, V)> = Vec::new();
        std::mem::swap(&mut rest, &mut self.entries);
        let total = rest.len();
        assert(total == before.len());
        assert(before.take(0) =~= Seq::<(String, V)>::empty());
        proof { reveal(Seq::filter); }
        let mut consumed: usize = 0;
        while rest.len() > 0
            invariant
                consumed + rest@.len() == before.len(),
                rest@ == before.skip(consumed as int),
                kept@ == without_key(before.take(consumed as int), key@),
                before.len() <= usize::MAX,
            decreases rest@.len(),
        {
            let entry = rest.remove(0);
            let same = same_text(entry.0.as_str(), key);
            proof {
                reveal(Seq::filter);
                let f = other_key::<V>(key@);
                let prev = before.take(consumed as int);
                let next = before.take(consumed + 1);
                assert(before[consumed as int] == entry);
                assert(next.drop_last() =~= prev);
                assert(f(entry) == !same);
                assert(next.filter(f) == if f(entry) { prev.filter(f).push(entry) } else { prev.filter(f) });
                assert(before.skip(consumed + 1) =~= before.skip(consumed as int).drop_first());
            }
            if !same {
                kept.push(entry);
            }
            consumed += 1;
        }
        assert(before.take(consumed as int) =~= before);
        self.entries = kept;
        proof {
            assert forall|k: Seq<char>| #![auto] lookup(kept@, k) == if k == key@ { None } else { lookup(before, k) } by {
                lemma_lookup_without(before, key@, k);
            }
            assert(as_map(kept@) =~= as_map(before).remove(key@));
        }
    }

    pub fn insert(&mut self, key: String, value: V)
        ensures
            final(self)@ == old(self)@.insert(key@, value),
    {
        let ghost before = as_map(self.entries@);
        self.remove(key.as_str());
        let ghost mid = self.entries@;
        proof {
            assert(!as_map(mid).dom().contains(key@));
        }
        self.entries.push((key, value));
        proof {
            assert forall|k: Seq<char>| #![auto] lookup(self.entries@, k) == if k == key@ { Some(value) } else { lookup(mid, k) } by {
                lemma_lookup_push(mid, key, value, k);
            }
            let after = as_map(self.entries@);
            let want = before.insert(key@, value);
            assert forall|k: Seq<char>| #[trigger] after.dom().contains(k) == want.dom().contains(k) by {
                if k != key@ {
                    assert(as_map(mid).dom().contains(k) == before.remove(key@).dom().contains(k));
                }
            }
            assert forall|k: Seq<char>| after.dom().contains(k) implies #[trigger] after[k] == want[k] by {
                if k != key@ {
                    assert(as_map(mid).dom().contains(k));
                    assert(as_map(mid)[k] == before.remove(key@)[k]);
                }
            }
            assert(after =~= want);
        }
    }
}

} // verus!
