//! Short-lived messages shown over the list.
//!
//! Without these, a failed file or a finished action is invisible: the
//! interface owns the screen, so anything written to a log never reaches the
//! user. Every action and every player error becomes a toast instead.
//!
//! Times are milliseconds on a clock that starts when the `Toasts` is made.

use vstd::prelude::*;
use std::time::{Duration, Instant};
use crate::text::owned;

verus! {

/// How long a message stays on screen.
pub const LIFETIME_MS: u64 = 4000;
/// Errors stay longer, since they usually need reading.
pub const ERROR_LIFETIME_MS: u64 = 8000;
/// Beyond this, older messages are dropped rather than queueing up unseen.
pub const MAX_KEPT: usize = 8;
/// How many messages the overlay shows at once.
pub const MAX_VISIBLE: usize = 3;

#[derive(Debug, Clone, Copy, PartialEq, Eq, Structural)]
pub enum Level {
    Info,
    Success,
    Warn,
    Error,
}

/// How long a message of `level` stays up.
pub open spec fn lifetime_of(level: Level) -> u64 {
    match level {
        Level::Error => ERROR_LIFETIME_MS,
        _ => LIFETIME_MS,
    }
}

/// Whether a message shown at `shown_at` for `lifetime` has had its time by `now`.
/// A clock reading before `shown_at` counts as no time passed.
pub open spec fn has_expired(shown_at: u64, lifetime: u64, now: u64) -> bool {
    now >= shown_at && now - shown_at >= lifetime
}

/// Every message stays up for the lifetime of its level.
pub open spec fn lifetimes_by_level(items: Seq<Toast>) -> bool {
    forall|i: int| 0 <= i < items.len() ==> (#[trigger] items[i]).lifetime == lifetime_of(items[i].level)
}

/// The messages of `items` still up at clock reading `now`, in order.
pub open spec fn unexpired(items: Seq<Toast>, now: u64) -> Seq<Toast> {
    items.filter(|t: Toast| !t.expired_at(now))
}

#[derive(Debug)]
pub struct Toast {
    pub text: String,
    pub level: Level,
    /// Clock reading, in milliseconds, when the message was shown.
    pub shown_at: u64,
    /// How long it stays up, in milliseconds.
    pub lifetime: u64,
}

impl Toast {
    pub open spec fn expired_at(&self, now: u64) -> bool {
        has_expired(self.shown_at, self.lifetime, now)
    }

    fn new(text: String, level: Level, now: u64) -> (r: Self)
        ensures
            r.text@ == text@,
            r.level == level,
            r.shown_at == now,
            r.lifetime == lifetime_of(level),
    {
        let lifetime = match level {
            Level::Error => ERROR_LIFETIME_MS,
            _ => LIFETIME_MS,
        };
        Toast { text, level, shown_at: now, lifetime }
    }

    pub fn expired(&self, now: u64) -> (r: bool)
        ensures
            r == self.expired_at(now),
    {
        now >= self.shown_at && now - self.shown_at >= self.lifetime
    }
}

#[verifier::external_type_specification]
#[verifier::external_body]
pub struct ExInstant(Instant);

/// `Instant::now`: a reading of the monotonic clock; nothing is promised of it.
#[verifier::external_body]
fn instant_now() -> Instant {
    Instant::now()
}

/// `Instant::elapsed`: time since `origin`; nothing is promised of it.
#[verifier::external_body]
fn elapsed_since(origin: &Instant) -> Duration {
    origin.elapsed()
}

/// `Duration::as_millis`: whole milliseconds in `d`. Duration is opaque here,
/// so the value is not tied to anything.
#[verifier::external_body]
fn duration_millis(d: &Duration) -> u128 {
    d.as_millis()
}

/// Holds the most recent messages, newest first.
#[derive(Debug)]
pub struct Toasts {
    items: Vec<Toast>,
    origin: Instant,
}

impl Toasts {
    #[verifier::type_invariant]
    spec fn bounded(self) -> bool {
        &&& self.items.len() <= MAX_KEPT
        &&& lifetimes_by_level(self.items@)
    }

    /// The messages kept, newest first.
    pub closed spec fn items(&self) -> Seq<Toast> {
        self.items@
    }

    pub fn new() -> (r: Self)
        ensures
            r.items().len() == 0,
    {
        Toasts { items: Vec::new(), origin: instant_now() }
    }

    /// Milliseconds since this list was made.
    fn now(&self) -> u64 {
        let ms = duration_millis(&elapsed_since(&self.origin));
        if ms > 0xFFFF_FFFF_FFFF_FFFFu128 {
            0xFFFF_FFFF_FFFF_FFFFu64
        } else {
            ms as u64
        }
    }

    pub fn info(&mut self, text: &str)
        ensures
            final(self).items().len() == if old(self).items().len() < MAX_KEPT { old(self).items().len() + 1 } else { MAX_KEPT as nat },
            final(self).items()[0].text@ == text@,
            final(self).items()[0].level == Level::Info,
            final(self).items()[0].lifetime == lifetime_of(Level::Info),
            forall|i: int| 1 <= i < final(self).items().len() ==> final(self).items()[i] == old(self).items()[i - 1],
    {
        let now = self.now();
        self.push(owned(text), Level::Info, now);
    }

    pub fn success(&mut self, text: &str)
        ensures
            final(self).items().len() == if old(self).items().len() < MAX_KEPT { old(self).items().len() + 1 } else { MAX_KEPT as nat },
            final(self).items()[0].text@ == text@,
            final(self).items()[0].level == Level::Success,
            final(self).items()[0].lifetime == lifetime_of(Level::Success),
            forall|i: int| 1 <= i < final(self).items().len() ==> final(self).items()[i] == old(self).items()[i - 1],
    {
        let now = self.now();
        self.push(owned(text), Level::Success, now);
    }

    pub fn warn(&mut self, text: &str)
        ensures
            final(self).items().len() == if old(self).items().len() < MAX_KEPT { old(self).items().len() + 1 } else { MAX_KEPT as nat },
            final(self).items()[0].text@ == text@,
            final(self).items()[0].level == Level::Warn,
            final(self).items()[0].lifetime == lifetime_of(Level::Warn),
            forall|i: int| 1 <= i < final(self).items().len() ==> final(self).items()[i] == old(self).items()[i - 1],
    {
        let now = self.now();
        self.push(owned(text), Level::Warn, now);
    }

    pub fn error(&mut self, text: &str)
        ensures
            final(self).items().len() == if old(self).items().len() < MAX_KEPT { old(self).items().len() + 1 } else { MAX_KEPT as nat },
            final(self).items()[0].text@ == text@,
            final(self).items()[0].level == Level::Error,
            final(self).items()[0].lifetime == lifetime_of(Level::Error),
            forall|i: int| 1 <= i < final(self).items().len() ==> final(self).items()[i] == old(self).items()[i - 1],
    {
        let now = self.now();
        self.push(owned(text), Level::Error, now);
    }

    /// Show `text` as of clock reading `now`: it goes in front, and the oldest
    /// message falls off once more than `MAX_KEPT` are held.
    pub fn push(&mut self, text: String, level: Level, now: u64)
        ensures
            final(self).items().len() == if old(self).items().len() < MAX_KEPT { old(self).items().len() + 1 } else { MAX_KEPT as nat },
            final(self).items()[0].text@ == text@,
            final(self).items()[0].level == level,
            final(self).items()[0].shown_at == now,
            final(self).items()[0].lifetime == lifetime_of(level),
            forall|i: int| 1 <= i < final(self).items().len() ==> final(self).items()[i] == old(self).items()[i - 1],
    {
        proof { use_type_invariant(&*self); }
        let toast = Toast::new(text, level, now);
        let mut items: Vec<Toast> = Vec::new();
        std::mem::swap(&mut items, &mut self.items);
        let ghost before = items@;
        items.insert(0, toast);
        if items.len() > MAX_KEPT {
            items.truncate(MAX_KEPT);
        }
        self.items = items;
    }

    /// Drop messages that have had their time. Call once per frame.
    pub fn tick(&mut self)
        ensures
            exists|now: u64| final(self).items() == #[trigger] unexpired(old(self).items(), now),
    {
        let now = self.now();
        self.tick_at(now);
    }

    /// Drop the messages that have expired by clock reading `now`, keeping
    /// the rest in order.
    pub fn tick_at(&mut self, now: u64)
        ensures
            final(self).items() == unexpired(old(self).items(), now),
            final(self).items() == old(self).items().filter(|t: Toast| !has_expired(t.shown_at, lifetime_of(t.level), now)),
    {
        proof { use_type_invariant(&*self); }
        let mut items: Vec<Toast> = Vec::new();
        std::mem::swap(&mut items, &mut self.items);
        let ghost all = items@;
        let mut kept: Vec<Toast> = Vec::new();
        let mut consumed: usize = 0;
        while items.len() > 0
            invariant
                consumed + items@.len() == all.len(),
                items@ == all.skip(consumed as int),
                kept@ == unexpired(all.take(consumed as int), now),
                all.len() <= MAX_KEPT,
            decreases items@.len(),
        {
            let toast = items.remove(0);
            let gone = toast.expired(now);
            proof {
                reveal(Seq::filter);
                let keep = |t: Toast| !t.expired_at(now);
                let prev = all.take(consumed as int);
                let next = all.take(consumed + 1);
                assert(all[consumed as int] == toast);
                assert(next.drop_last() =~= prev);
                assert(next.last() == toast);
                assert(keep(toast) == !gone);
                assert(next.filter(keep) == if keep(toast) { prev.filter(keep).push(toast) } else { prev.filter(keep) });
                assert(all.skip(consumed + 1) =~= all.skip(consumed as int).drop_first());
            }
            if !gone {
                kept.push(toast);
            }
            consumed += 1;
        }
        proof {
            assert(all.take(consumed as int) =~= all);
            all.lemma_filter_len(|t: Toast| !t.expired_at(now));
            lemma_filter_keeps_lifetimes(all, |t: Toast| !t.expired_at(now));
            expiry_follows_the_level(all, now);
        }
        self.items = kept;
    }

    /// The message to display, if any.
    pub fn current(&self) -> (r: Option<&Toast>)
        ensures
            r == (if self.items().len() == 0 { None } else { Some(&self.items()[0]) }),
    {
        if self.items.len() == 0 {
            None
        } else {
            Some(&self.items[0])
        }
    }

    pub fn is_empty(&self) -> (r: bool)
        ensures
            r == (self.items().len() == 0),
    {
        self.items.len() == 0
    }

    /// Recent messages, newest first, for the notification overlay.
    pub fn recent(&self) -> (r: &[Toast])
        ensures
            r@ == self.items(),
            r@.len() <= MAX_KEPT,
            lifetimes_by_level(r@),
    {
        proof { use_type_invariant(self); }
        self.items.as_slice()
    }

    /// Up to three newest messages for the toast overlay.
    pub fn visible(&self) -> (r: &[Toast])
        ensures
            r@ == self.items().take((if self.items().len() < MAX_VISIBLE { self.items().len() as int } else { MAX_VISIBLE as int })),
    {
        let n = if self.items.len() < MAX_VISIBLE { self.items.len() } else { MAX_VISIBLE };
        let (front, _) = self.items.as_slice().split_at(n);
        front
    }
}

impl Default for Toasts {
    fn default() -> (r: Self)
        ensures
            r.items().len() == 0,
    {
        Toasts::new()
    }
}

/// Errors stay up strictly longer than any other kind of message: shown at
/// the same moment, an error is still there when the others have gone.
pub proof fn errors_outlive_ordinary_messages(shown_at: u64, now: u64, level: Level)
    requires
        level != Level::Error,
        has_expired(shown_at, lifetime_of(Level::Error), now),
    ensures
        has_expired(shown_at, lifetime_of(level), now),
        lifetime_of(level) < lifetime_of(Level::Error),
{
}

/// A message is never gone before its lifetime, and always gone after it.
pub proof fn messages_last_exactly_their_lifetime(shown_at: u64, level: Level, now: u64)
    requires
        now >= shown_at,
    ensures
        has_expired(shown_at, lifetime_of(level), now) <==> now - shown_at >= lifetime_of(level),
{
}

proof fn lemma_filter_keeps_lifetimes(items: Seq<Toast>, pred: spec_fn(Toast) -> bool)
    requires
        lifetimes_by_level(items),
    ensures
        lifetimes_by_level(items.filter(pred)),
    decreases items.len(),
{
    reveal(Seq::filter);
    if items.len() > 0 {
        let rest = items.drop_last();
        assert forall|i: int| 0 <= i < rest.len() implies (#[trigger] rest[i]).lifetime == lifetime_of(rest[i].level) by {
            assert(rest[i] == items[i]);
        }
        lemma_filter_keeps_lifetimes(rest, pred);
        assert(items.last() == items[items.len() - 1]);
    }
}

/// Where every message carries its level's lifetime, which messages a tick
/// keeps is decided by each level's lifetime: errors stay eight seconds,
/// everything else four.
pub proof fn expiry_follows_the_level(items: Seq<Toast>, now: u64)
    requires
        lifetimes_by_level(items),
    ensures
        unexpired(items, now) == items.filter(|t: Toast| !has_expired(t.shown_at, lifetime_of(t.level), now)),
    decreases items.len(),
{
    reveal(Seq::filter);
    if items.len() > 0 {
        let rest = items.drop_last();
        assert forall|i: int| 0 <= i < rest.len() implies (#[trigger] rest[i]).lifetime == lifetime_of(rest[i].level) by {
            assert(rest[i] == items[i]);
        }
        expiry_follows_the_level(rest, now);
        assert(items.last() == items[items.len() - 1]);
    }
}

} // verus!
