//! The keymap, written down once.
//!
//! The help overlay and the footer hints are both generated from these tables,
//! so the documented keys and the shown keys cannot drift apart.

use vstd::prelude::*;
use crate::text::{has_char, same_text};

verus! {

/// One documented binding.
#[derive(Debug, Clone, Copy)]
pub struct Binding {
    pub keys: &'static str,
    pub action: &'static str,
}

/// A binding as the characters of its key and of its action.
pub open spec fn binding_text(b: Binding) -> (Seq<char>, Seq<char>) {
    (b.keys@, b.action@)
}

pub open spec fn table_text(t: Seq<Binding>) -> Seq<(Seq<char>, Seq<char>)> {
    t.map_values(|b: Binding| binding_text(b))
}

pub fn b(keys: &'static str, action: &'static str) -> (r: Binding)
    ensures
        r.keys == keys,
        r.action == action,
{
    Binding { keys, action }
}

/// Works in every pane.
pub open spec fn global_table() -> Seq<(Seq<char>, Seq<char>)> {
    seq![
        ("Space"@, "play / pause"@),
        ("s"@, "stop"@),
        ("n"@, "next track"@),
        ("N / p"@, "previous track"@),
        ("P"@, "playlists"@),
        ("→ / l"@, "seek forward 5s"@),
        ("← / h"@, "seek back 5s"@),
        ("L / H"@, "seek 30s"@),
        ("+ / -"@, "volume up / down"@),
        ("m"@, "mute"@),
        ("r"@, "repeat: off, all, one"@),
        ("z"@, "shuffle"@),
        ("]"@, "open / close queue"@),
        ("Tab"@, "library ↔ queue"@),
        ("Alt-← / Alt-→"@, "pan titles"@),
        ("i"@, "signal inspector"@),
        (","@, "devices"@),
        ("?"@, "this help"@),
        ("q"@, "quit"@),
    ]
}

/// Any list pane.
pub open spec fn navigation_table() -> Seq<(Seq<char>, Seq<char>)> {
    seq![
        ("j / ↓"@, "down"@),
        ("k / ↑"@, "up"@),
        ("Ctrl-d / Ctrl-u"@, "half page down / up"@),
        ("g / G"@, "first / last row"@),
    ]
}

pub open spec fn queue_table() -> Seq<(Seq<char>, Seq<char>)> {
    seq![
        ("Enter"@, "play the selected track"@),
        ("d / Del"@, "remove from the queue"@),
        ("C"@, "clear the queue"@),
        ("o"@, "jump to the playing track"@),
    ]
}

pub open spec fn library_table() -> Seq<(Seq<char>, Seq<char>)> {
    seq![
        ("/"@, "search the library"@),
        ("Enter"@, "open album, or play track"@),
        ("a"@, "add selection to the queue"@),
        ("A"@, "add everything listed"@),
        ("Esc"@, "back to the album list"@),
        ("R"@, "reload after a scan"@),
    ]
}

pub open spec fn devices_table() -> Seq<(Seq<char>, Seq<char>)> {
    seq![
        ("Enter"@, "use this output device"@),
        ("R"@, "rescan devices"@),
        ("Esc"@, "close"@),
    ]
}

pub open spec fn playlists_table() -> Seq<(Seq<char>, Seq<char>)> {
    seq![
        ("Enter"@, "clear the queue and play"@),
        ("a"@, "add to the queue"@),
        ("w"@, "save the queue"@),
        ("Esc"@, "close"@),
    ]
}

/// Works in every pane.
pub fn global() -> (r: Vec<Binding>)
    ensures
        table_text(r@) == global_table(),
{
    let r = vec![
        b("Space", "play / pause"),
        b("s", "stop"),
        b("n", "next track"),
        b("N / p", "previous track"),
        b("P", "playlists"),
        b("→ / l", "seek forward 5s"),
        b("← / h", "seek back 5s"),
        b("L / H", "seek 30s"),
        b("+ / -", "volume up / down"),
        b("m", "mute"),
        b("r", "repeat: off, all, one"),
        b("z", "shuffle"),
        b("]", "open / close queue"),
        b("Tab", "library ↔ queue"),
        b("Alt-← / Alt-→", "pan titles"),
        b("i", "signal inspector"),
        b(",", "devices"),
        b("?", "this help"),
        b("q", "quit"),
    ];
    assert(table_text(r@) =~= global_table());
    r
}

/// Any list pane.
pub fn navigation() -> (r: Vec<Binding>)
    ensures
        table_text(r@) == navigation_table(),
{
    let r = vec![
        b("j / ↓", "down"),
        b("k / ↑", "up"),
        b("Ctrl-d / Ctrl-u", "half page down / up"),
        b("g / G", "first / last row"),
    ];
    assert(table_text(r@) =~= navigation_table());
    r
}

pub fn queue() -> (r: Vec<Binding>)
    ensures
        table_text(r@) == queue_table(),
{
    let r = vec![
        b("Enter", "play the selected track"),
        b("d / Del", "remove from the queue"),
        b("C", "clear the queue"),
        b("o", "jump to the playing track"),
    ];
    assert(table_text(r@) =~= queue_table());
    r
}

pub fn library() -> (r: Vec<Binding>)
    ensures
        table_text(r@) == library_table(),
{
    let r = vec![
        b("/", "search the library"),
        b("Enter", "open album, or play track"),
        b("a", "add selection to the queue"),
        b("A", "add everything listed"),
        b("Esc", "back to the album list"),
        b("R", "reload after a scan"),
    ];
    assert(table_text(r@) =~= library_table());
    r
}

pub fn devices() -> (r: Vec<Binding>)
    ensures
        table_text(r@) == devices_table(),
{
    let r = vec![
        b("Enter", "use this output device"),
        b("R", "rescan devices"),
        b("Esc", "close"),
    ];
    assert(table_text(r@) =~= devices_table());
    r
}

pub fn playlists() -> (r: Vec<Binding>)
    ensures
        table_text(r@) == playlists_table(),
{
    let r = vec![
        b("Enter", "clear the queue and play"),
        b("a", "add to the queue"),
        b("w", "save the queue"),
        b("Esc", "close"),
    ];
    assert(table_text(r@) =~= playlists_table());
    r
}

/// The footer hint line for a pane name.
pub open spec fn hint_line(pane: Seq<char>) -> Seq<char> {
    if pane == "Queue"@ {
        "Enter play · d remove · C clear · o jump · Alt-← / Alt-→ pan · ] close · ? help"@
    } else if pane == "Library"@ {
        "/ search · a add · ] queue · i inspect · P · Alt-← / Alt-→ pan · , devices · ? help"@
    } else if pane == "Devices"@ {
        "Enter select · R rescan · Esc close · ? help"@
    } else if pane == "Inspector"@ {
        "i / Esc close · Space pause · ? help"@
    } else if pane == "Playlists"@ {
        "Enter play · a add · w save · Esc close · ? help"@
    } else {
        "] queue · ? help · q quit"@
    }
}

/// Short hints for the footer, per pane.
pub fn hints(pane: &str) -> (r: &'static str)
    ensures
        r@ == hint_line(pane@),
{
    if same_text(pane, "Queue") {
        "Enter play · d remove · C clear · o jump · Alt-← / Alt-→ pan · ] close · ? help"
    } else if same_text(pane, "Library") {
        "/ search · a add · ] queue · i inspect · P · Alt-← / Alt-→ pan · , devices · ? help"
    } else if same_text(pane, "Devices") {
        "Enter select · R rescan · Esc close · ? help"
    } else if same_text(pane, "Inspector") {
        "i / Esc close · Space pause · ? help"
    } else if same_text(pane, "Playlists") {
        "Enter play · a add · w save · Esc close · ? help"
    } else {
        "] queue · ? help · q quit"
    }
}

/// Every pane's hint line points at the help overlay.
pub proof fn every_hint_line_mentions_help(pane: Seq<char>)
    ensures
        has_char(hint_line(pane), '?'),
{
    reveal_strlit("Queue");
    reveal_strlit("Library");
    reveal_strlit("Devices");
    reveal_strlit("Inspector");
    reveal_strlit("Playlists");
    reveal_strlit("Enter play · d remove · C clear · o jump · Alt-← / Alt-→ pan · ] close · ? help");
    reveal_strlit("/ search · a add · ] queue · i inspect · P · Alt-← / Alt-→ pan · , devices · ? help");
    reveal_strlit("Enter select · R rescan · Esc close · ? help");
    reveal_strlit("i / Esc close · Space pause · ? help");
    reveal_strlit("Enter play · a add · w save · Esc close · ? help");
    reveal_strlit("] queue · ? help · q quit");
    let line = hint_line(pane);
    assert(line[line.len() - 6] == '?' || line[10] == '?');
}

/// Every table documents both a key and an action on every row, and no key
/// in the global table uses `<` or `>`.
pub proof fn every_binding_documents_a_key_and_an_action()
    ensures
        forall|i: int| 0 <= i < global_table().len() ==> (#[trigger] global_table()[i]).0.len() > 0
            && global_table()[i].1.len() > 0 && !has_char(global_table()[i].0, '<')
            && !has_char(global_table()[i].0, '>'),
        forall|i: int| 0 <= i < navigation_table().len() ==> (#[trigger] navigation_table()[i]).0.len() > 0
            && navigation_table()[i].1.len() > 0,
        forall|i: int| 0 <= i < queue_table().len() ==> (#[trigger] queue_table()[i]).0.len() > 0
            && queue_table()[i].1.len() > 0,
        forall|i: int| 0 <= i < library_table().len() ==> (#[trigger] library_table()[i]).0.len() > 0
            && library_table()[i].1.len() > 0,
        forall|i: int| 0 <= i < devices_table().len() ==> (#[trigger] devices_table()[i]).0.len() > 0
            && devices_table()[i].1.len() > 0,
        forall|i: int| 0 <= i < playlists_table().len() ==> (#[trigger] playlists_table()[i]).0.len() > 0
            && playlists_table()[i].1.len() > 0,
{
    reveal_strlit("Space"); reveal_strlit("play / pause");
    reveal_strlit("s"); reveal_strlit("stop");
    reveal_strlit("n"); reveal_strlit("next track");
    reveal_strlit("N / p"); reveal_strlit("previous track");
    reveal_strlit("P"); reveal_strlit("playlists");
    reveal_strlit("→ / l"); reveal_strlit("seek forward 5s");
    reveal_strlit("← / h"); reveal_strlit("seek back 5s");
    reveal_strlit("L / H"); reveal_strlit("seek 30s");
    reveal_strlit("+ / -"); reveal_strlit("volume up / down");
    reveal_strlit("m"); reveal_strlit("mute");
    reveal_strlit("r"); reveal_strlit("repeat: off, all, one");
    reveal_strlit("z"); reveal_strlit("shuffle");
    reveal_strlit("]"); reveal_strlit("open / close queue");
    reveal_strlit("Tab"); reveal_strlit("library ↔ queue");
    reveal_strlit("Alt-← / Alt-→"); reveal_strlit("pan titles");
    reveal_strlit("i"); reveal_strlit("signal inspector");
    reveal_strlit(","); reveal_strlit("devices");
    reveal_strlit("?"); reveal_strlit("this help");
    reveal_strlit("q"); reveal_strlit("quit");
    reveal_strlit("j / ↓"); reveal_strlit("down");
    reveal_strlit("k / ↑"); reveal_strlit("up");
    reveal_strlit("Ctrl-d / Ctrl-u"); reveal_strlit("half page down / up");
    reveal_strlit("g / G"); reveal_strlit("first / last row");
    reveal_strlit("Enter"); reveal_strlit("play the selected track");
    reveal_strlit("d / Del"); reveal_strlit("remove from the queue");
    reveal_strlit("C"); reveal_strlit("clear the queue");
    reveal_strlit("o"); reveal_strlit("jump to the playing track");
    reveal_strlit("/"); reveal_strlit("search the library");
    reveal_strlit("open album, or play track");
    reveal_strlit("a"); reveal_strlit("add selection to the queue");
    reveal_strlit("A"); reveal_strlit("add everything listed");
    reveal_strlit("Esc"); reveal_strlit("back to the album list");
    reveal_strlit("R"); reveal_strlit("reload after a scan");
    reveal_strlit("use this output device");
    reveal_strlit("rescan devices");
    reveal_strlit("close");
    reveal_strlit("clear the queue and play");
    reveal_strlit("add to the queue");
    reveal_strlit("w"); reveal_strlit("save the queue");
    let g = global_table();
    assert forall|i: int| 0 <= i < g.len() implies !has_char(#[trigger] g[i].0, '<') && !has_char(g[i].0, '>') by {
        assert(g[i].0.len() <= 13);
        assert forall|j: int| 0 <= j < g[i].0.len() implies g[i].0[j] != '<' && g[i].0[j] != '>' by {
        }
    }
}

} // verus!
