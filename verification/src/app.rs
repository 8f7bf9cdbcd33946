//! The application: what is on screen, and what the keys and the mouse do.
//!
//! The player engine, the playlist and station files and the library
//! database all live outside this crate. `App` holds what is on screen;
//! a key or a click changes it and returns the [`Effect`]s for the frontend
//! to carry out, in order: commands for the player, messages to show, files
//! to read or write. What the frontend learns back (a search's hits, a
//! reloaded list) comes in through the methods at the end of this file.

use vstd::prelude::*;
use crate::cursor::{clamped, paged, selection, wrapped_step, Cursor};
use crate::hit::{row_at_of, HitMap, ListHit};
use crate::footer_hits::plain_key;
use crate::input::{KeyCode, KeyEvent};
use crate::layout::{is_sheet, sheet, strip_inner, strip_inner_of, Rect};
use crate::library::{first_where, LibrarySnapshot, Track};
use crate::library_pane::{
    ItemView, LibraryPane, PaneView, SearchRequest, back_of, clamp_to, enter_of, item_tracks,
    listed_tracks_of, navigate, panned_offset, sat_sub, selected_item_of, Move,
};
use crate::line_edit::{edit_key, LineEdit};
use crate::meta::Entry;
use crate::text::{chars_of, owned, string_from_chars, trim_chars, trimmed};
use crate::toast::Level;
use crate::transport::{PlaybackStatus, RepeatMode};
use crate::tui_config::TuiConfig;

verus! {

#[derive(Debug, Clone, Copy, PartialEq, Eq, Structural)]
pub enum Focus {
    Library,
    Queue,
}

/// The overlay on top of the panes, if any.
#[derive(Debug, Clone, Copy, PartialEq, Eq, Structural)]
pub enum Modal {
    Closed,
    Help,
    Devices,
    Inspector,
    Playlists,
    Radio,
}

impl Modal {
    /// Overlays that take the list keys away from the panes underneath.
    pub open spec fn blocks(self) -> bool {
        self == Modal::Devices || self == Modal::Inspector || self == Modal::Playlists || self == Modal::Radio
    }

    pub fn blocks_list_focus(self) -> (r: bool)
        ensures
            r == self.blocks(),
    {
        match self {
            Modal::Devices | Modal::Inspector | Modal::Playlists | Modal::Radio => true,
            _ => false,
        }
    }
}

#[derive(Debug, Clone, Copy, PartialEq, Eq, Structural)]
pub enum StationField {
    Name,
    Url,
    Art,
}

pub open spec fn next_field(f: StationField, forward: bool) -> StationField {
    match (f, forward) {
        (StationField::Name, true) => StationField::Url,
        (StationField::Url, true) => StationField::Art,
        (StationField::Art, true) => StationField::Name,
        (StationField::Name, false) => StationField::Art,
        (StationField::Url, false) => StationField::Name,
        (StationField::Art, false) => StationField::Url,
    }
}

/// A radio station as the station list holds it.
#[derive(Debug, PartialEq, Eq)]
pub struct Station {
    pub name: String,
    pub url: String,
    /// Cover art file, as the user typed it.
    pub art: Option<String>,
}

impl Clone for Station {
    fn clone(&self) -> (r: Self)
        ensures
            r == *self,
    {
        Station { name: self.name.clone(), url: self.url.clone(), art: crate::library::clone_opt_string(&self.art) }
    }
}

/// The cover art of a station as it is kept: the typed path trimmed, and no
/// art at all when nothing but spaces was typed.
pub open spec fn art_value(typed: Seq<char>) -> Option<Seq<char>> {
    if trimmed(typed).len() == 0 { None } else { Some(trimmed(typed)) }
}

/// The station a filled-in form describes.
pub fn station_of_form(name: &LineEdit, url: &LineEdit, art: &LineEdit) -> (r: Station)
    ensures
        r.name@ == name@.0,
        r.url@ == url@.0,
        match r.art {
            Some(a) => art_value(art@.0) == Some(a@),
            None => art_value(art@.0) is None,
        },
{
    let kept = trim_chars(chars_of(art.as_str()).as_slice());
    let art_text = if kept.len() == 0 { None } else { Some(string_from_chars(kept.as_slice())) };
    Station { name: owned(name.as_str()), url: owned(url.as_str()), art: art_text }
}

/// An output device: what the player calls it and what the user reads.
#[derive(Debug, PartialEq, Eq)]
pub struct Device {
    pub id: String,
    pub name: String,
}

impl Clone for Device {
    fn clone(&self) -> (r: Self)
        ensures
            r == *self,
    {
        Device { id: self.id.clone(), name: self.name.clone() }
    }
}

/// A line being edited, as text and caret.
pub type EditView = (Seq<char>, nat);

#[derive(Debug, PartialEq, Eq)]
pub enum RadioPrompt {
    /// A new station (`original` is `None`) or an edit of the station of that name.
    Form { name: LineEdit, url: LineEdit, art: LineEdit, field: StationField, original: Option<String> },
    /// A copy of the selected station under a new name.
    Copy(LineEdit),
}

pub enum RadioView {
    Form(EditView, EditView, EditView, StationField, Option<Seq<char>>),
    Copy(EditView),
}

pub open spec fn radio_view(p: RadioPrompt) -> RadioView {
    match p {
        RadioPrompt::Form { name, url, art, field, original } => RadioView::Form(
            name@,
            url@,
            art@,
            field,
            match original {
                Some(o) => Some(o@),
                None => None,
            },
        ),
        RadioPrompt::Copy(e) => RadioView::Copy(e@),
    }
}

/// The line the typing goes to: the focused field of the form, or the copy name.
pub open spec fn radio_buffer(p: RadioView) -> EditView {
    match p {
        RadioView::Form(name, url, art, field, _) => match field {
            StationField::Name => name,
            StationField::Url => url,
            StationField::Art => art,
        },
        RadioView::Copy(e) => e,
    }
}

/// The prompt with its typing line replaced.
pub open spec fn with_radio_buffer(p: RadioView, e: EditView) -> RadioView {
    match p {
        RadioView::Form(name, url, art, field, original) => match field {
            StationField::Name => RadioView::Form(e, url, art, field, original),
            StationField::Url => RadioView::Form(name, e, art, field, original),
            StationField::Art => RadioView::Form(name, url, e, field, original),
        },
        RadioView::Copy(_) => RadioView::Copy(e),
    }
}

pub open spec fn cycled(p: RadioView, forward: bool) -> RadioView {
    match p {
        RadioView::Form(name, url, art, field, original) => RadioView::Form(name, url, art, next_field(field, forward), original),
        RadioView::Copy(e) => RadioView::Copy(e),
    }
}

impl RadioPrompt {
    pub fn new_station() -> (r: Self)
        ensures
            radio_view(r) == RadioView::Form(
                (Seq::<char>::empty(), 0nat),
                (Seq::<char>::empty(), 0nat),
                (Seq::<char>::empty(), 0nat),
                StationField::Name,
                None,
            ),
    {
        RadioPrompt::Form {
            name: LineEdit::new(),
            url: LineEdit::new(),
            art: LineEdit::new(),
            field: StationField::Name,
            original: None,
        }
    }

    /// A form holding `station`, to edit it.
    pub fn edit_station(station: &Station) -> (r: Self)
        ensures
            radio_view(r) == RadioView::Form(
                (station.name@, station.name@.len()),
                (station.url@, station.url@.len()),
                match station.art {
                    Some(a) => (a@, a@.len()),
                    None => (Seq::<char>::empty(), 0nat),
                },
                StationField::Name,
                Some(station.name@),
            ),
    {
        let art = match &station.art {
            Some(a) => LineEdit::from_text(a.as_str()),
            None => LineEdit::new(),
        };
        RadioPrompt::Form {
            name: LineEdit::from_text(station.name.as_str()),
            url: LineEdit::from_text(station.url.as_str()),
            art,
            field: StationField::Name,
            original: Some(station.name.clone()),
        }
    }

    /// The line the typing goes to.
    pub fn buffer_mut(&mut self) -> (r: &mut LineEdit)
        ensures
            r@ == radio_buffer(radio_view(*old(self))),
            radio_view(*final(self)) == with_radio_buffer(radio_view(*old(self)), final(r)@),
    {
        match self {
            RadioPrompt::Form { name, url, art, field, .. } => match field {
                StationField::Name => name,
                StationField::Url => url,
                StationField::Art => art,
            },
            RadioPrompt::Copy(s) => s,
        }
    }

    /// Move to the next (or previous) field of the form, wrapping around.
    pub fn cycle_field(&mut self, forward: bool)
        ensures
            radio_view(*final(self)) == cycled(radio_view(*old(self)), forward),
    {
        match self {
            RadioPrompt::Form { field, .. } => {
                *field = match (*field, forward) {
                    (StationField::Name, true) => StationField::Url,
                    (StationField::Url, true) => StationField::Art,
                    (StationField::Art, true) => StationField::Name,
                    (StationField::Name, false) => StationField::Art,
                    (StationField::Url, false) => StationField::Name,
                    (StationField::Art, false) => StationField::Url,
                };
            },
            RadioPrompt::Copy(_) => {},
        }
    }
}

/// Tab moves through all three fields and comes back.
pub proof fn three_tabs_come_back(f: StationField)
    ensures
        next_field(next_field(next_field(f, true), true), true) == f,
        next_field(next_field(f, true), false) == f,
{
}

#[derive(Debug, PartialEq, Eq)]
pub enum PlaylistPrompt {
    Save(LineEdit),
    Rename(LineEdit),
    Copy(LineEdit),
}

/// Which playlist prompt, and its line.
pub enum PromptKind {
    Save,
    Rename,
    Copy,
}

pub open spec fn playlist_view(p: PlaylistPrompt) -> (PromptKind, EditView) {
    match p {
        PlaylistPrompt::Save(e) => (PromptKind::Save, e@),
        PlaylistPrompt::Rename(e) => (PromptKind::Rename, e@),
        PlaylistPrompt::Copy(e) => (PromptKind::Copy, e@),
    }
}

impl PlaylistPrompt {
    pub fn as_str(&self) -> (r: &str)
        ensures
            r@ == playlist_view(*self).1.0,
    {
        match self {
            PlaylistPrompt::Save(s) | PlaylistPrompt::Rename(s) | PlaylistPrompt::Copy(s) => s.as_str(),
        }
    }

    pub fn buffer_mut(&mut self) -> (r: &mut LineEdit)
        ensures
            r@ == playlist_view(*old(self)).1,
            playlist_view(*final(self)) == (playlist_view(*old(self)).0, final(r)@),
    {
        match self {
            PlaylistPrompt::Save(s) => s,
            PlaylistPrompt::Rename(s) => s,
            PlaylistPrompt::Copy(s) => s,
        }
    }
}


// ---- what the player reported, and what the frontend is asked to do ----

/// A queue entry as the queue list shows it.
#[derive(Debug, Clone, Copy, PartialEq, Eq, Structural)]
pub struct QueueRow {
    /// Characters in the row's label.
    pub label_len: usize,
    pub is_stream: bool,
}

/// What the player reported on the last frame.
#[derive(Debug, Clone, PartialEq, Eq)]
pub struct PlayerView {
    pub status: PlaybackStatus,
    pub queue: Vec<QueueRow>,
    pub queue_position: usize,
    pub muted: bool,
    pub shuffle: bool,
    pub repeat: RepeatMode,
    /// Whether a track is loaded.
    pub has_track: bool,
    /// Whole seconds into the loaded track.
    pub position_secs: u64,
}

/// A command for the player engine.
#[derive(Debug, PartialEq, Eq)]
pub enum Command {
    Pause,
    Resume,
    Stop,
    NextTrack,
    PreviousTrack,
    QueuePlayIndex(usize),
    QueueRemove(usize),
    QueueClear,
    /// Seek to this many whole seconds.
    Seek(u64),
    /// One volume step up (`true`) or down.
    VolumeStep(bool),
    SetMuted(bool),
    SetRepeat(RepeatMode),
    SetShuffle(bool),
    /// Open the output device at this index of the device list.
    SetDevice(usize),
    /// Play this track now.
    Play(Track),
    /// Add these tracks to the end of the queue.
    QueueAdd(Vec<Track>),
}

/// Something for the frontend to do, in order.
#[derive(Debug)]
pub enum Effect {
    /// Show a message.
    Notify(Level, String),
    /// Send a command and wait for it; on success show the message, if any,
    /// and on failure show the error.
    Send(Command, Option<String>),
    /// After the command before: keep the queue cursor inside the new queue.
    ClampQueueCursor,
    /// Search the library and hand the answer to `finish_search`.
    Search(String),
    /// Read the library again and hand it to `library_reloaded`.
    ReloadLibrary,
    /// List the saved playlists again and hand them to `set_playlists`.
    ReloadPlaylists,
    /// Read the station list again and hand it to `set_stations`.
    ReloadStations,
    /// List the output devices again and hand them to `set_devices`.
    ReloadDevices,
    /// Load the playlist of that name: replace the queue, or append to it.
    PlayPlaylist(String, bool),
    /// Save the queue under the typed name; on failure hand the prompt back.
    SavePlaylist(LineEdit),
    /// Rename the named playlist to the typed name.
    RenamePlaylist(String, LineEdit),
    /// Copy the named playlist under the typed name.
    CopyPlaylist(String, LineEdit),
    DeletePlaylist(String),
    /// After the list was read again: put the cursor on the playlist of that name.
    SelectPlaylist(String),
    /// Play the station now, or add it to the queue.
    PlayStation(Station, bool),
    /// Add or update the station the form describes.
    SaveStation(RadioPrompt),
    /// Copy the named station under the typed name.
    CopyStation(String, LineEdit),
    DeleteStation(String),
}

pub enum CommandView {
    Pause,
    Resume,
    Stop,
    NextTrack,
    PreviousTrack,
    QueuePlayIndex(nat),
    QueueRemove(nat),
    QueueClear,
    Seek(nat),
    VolumeStep(bool),
    SetMuted(bool),
    SetRepeat(RepeatMode),
    SetShuffle(bool),
    SetDevice(nat),
    Play(Track),
    QueueAdd(Seq<Track>),
}

pub open spec fn command_view(c: Command) -> CommandView {
    match c {
        Command::Pause => CommandView::Pause,
        Command::Resume => CommandView::Resume,
        Command::Stop => CommandView::Stop,
        Command::NextTrack => CommandView::NextTrack,
        Command::PreviousTrack => CommandView::PreviousTrack,
        Command::QueuePlayIndex(i) => CommandView::QueuePlayIndex(i as nat),
        Command::QueueRemove(i) => CommandView::QueueRemove(i as nat),
        Command::QueueClear => CommandView::QueueClear,
        Command::Seek(s) => CommandView::Seek(s as nat),
        Command::VolumeStep(up) => CommandView::VolumeStep(up),
        Command::SetMuted(m) => CommandView::SetMuted(m),
        Command::SetRepeat(r) => CommandView::SetRepeat(r),
        Command::SetShuffle(s) => CommandView::SetShuffle(s),
        Command::SetDevice(i) => CommandView::SetDevice(i as nat),
        Command::Play(t) => CommandView::Play(t),
        Command::QueueAdd(ts) => CommandView::QueueAdd(ts@),
    }
}

pub enum EffectView {
    Notify(Level, Seq<char>),
    Send(CommandView, Option<Seq<char>>),
    ClampQueueCursor,
    Search(Seq<char>),
    ReloadLibrary,
    ReloadPlaylists,
    ReloadStations,
    ReloadDevices,
    PlayPlaylist(Seq<char>, bool),
    SavePlaylist(EditView),
    RenamePlaylist(Seq<char>, EditView),
    CopyPlaylist(Seq<char>, EditView),
    DeletePlaylist(Seq<char>),
    SelectPlaylist(Seq<char>),
    PlayStation(Station, bool),
    SaveStation(RadioView),
    CopyStation(Seq<char>, EditView),
    DeleteStation(Seq<char>),
}

pub open spec fn effect_view(e: Effect) -> EffectView {
    match e {
        Effect::Notify(l, t) => EffectView::Notify(l, t@),
        Effect::Send(c, m) => EffectView::Send(command_view(c), match m {
            Some(t) => Some(t@),
            None => None,
        }),
        Effect::ClampQueueCursor => EffectView::ClampQueueCursor,
        Effect::Search(q) => EffectView::Search(q@),
        Effect::ReloadLibrary => EffectView::ReloadLibrary,
        Effect::ReloadPlaylists => EffectView::ReloadPlaylists,
        Effect::ReloadStations => EffectView::ReloadStations,
        Effect::ReloadDevices => EffectView::ReloadDevices,
        Effect::PlayPlaylist(n, a) => EffectView::PlayPlaylist(n@, a),
        Effect::SavePlaylist(e) => EffectView::SavePlaylist(e@),
        Effect::RenamePlaylist(n, e) => EffectView::RenamePlaylist(n@, e@),
        Effect::CopyPlaylist(n, e) => EffectView::CopyPlaylist(n@, e@),
        Effect::DeletePlaylist(n) => EffectView::DeletePlaylist(n@),
        Effect::SelectPlaylist(n) => EffectView::SelectPlaylist(n@),
        Effect::PlayStation(s, a) => EffectView::PlayStation(s, a),
        Effect::SaveStation(p) => EffectView::SaveStation(radio_view(p)),
        Effect::CopyStation(n, e) => EffectView::CopyStation(n@, e@),
        Effect::DeleteStation(n) => EffectView::DeleteStation(n@),
    }
}

pub open spec fn effects_view(es: Seq<Effect>) -> Seq<EffectView> {
    es.map_values(|e: Effect| effect_view(e))
}

// ---- the application state ----

pub struct App {
    pub focus: Focus,
    pub queue_open: bool,
    pub modal: Modal,
    pub list_width: u16,
    pub list_height: u16,
    /// Width of the library's title column on the last frame.
    pub title_slot: usize,
    pub queue_h_offset: usize,
    pub queue_title_slot: usize,
    pub queue_cursor: Cursor,
    pub library: LibraryPane,
    pub hits: HitMap,
    pub devices: Vec<Device>,
    pub device_cursor: Cursor,
    pub playlists: Vec<String>,
    pub playlist_cursor: Cursor,
    pub playlist_prompt: Option<PlaylistPrompt>,
    pub stations: Vec<Station>,
    pub station_cursor: Cursor,
    pub radio_prompt: Option<RadioPrompt>,
    pub tui: TuiConfig,
    pub should_quit: bool,
}

#[verifier::ext_equal]
pub struct AppView {
    pub focus: Focus,
    pub queue_open: bool,
    pub modal: Modal,
    pub list_width: u16,
    pub list_height: u16,
    pub title_slot: nat,
    pub queue_h_offset: nat,
    pub queue_title_slot: nat,
    pub queue_cursor: nat,
    pub library: PaneView,
    pub hits: HitMap,
    pub devices: Seq<Device>,
    pub device_cursor: nat,
    pub playlists: Seq<Seq<char>>,
    pub playlist_cursor: nat,
    pub playlist_prompt: Option<(PromptKind, EditView)>,
    pub stations: Seq<Station>,
    pub station_cursor: nat,
    pub radio_prompt: Option<RadioView>,
    pub tui: TuiConfig,
    pub should_quit: bool,
}

pub open spec fn names_view(names: Seq<String>) -> Seq<Seq<char>> {
    names.map_values(|n: String| n@)
}

impl View for App {
    type V = AppView;

    open spec fn view(&self) -> AppView {
        AppView {
            focus: self.focus,
            queue_open: self.queue_open,
            modal: self.modal,
            list_width: self.list_width,
            list_height: self.list_height,
            title_slot: self.title_slot as nat,
            queue_h_offset: self.queue_h_offset as nat,
            queue_title_slot: self.queue_title_slot as nat,
            queue_cursor: self.queue_cursor@,
            library: self.library@,
            hits: self.hits,
            devices: self.devices@,
            device_cursor: self.device_cursor@,
            playlists: names_view(self.playlists@),
            playlist_cursor: self.playlist_cursor@,
            playlist_prompt: match self.playlist_prompt {
                Some(p) => Some(playlist_view(p)),
                None => None,
            },
            stations: self.stations@,
            station_cursor: self.station_cursor@,
            radio_prompt: match self.radio_prompt {
                Some(p) => Some(radio_view(p)),
                None => None,
            },
            tui: self.tui,
            should_quit: self.should_quit,
        }
    }
}

/// The library's visible width inside its borders, for a list as wide as the
/// last frame's.
pub open spec fn strip_of(v: AppView) -> nat {
    strip_inner_of(Rect { x: 0, y: 0, width: v.list_width, height: v.list_height }, v.queue_open) as nat
}

/// How a list cursor moves.
#[derive(Debug, Clone, Copy, PartialEq, Eq, Structural)]
pub enum ListMove {
    Step(isize),
    Page(isize),
    First,
    Last,
}

pub open spec fn cursor_moved(how: ListMove, c: nat, len: nat) -> nat {
    match how {
        ListMove::Step(d) => if len == 0 { 0 } else { wrapped_step(c as int, d as int, len as int) as nat },
        ListMove::Page(d) => if len == 0 { 0 } else { paged(c as int, d as int, len as int) as nat },
        ListMove::First => 0,
        ListMove::Last => if len == 0 { 0 } else { (len - 1) as nat },
    }
}

pub open spec fn library_moved(lib: PaneView, strip: nat, how: ListMove) -> PaneView {
    match how {
        ListMove::Step(d) => navigate(lib, strip, Move::Step(d)),
        ListMove::Page(d) => navigate(lib, strip, Move::Page(d)),
        ListMove::First => navigate(lib, strip, Move::To(0)),
        ListMove::Last => {
            let len = crate::library_pane::len_of(lib, strip);
            if len == 0 { lib } else { navigate(lib, strip, Move::To((len - 1) as usize)) }
        },
    }
}

/// Move the cursor of whichever list has the keys: an open overlay's, the
/// queue's when it has focus, otherwise the library's. The signal
/// inspector has no list.
pub open spec fn lists_moved(v: AppView, how: ListMove, queue_len: nat) -> AppView {
    if v.modal == Modal::Inspector {
        v
    } else if v.modal == Modal::Radio {
        AppView { station_cursor: cursor_moved(how, v.station_cursor, v.stations.len()), ..v }
    } else if v.modal == Modal::Playlists {
        AppView { playlist_cursor: cursor_moved(how, v.playlist_cursor, v.playlists.len()), ..v }
    } else if v.modal == Modal::Devices {
        AppView { device_cursor: cursor_moved(how, v.device_cursor, v.devices.len()), ..v }
    } else if v.focus == Focus::Queue && v.queue_open {
        AppView { queue_cursor: cursor_moved(how, v.queue_cursor, queue_len), queue_h_offset: 0, ..v }
    } else {
        AppView { library: library_moved(v.library, strip_of(v), how), ..v }
    }
}

/// Close the queue drawer: focus returns to the library, whose pan is pulled
/// back for the wider strip.
pub open spec fn queue_closed(v: AppView) -> AppView {
    let w = AppView { queue_open: false, focus: Focus::Library, ..v };
    AppView { library: crate::library_pane::pan_clamped(w.library, w.title_slot, strip_of(w)), ..w }
}

pub open spec fn queue_opened(v: AppView) -> AppView {
    AppView { queue_open: true, focus: Focus::Queue, ..v }
}

/// The label length of the selected queue row, or 0.
pub open spec fn selected_queue_len(v: AppView, queue: Seq<QueueRow>) -> nat {
    match selection(v.queue_cursor as int, queue.len() as int) {
        Some(i) => queue[i].label_len as nat,
        None => 0,
    }
}

/// Pan the titles of whichever list has focus.
pub open spec fn titles_panned(v: AppView, dir: int, queue: Seq<QueueRow>) -> AppView {
    if v.focus == Focus::Queue && v.queue_open {
        AppView {
            queue_h_offset: panned_offset(v.queue_h_offset, dir, sat_sub(selected_queue_len(v, queue), v.queue_title_slot)),
            ..v
        }
    } else {
        AppView { library: crate::library_pane::pan_moved(v.library, dir, v.title_slot, strip_of(v)), ..v }
    }
}

impl App {
    /// The app as it starts: the library in front, nothing open.
    pub fn new(library: Option<LibrarySnapshot>, devices: Vec<Device>) -> (r: Self)
        ensures
            r@.focus == Focus::Library,
            !r@.queue_open,
            r@.modal == Modal::Closed,
            r@.list_width == 100,
            r@.list_height == 0,
            r@.title_slot == 0,
            r@.queue_h_offset == 0,
            r@.queue_title_slot == 0,
            r@.queue_cursor == 0,
            r@.library == crate::library_pane::reload_browse_of(crate::library_pane::fresh_view(library)),
            r@.hits.is_blank(),
            r@.devices == devices@,
            r@.device_cursor == 0,
            r@.playlists.len() == 0,
            r@.playlist_cursor == 0,
            r@.playlist_prompt is None,
            r@.stations.len() == 0,
            r@.station_cursor == 0,
            r@.radio_prompt is None,
            r@.tui.show_cover,
            r@.tui.cover_protocol == crate::tui_config::CoverProtocol::Auto,
            r@.tui.library_layout == crate::tui_config::LibraryLayout::Columns,
            !r@.should_quit,
    {
        App {
            focus: Focus::Library,
            queue_open: false,
            modal: Modal::Closed,
            list_width: 100,
            list_height: 0,
            title_slot: 0,
            queue_h_offset: 0,
            queue_title_slot: 0,
            queue_cursor: Cursor::new(),
            library: LibraryPane::new(library),
            hits: HitMap::default(),
            devices,
            device_cursor: Cursor::new(),
            playlists: Vec::new(),
            playlist_cursor: Cursor::new(),
            playlist_prompt: None,
            stations: Vec::new(),
            station_cursor: Cursor::new(),
            radio_prompt: None,
            tui: TuiConfig::default(),
            should_quit: false,
        }
    }

    /// The library's visible width inside its borders.
    fn strip(&self) -> (r: usize)
        ensures
            r == strip_of(self@),
    {
        strip_inner(Rect::new(0, 0, self.list_width, self.list_height), self.queue_open)
    }

    fn move_cursor(cursor: &mut Cursor, how: ListMove, len: usize)
        ensures
            final(cursor)@ == cursor_moved(how, old(cursor)@, len as nat),
    {
        match how {
            ListMove::Step(d) => cursor.step(d, len),
            ListMove::Page(d) => cursor.page(d, len),
            ListMove::First => cursor.first(),
            ListMove::Last => cursor.last(len),
        }
    }

    /// Move the cursor of whichever list has the keys.
    pub fn move_lists(&mut self, how: ListMove, player: &PlayerView)
        ensures
            final(self)@ == lists_moved(old(self)@, how, player.queue@.len()),
    {
        let ghost v = self@;
        if self.modal == Modal::Inspector {
            return;
        }
        if self.modal == Modal::Radio {
            Self::move_cursor(&mut self.station_cursor, how, self.stations.len());
        } else if self.modal == Modal::Playlists {
            Self::move_cursor(&mut self.playlist_cursor, how, self.playlists.len());
            assert(names_view(self.playlists@).len() == self.playlists@.len());
        } else if self.modal == Modal::Devices {
            Self::move_cursor(&mut self.device_cursor, how, self.devices.len());
        } else if self.focus == Focus::Queue && self.queue_open {
            Self::move_cursor(&mut self.queue_cursor, how, player.queue.len());
            self.queue_h_offset = 0;
        } else {
            let strip = self.strip();
            match how {
                ListMove::Step(d) => self.library.step(d, strip),
                ListMove::Page(d) => self.library.page(d, strip),
                ListMove::First => self.library.first(strip),
                ListMove::Last => self.library.last(strip),
            }
        }
        assert(self@ =~= lists_moved(v, how, player.queue@.len()));
    }

    pub fn open_queue(&mut self)
        ensures
            final(self)@ == queue_opened(old(self)@),
    {
        self.queue_open = true;
        self.focus = Focus::Queue;
    }

    pub fn close_queue(&mut self)
        ensures
            final(self)@ == queue_closed(old(self)@),
    {
        let ghost v = self@;
        self.queue_open = false;
        self.focus = Focus::Library;
        let strip = self.strip();
        self.library.clamp_pan(self.title_slot, strip);
        assert(self@ =~= queue_closed(v));
    }

    fn selected_queue_middle(&self, player: &PlayerView) -> (r: usize)
        ensures
            r == selected_queue_len(self@, player.queue@),
    {
        match self.queue_cursor.selected(player.queue.len()) {
            Some(i) => player.queue[i].label_len,
            None => 0,
        }
    }

    /// Pan the titles of whichever list has focus by `dir` characters.
    pub fn pan_titles(&mut self, dir: isize, player: &PlayerView)
        ensures
            final(self)@ == titles_panned(old(self)@, dir as int, player.queue@),
    {
        let ghost v = self@;
        if self.focus == Focus::Queue && self.queue_open {
            let len = self.selected_queue_middle(player);
            let max: usize = if len > self.queue_title_slot { len - self.queue_title_slot } else { 0 };
            let h = self.queue_h_offset;
            let next: usize = if dir >= 0 {
                let forward = dir as usize;
                if forward > max || h > max - forward { max } else { h + forward }
            } else {
                let back: usize = ((0 - (dir + 1)) as usize) + 1;
                if back >= h { 0 } else if h - back > max { max } else { h - back }
            };
            self.queue_h_offset = next;
        } else {
            let strip = self.strip();
            self.library.pan(dir, self.title_slot, strip);
        }
        assert(self@ =~= titles_panned(v, dir as int, player.queue@));
    }

    /// The pan offset for queue row `index` of `len`: only the selected row pans.
    pub fn queue_offset_for(&self, index: usize, len: usize) -> (r: usize)
        ensures
            r == if selection(self@.queue_cursor as int, len as int) == Some(index as int) { self@.queue_h_offset } else { 0 },
    {
        match self.queue_cursor.selected(len) {
            Some(i) => if i == index { self.queue_h_offset } else { 0 },
            None => 0,
        }
    }

    /// Pull the queue's pan offset back within the selected row's overhang.
    pub fn clamp_queue_pan(&mut self, player: &PlayerView)
        ensures
            final(self)@ == (AppView {
                queue_h_offset: {
                    let max = sat_sub(selected_queue_len(old(self)@, player.queue@), old(self)@.queue_title_slot);
                    if old(self)@.queue_h_offset < max { old(self)@.queue_h_offset } else { max }
                },
                ..old(self)@
            }),
    {
        let len = self.selected_queue_middle(player);
        let max: usize = if len > self.queue_title_slot { len - self.queue_title_slot } else { 0 };
        if self.queue_h_offset > max {
            self.queue_h_offset = max;
        }
    }
}


// ---- keys ----

pub open spec fn say(level: Level, text: Seq<char>) -> Seq<EffectView> {
    seq![EffectView::Notify(level, text)]
}

pub open spec fn send(c: CommandView, message: Option<Seq<char>>) -> Seq<EffectView> {
    seq![EffectView::Send(c, message)]
}

pub open spec fn next_repeat(r: RepeatMode) -> RepeatMode {
    match r {
        RepeatMode::Off => RepeatMode::All,
        RepeatMode::All => RepeatMode::One,
        RepeatMode::One => RepeatMode::Off,
    }
}

/// Space: pause, resume, or start whatever the queue points at.
pub open spec fn pause_effects(p: PlayerView) -> Seq<EffectView> {
    match p.status {
        PlaybackStatus::Playing => send(CommandView::Pause, None),
        PlaybackStatus::Paused => send(CommandView::Resume, None),
        PlaybackStatus::Stopped => if p.queue@.len() == 0 {
            say(Level::Warn, "queue is empty — add tracks from the library"@)
        } else {
            send(CommandView::QueuePlayIndex(p.queue_position as nat), None)
        },
    }
}

/// A single radio stream has no next or previous track to go to.
pub open spec fn skip_effects(p: PlayerView, previous: bool) -> Seq<EffectView> {
    if p.queue@.len() == 1 && p.queue@[0].is_stream {
        say(Level::Info, if previous { "radio has no previous track"@ } else { "radio has no next track"@ })
    } else {
        send(if previous { CommandView::PreviousTrack } else { CommandView::NextTrack }, None)
    }
}

/// Seek by `seconds` from where playback is, never before the start; with
/// nothing loaded (and no stream at the queue position) there is nothing to seek.
pub open spec fn seek_effects(p: PlayerView, seconds: int) -> Seq<EffectView> {
    let on_stream = p.queue_position < p.queue@.len() && p.queue@[p.queue_position as int].is_stream;
    if !p.has_track && !on_stream {
        Seq::empty()
    } else {
        let target = p.position_secs + seconds;
        send(CommandView::Seek(if target < 0 { 0 } else if target > u64::MAX { u64::MAX as nat } else { target as nat }), None)
    }
}

/// `R` over the device list looks for devices again; over the library it
/// reads the library again.
pub open spec fn reload_effects(v: AppView) -> Seq<EffectView> {
    if v.modal == Modal::Devices {
        seq![EffectView::ReloadDevices]
    } else {
        seq![EffectView::ReloadLibrary]
    }
}

/// Whether `R` reloads what is in front: it rescans devices over the device
/// list and reloads the library while the library has the keys; anywhere
/// else it opens or closes the radio overlay.
pub open spec fn r_reloads(v: AppView) -> bool {
    v.modal == Modal::Devices || (v.modal == Modal::Closed && v.focus == Focus::Library)
}

pub open spec fn focus_swapped(v: AppView) -> AppView {
    AppView { focus: if v.focus == Focus::Library { Focus::Queue } else { Focus::Library }, ..v }
}

/// `1`: the queue, in its drawer, with the keys; any overlay closes.
pub open spec fn pane_one(v: AppView) -> AppView {
    AppView { modal: Modal::Closed, ..queue_opened(v) }
}

/// `2`: the library, with the keys; a drawer that covers the whole list
/// closes, and any overlay closes.
pub open spec fn pane_two(v: AppView) -> AppView {
    let w = if v.queue_open && sheet(v.list_width, true) { queue_closed(v) } else { AppView { focus: Focus::Library, ..v } };
    AppView { modal: Modal::Closed, ..w }
}

/// Keys that open and close overlays and the queue drawer.
pub open spec fn overlay_key_of(v: AppView, key: KeyEvent) -> Option<(AppView, Seq<EffectView>)> {
    let none = Seq::<EffectView>::empty();
    match key.code {
        KeyCode::Char('q') => Some((AppView { should_quit: true, ..v }, none)),
        KeyCode::Char('?') => Some((AppView { modal: Modal::Help, ..v }, none)),
        KeyCode::Char(',') => Some((AppView { modal: if v.modal == Modal::Devices { Modal::Closed } else { Modal::Devices }, ..v }, none)),
        KeyCode::Char('i') => Some((AppView { modal: if v.modal == Modal::Inspector { Modal::Closed } else { Modal::Inspector }, ..v }, none)),
        KeyCode::Char('P') => Some(if v.modal == Modal::Playlists {
            (AppView { modal: Modal::Closed, playlist_prompt: None, ..v }, none)
        } else {
            (AppView { modal: Modal::Playlists, ..v }, seq![EffectView::ReloadPlaylists])
        }),
        KeyCode::Char('R') => Some(if r_reloads(v) {
            (v, reload_effects(v))
        } else if v.modal == Modal::Radio {
            (AppView { modal: Modal::Closed, radio_prompt: None, ..v }, none)
        } else {
            (AppView { modal: Modal::Radio, playlist_prompt: None, ..v }, seq![EffectView::ReloadStations])
        }),
        KeyCode::Char(']') => Some((if v.queue_open { queue_closed(v) } else { queue_opened(v) }, none)),
        KeyCode::Char('1') => Some((pane_one(v), none)),
        KeyCode::Char('2') => Some((pane_two(v), none)),
        KeyCode::Char('3') => Some((AppView { modal: Modal::Devices, ..v }, none)),
        KeyCode::Tab => Some((if !v.queue_open {
            queue_opened(v)
        } else if sheet(v.list_width, true) {
            v
        } else {
            focus_swapped(v)
        }, none)),
        KeyCode::BackTab => Some((if !v.queue_open || sheet(v.list_width, true) { v } else { focus_swapped(v) }, none)),
        _ => None,
    }
}

/// Keys that command the player, and the title pan.
pub open spec fn playback_key_of(v: AppView, key: KeyEvent, p: PlayerView) -> Option<(AppView, Seq<EffectView>)> {
    let none = Seq::<EffectView>::empty();
    match key.code {
        KeyCode::Char(' ') => Some((v, pause_effects(p))),
        KeyCode::Char('s') => Some((v, send(CommandView::Stop, None))),
        KeyCode::Char('n') => Some((v, skip_effects(p, false))),
        KeyCode::Char('p') | KeyCode::Char('N') => Some((v, skip_effects(p, true))),
        KeyCode::Right => Some(if key.modifiers.alt { (titles_panned(v, 1, p.queue@), none) } else { (v, seek_effects(p, 5)) }),
        KeyCode::Left => Some(if key.modifiers.alt { (titles_panned(v, -1, p.queue@), none) } else { (v, seek_effects(p, -5)) }),
        KeyCode::Char('l') => Some((v, seek_effects(p, 5))),
        KeyCode::Char('h') => Some((v, seek_effects(p, -5))),
        KeyCode::Char('L') => Some((v, seek_effects(p, 30))),
        KeyCode::Char('H') => Some((v, seek_effects(p, -30))),
        KeyCode::Char('+') | KeyCode::Char('=') => Some((v, send(CommandView::VolumeStep(true), None))),
        KeyCode::Char('-') | KeyCode::Char('_') => Some((v, send(CommandView::VolumeStep(false), None))),
        KeyCode::Char('m') => Some((v, send(CommandView::SetMuted(!p.muted), Some(if !p.muted { "muted"@ } else { "unmuted"@ })))),
        KeyCode::Char('e') | KeyCode::Char('r') => Some((v, send(
            CommandView::SetRepeat(next_repeat(p.repeat)),
            Some(crate::transport::repeat_text(next_repeat(p.repeat))),
        ))),
        KeyCode::Char('z') => Some((v, send(CommandView::SetShuffle(!p.shuffle), Some(if !p.shuffle { "shuffle on"@ } else { "shuffle off"@ })))),
        _ => None,
    }
}

/// Keys that move the cursor of the list that has the keys.
pub open spec fn movement_of(key: KeyEvent) -> Option<ListMove> {
    match key.code {
        KeyCode::Down | KeyCode::Char('j') => Some(ListMove::Step(1isize)),
        KeyCode::Up | KeyCode::Char('k') => Some(ListMove::Step(-1isize)),
        KeyCode::PageDown => Some(ListMove::Page(20isize)),
        KeyCode::PageUp => Some(ListMove::Page(-20isize)),
        KeyCode::Char('g') | KeyCode::Home => Some(ListMove::First),
        KeyCode::Char('G') | KeyCode::End => Some(ListMove::Last),
        _ => None,
    }
}

/// Keys that work everywhere outside a text prompt; `None` when `key` is
/// not one of them.
pub open spec fn global_of(v: AppView, key: KeyEvent, p: PlayerView) -> Option<(AppView, Seq<EffectView>)> {
    match overlay_key_of(v, key) {
        Some(x) => Some(x),
        None => match playback_key_of(v, key, p) {
            Some(x) => Some(x),
            None => match movement_of(key) {
                Some(how) => Some((lists_moved(v, how, p.queue@.len()), Seq::<EffectView>::empty())),
                None => None,
            },
        },
    }
}

fn one(e: Effect) -> (r: Vec<Effect>)
    ensures
        effects_view(r@) == seq![effect_view(e)],
{
    let mut out: Vec<Effect> = Vec::new();
    let ghost g = e;
    out.push(e);
    assert(effects_view(out@) =~= seq![effect_view(g)]);
    out
}

fn notify(level: Level, text: &str) -> (r: Vec<Effect>)
    ensures
        effects_view(r@) == say(level, text@),
{
    one(Effect::Notify(level, owned(text)))
}

fn sending(c: Command, message: Option<&str>) -> (r: Vec<Effect>)
    ensures
        effects_view(r@) == send(command_view(c), match message {
            Some(m) => Some(m@),
            None => None,
        }),
{
    let m = match message {
        Some(t) => Some(owned(t)),
        None => None,
    };
    one(Effect::Send(c, m))
}

impl App {
    fn pause_keys(player: &PlayerView) -> (r: Vec<Effect>)
        ensures
            effects_view(r@) == pause_effects(*player),
    {
        match player.status {
            PlaybackStatus::Playing => sending(Command::Pause, None),
            PlaybackStatus::Paused => sending(Command::Resume, None),
            PlaybackStatus::Stopped => {
                if player.queue.len() == 0 {
                    notify(Level::Warn, "queue is empty — add tracks from the library")
                } else {
                    sending(Command::QueuePlayIndex(player.queue_position), None)
                }
            },
        }
    }

    fn skip_keys(player: &PlayerView, previous: bool) -> (r: Vec<Effect>)
        ensures
            effects_view(r@) == skip_effects(*player, previous),
    {
        if player.queue.len() == 1 && player.queue[0].is_stream {
            notify(Level::Info, if previous { "radio has no previous track" } else { "radio has no next track" })
        } else {
            sending(if previous { Command::PreviousTrack } else { Command::NextTrack }, None)
        }
    }

    fn seek_keys(player: &PlayerView, seconds: i64) -> (r: Vec<Effect>)
        requires
            -30 <= seconds <= 30,
        ensures
            effects_view(r@) == seek_effects(*player, seconds as int),
    {
        let on_stream = player.queue_position < player.queue.len() && player.queue[player.queue_position].is_stream;
        if !player.has_track && !on_stream {
            let out: Vec<Effect> = Vec::new();
            assert(effects_view(out@) =~= Seq::<EffectView>::empty());
            return out;
        }
        let target: u64 = if seconds >= 0 {
            let forward = seconds as u64;
            if player.position_secs > u64::MAX - forward { u64::MAX } else { player.position_secs + forward }
        } else {
            let back = (0 - seconds) as u64;
            if back >= player.position_secs { 0 } else { player.position_secs - back }
        };
        sending(Command::Seek(target), None)
    }
}


pub open spec fn handled(r: Option<Vec<Effect>>, old_v: AppView, new_v: AppView, spec_r: Option<(AppView, Seq<EffectView>)>) -> bool {
    match spec_r {
        None => r is None && new_v == old_v,
        Some((w, es)) => r is Some && new_v == w && effects_view(r.unwrap()@) == es,
    }
}

/// `added 1 track`, or `added N tracks`.
fn added_message(count: usize) -> (r: String)
    ensures
        r@ == added_text(count as nat),
{
    if count == 1 {
        owned("added 1 track")
    } else {
        let mut m = owned("added ");
        crate::text::push_decimal(&mut m, count as u64);
        m.append(" tracks");
        m
    }
}

fn push_effect(out: &mut Vec<Effect>, e: Effect)
    ensures
        effects_view(final(out)@) == effects_view(old(out)@).push(effect_view(e)),
{
    let ghost g = e;
    out.push(e);
    assert(effects_view(out@) =~= effects_view(old(out)@).push(effect_view(g)));
}

fn nothing() -> (r: Vec<Effect>)
    ensures
        effects_view(r@) == Seq::<EffectView>::empty(),
{
    let out: Vec<Effect> = Vec::new();
    assert(effects_view(out@) =~= Seq::<EffectView>::empty());
    out
}

impl App {
    fn toggle_playlists_modal(&mut self) -> (r: Vec<Effect>)
        ensures
            (final(self)@, effects_view(r@)) == (if old(self)@.modal == Modal::Playlists {
                (AppView { modal: Modal::Closed, playlist_prompt: None, ..old(self)@ }, Seq::<EffectView>::empty())
            } else {
                (AppView { modal: Modal::Playlists, ..old(self)@ }, seq![EffectView::ReloadPlaylists])
            }),
    {
        if self.modal == Modal::Playlists {
            self.modal = Modal::Closed;
            self.playlist_prompt = None;
            nothing()
        } else {
            self.modal = Modal::Playlists;
            one(Effect::ReloadPlaylists)
        }
    }

    fn toggle_radio_modal(&mut self) -> (r: Vec<Effect>)
        ensures
            (final(self)@, effects_view(r@)) == (if old(self)@.modal == Modal::Radio {
                (AppView { modal: Modal::Closed, radio_prompt: None, ..old(self)@ }, Seq::<EffectView>::empty())
            } else {
                (AppView { modal: Modal::Radio, playlist_prompt: None, ..old(self)@ }, seq![EffectView::ReloadStations])
            }),
    {
        if self.modal == Modal::Radio {
            self.modal = Modal::Closed;
            self.radio_prompt = None;
            nothing()
        } else {
            self.playlist_prompt = None;
            self.modal = Modal::Radio;
            one(Effect::ReloadStations)
        }
    }

    fn reload_front(&self) -> (r: Vec<Effect>)
        ensures
            effects_view(r@) == reload_effects(self@),
    {
        if self.modal == Modal::Devices {
            one(Effect::ReloadDevices)
        } else {
            one(Effect::ReloadLibrary)
        }
    }

    fn swap_focus(&mut self)
        ensures
            final(self)@ == focus_swapped(old(self)@),
    {
        self.focus = match self.focus {
            Focus::Library => Focus::Queue,
            Focus::Queue => Focus::Library,
        };
    }

    fn overlay_key(&mut self, key: KeyEvent) -> (r: Option<Vec<Effect>>)
        ensures
            handled(r, old(self)@, final(self)@, overlay_key_of(old(self)@, key)),
    {
        match key.code {
            KeyCode::Char('q') => {
                self.should_quit = true;
                Some(nothing())
            },
            KeyCode::Char('?') => {
                self.modal = Modal::Help;
                Some(nothing())
            },
            KeyCode::Char(',') => {
                self.modal = if self.modal == Modal::Devices { Modal::Closed } else { Modal::Devices };
                Some(nothing())
            },
            KeyCode::Char('i') => {
                self.modal = if self.modal == Modal::Inspector { Modal::Closed } else { Modal::Inspector };
                Some(nothing())
            },
            KeyCode::Char('P') => Some(self.toggle_playlists_modal()),
            KeyCode::Char('R') => {
                if self.modal == Modal::Devices || (self.modal == Modal::Closed && self.focus == Focus::Library) {
                    Some(self.reload_front())
                } else {
                    Some(self.toggle_radio_modal())
                }
            },
            KeyCode::Char(']') => {
                if self.queue_open {
                    self.close_queue();
                } else {
                    self.open_queue();
                }
                Some(nothing())
            },
            KeyCode::Char('1') => {
                self.open_queue();
                self.modal = Modal::Closed;
                Some(nothing())
            },
            KeyCode::Char('2') => {
                if self.queue_open && is_sheet(self.list_width, true) {
                    self.close_queue();
                } else {
                    self.focus = Focus::Library;
                }
                self.modal = Modal::Closed;
                Some(nothing())
            },
            KeyCode::Char('3') => {
                self.modal = Modal::Devices;
                Some(nothing())
            },
            KeyCode::Tab => {
                if !self.queue_open {
                    self.open_queue();
                } else if is_sheet(self.list_width, true) {
                } else {
                    self.swap_focus();
                }
                Some(nothing())
            },
            KeyCode::BackTab => {
                if !self.queue_open || is_sheet(self.list_width, true) {
                } else {
                    self.swap_focus();
                }
                Some(nothing())
            },
            _ => None,
        }
    }

    fn playback_key(&mut self, key: KeyEvent, player: &PlayerView) -> (r: Option<Vec<Effect>>)
        ensures
            handled(r, old(self)@, final(self)@, playback_key_of(old(self)@, key, *player)),
    {
        match key.code {
            KeyCode::Char(' ') => Some(Self::pause_keys(player)),
            KeyCode::Char('s') => Some(sending(Command::Stop, None)),
            KeyCode::Char('n') => Some(Self::skip_keys(player, false)),
            KeyCode::Char('p') | KeyCode::Char('N') => Some(Self::skip_keys(player, true)),
            KeyCode::Right => {
                if key.modifiers.alt {
                    self.pan_titles(1, player);
                    Some(nothing())
                } else {
                    Some(Self::seek_keys(player, 5))
                }
            },
            KeyCode::Left => {
                if key.modifiers.alt {
                    self.pan_titles(-1, player);
                    Some(nothing())
                } else {
                    Some(Self::seek_keys(player, -5))
                }
            },
            KeyCode::Char('l') => Some(Self::seek_keys(player, 5)),
            KeyCode::Char('h') => Some(Self::seek_keys(player, -5)),
            KeyCode::Char('L') => Some(Self::seek_keys(player, 30)),
            KeyCode::Char('H') => Some(Self::seek_keys(player, -30)),
            KeyCode::Char('+') | KeyCode::Char('=') => Some(sending(Command::VolumeStep(true), None)),
            KeyCode::Char('-') | KeyCode::Char('_') => Some(sending(Command::VolumeStep(false), None)),
            KeyCode::Char('m') => {
                let muted = !player.muted;
                Some(sending(Command::SetMuted(muted), Some(if muted { "muted" } else { "unmuted" })))
            },
            KeyCode::Char('e') | KeyCode::Char('r') => {
                let mode = match player.repeat {
                    RepeatMode::Off => RepeatMode::All,
                    RepeatMode::All => RepeatMode::One,
                    RepeatMode::One => RepeatMode::Off,
                };
                Some(sending(Command::SetRepeat(mode), Some(crate::transport::repeat_label(mode))))
            },
            KeyCode::Char('z') => {
                let shuffle = !player.shuffle;
                Some(sending(Command::SetShuffle(shuffle), Some(if shuffle { "shuffle on" } else { "shuffle off" })))
            },
            _ => None,
        }
    }

    fn movement(key: KeyEvent) -> (r: Option<ListMove>)
        ensures
            r == movement_of(key),
    {
        match key.code {
            KeyCode::Down | KeyCode::Char('j') => Some(ListMove::Step(1)),
            KeyCode::Up | KeyCode::Char('k') => Some(ListMove::Step(-1)),
            KeyCode::PageDown => Some(ListMove::Page(20)),
            KeyCode::PageUp => Some(ListMove::Page(-20)),
            KeyCode::Char('g') | KeyCode::Home => Some(ListMove::First),
            KeyCode::Char('G') | KeyCode::End => Some(ListMove::Last),
            _ => None,
        }
    }

    /// Keys that work everywhere outside a text prompt; `None` when `key` is
    /// not one of them.
    pub fn global_key(&mut self, key: KeyEvent, player: &PlayerView) -> (r: Option<Vec<Effect>>)
        ensures
            handled(r, old(self)@, final(self)@, global_of(old(self)@, key, *player)),
    {
        match self.overlay_key(key) {
            Some(es) => return Some(es),
            None => {},
        }
        match self.playback_key(key, player) {
            Some(es) => return Some(es),
            None => {},
        }
        match Self::movement(key) {
            Some(how) => {
                self.move_lists(how, player);
                Some(nothing())
            },
            None => None,
        }
    }
}


// ---- text prompts, overlays and the focused pane ----

/// Every open prompt can take one more character.
pub open spec fn prompts_fit(v: AppView) -> bool {
    &&& (v.library.input matches Some((t, _)) ==> t.len() < usize::MAX)
    &&& (v.playlist_prompt matches Some((_, e)) ==> e.0.len() < usize::MAX)
    &&& (v.radio_prompt matches Some(r) ==> radio_buffer(r).0.len() < usize::MAX)
}

/// A line after an editing key: the edited line, or the same line when the
/// key does not edit.
pub open spec fn edited(e: EditView, key: KeyEvent) -> EditView {
    match edit_key(e.0, e.1, key) {
        Some(n) => n,
        None => e,
    }
}

/// A key while the library search prompt is open.
pub open spec fn search_key_of(v: AppView, key: KeyEvent) -> (AppView, Seq<EffectView>) {
    let closed = AppView { library: PaneView { input: None, ..v.library }, ..v };
    match key.code {
        KeyCode::Esc => (closed, say(Level::Info, "search cancelled"@)),
        KeyCode::Enter => {
            let (is_query, text) = crate::library_pane::submit_request(v.library);
            (closed, if is_query { seq![EffectView::Search(text)] } else { say(Level::Info, text) })
        },
        _ => match v.library.input {
            Some(e) => (AppView { library: PaneView { input: Some(edited(e, key)), ..v.library }, ..v }, Seq::empty()),
            None => (v, Seq::empty()),
        },
    }
}

pub open spec fn selected_playlist(v: AppView) -> Option<Seq<char>> {
    match selection(v.playlist_cursor as int, v.playlists.len() as int) {
        Some(i) => Some(v.playlists[i]),
        None => None,
    }
}

pub open spec fn selected_station(v: AppView) -> Option<Station> {
    match selection(v.station_cursor as int, v.stations.len() as int) {
        Some(i) => Some(v.stations[i]),
        None => None,
    }
}

/// A key while a playlist name is being typed.
pub open spec fn playlist_input_of(v: AppView, key: KeyEvent) -> (AppView, Seq<EffectView>) {
    let closed = AppView { playlist_prompt: None, ..v };
    match v.playlist_prompt {
        None => (v, Seq::empty()),
        Some((kind, e)) => match key.code {
            KeyCode::Esc => (closed, Seq::empty()),
            KeyCode::Enter => match kind {
                PromptKind::Save => (closed, seq![EffectView::SavePlaylist(e)]),
                PromptKind::Rename => match selected_playlist(v) {
                    Some(n) => (closed, seq![EffectView::RenamePlaylist(n, e)]),
                    None => (closed, say(Level::Info, "no playlists"@)),
                },
                PromptKind::Copy => match selected_playlist(v) {
                    Some(n) => (closed, seq![EffectView::CopyPlaylist(n, e)]),
                    None => (closed, say(Level::Info, "no playlists"@)),
                },
            },
            _ => (AppView { playlist_prompt: Some((kind, edited(e, key))), ..v }, Seq::empty()),
        },
    }
}

/// A key while the station form or the copy prompt is open.
pub open spec fn radio_input_of(v: AppView, key: KeyEvent) -> (AppView, Seq<EffectView>) {
    let closed = AppView { radio_prompt: None, ..v };
    match v.radio_prompt {
        None => (v, Seq::empty()),
        Some(r) => match key.code {
            KeyCode::Esc => (closed, Seq::empty()),
            KeyCode::Enter => match r {
                RadioView::Form(..) => (closed, seq![EffectView::SaveStation(r)]),
                RadioView::Copy(e) => match selected_station(v) {
                    Some(st) => (closed, seq![EffectView::CopyStation(st.name@, e)]),
                    None => (closed, say(Level::Info, "no stations"@)),
                },
            },
            KeyCode::Tab | KeyCode::Down => (AppView { radio_prompt: Some(cycled(r, true)), ..v }, Seq::empty()),
            KeyCode::BackTab | KeyCode::Up => (AppView { radio_prompt: Some(cycled(r, false)), ..v }, Seq::empty()),
            _ => (AppView { radio_prompt: Some(with_radio_buffer(r, edited(radio_buffer(r), key))), ..v }, Seq::empty()),
        },
    }
}

/// Ctrl held: Ctrl-c quits, Ctrl-d and Ctrl-u move half a page.
pub open spec fn control_of(v: AppView, code: KeyCode, qlen: nat) -> AppView {
    match code {
        KeyCode::Char('c') => AppView { should_quit: true, ..v },
        KeyCode::Char('d') => lists_moved(v, ListMove::Page(10isize), qlen),
        KeyCode::Char('u') => lists_moved(v, ListMove::Page(-10isize), qlen),
        _ => v,
    }
}

/// Esc: close the overlay, else the focused queue drawer, else step back in
/// the library.
pub open spec fn esc_of(v: AppView) -> AppView {
    if v.modal.blocks() {
        AppView { modal: Modal::Closed, playlist_prompt: None, radio_prompt: None, ..v }
    } else if v.focus == Focus::Queue && v.queue_open {
        queue_closed(v)
    } else {
        AppView { library: back_of(v.library).0, ..v }
    }
}

/// Keys of the playlist overlay; `None` when `key` is not one of them.
pub open spec fn playlists_key_of(v: AppView, key: KeyEvent, p: PlayerView) -> Option<(AppView, Seq<EffectView>)> {
    let sel = selected_playlist(v);
    let none = Seq::<EffectView>::empty();
    match key.code {
        KeyCode::Enter => Some((v, match sel { Some(n) => seq![EffectView::PlayPlaylist(n, false)], None => none })),
        KeyCode::Char('a') => Some((v, match sel { Some(n) => seq![EffectView::PlayPlaylist(n, true)], None => none })),
        KeyCode::Char('n') | KeyCode::Char('w') => Some(if p.queue@.len() == 0 {
            (v, say(Level::Warn, "queue is empty"@))
        } else {
            (AppView { playlist_prompt: Some((PromptKind::Save, (Seq::empty(), 0nat))), ..v }, none)
        }),
        KeyCode::Char('e') => Some(match sel {
            Some(n) => (AppView { playlist_prompt: Some((PromptKind::Rename, (n, n.len()))), ..v }, none),
            None => (v, say(Level::Info, "no playlists"@)),
        }),
        KeyCode::Char('c') => Some(match sel {
            Some(n) => (AppView { playlist_prompt: Some((PromptKind::Copy, (n, n.len()))), ..v }, none),
            None => (v, say(Level::Info, "no playlists"@)),
        }),
        KeyCode::Char('d') => Some(match sel {
            Some(n) => (v, seq![EffectView::DeletePlaylist(n)]),
            None => (v, say(Level::Info, "no playlists"@)),
        }),
        _ => None,
    }
}

pub open spec fn empty_form() -> RadioView {
    RadioView::Form((Seq::empty(), 0nat), (Seq::empty(), 0nat), (Seq::empty(), 0nat), StationField::Name, None)
}

pub open spec fn edit_form(st: Station) -> RadioView {
    RadioView::Form(
        (st.name@, st.name@.len()),
        (st.url@, st.url@.len()),
        match st.art {
            Some(a) => (a@, a@.len()),
            None => (Seq::<char>::empty(), 0nat),
        },
        StationField::Name,
        Some(st.name@),
    )
}

/// Keys of the station overlay; `None` when `key` is not one of them.
pub open spec fn radio_key_of(v: AppView, key: KeyEvent) -> Option<(AppView, Seq<EffectView>)> {
    let sel = selected_station(v);
    let none = Seq::<EffectView>::empty();
    let no_stations = say(Level::Info, "no stations"@);
    match key.code {
        KeyCode::Enter => Some((v, match sel { Some(st) => seq![EffectView::PlayStation(st, false)], None => no_stations })),
        KeyCode::Char('a') => Some((v, match sel { Some(st) => seq![EffectView::PlayStation(st, true)], None => no_stations })),
        KeyCode::Char('n') => Some((AppView { radio_prompt: Some(empty_form()), ..v }, none)),
        KeyCode::Char('e') => Some(match sel {
            Some(st) => (AppView { radio_prompt: Some(edit_form(st)), ..v }, none),
            None => (v, no_stations),
        }),
        KeyCode::Char('c') => Some(match sel {
            Some(st) => (AppView { radio_prompt: Some(RadioView::Copy((st.name@, st.name@.len()))), ..v }, none),
            None => (v, no_stations),
        }),
        KeyCode::Char('d') => Some(match sel {
            Some(st) => (v, seq![EffectView::DeleteStation(st.name@)]),
            None => (v, no_stations),
        }),
        _ => None,
    }
}

/// Enter in the device overlay opens the selected device.
pub open spec fn devices_key_of(v: AppView, key: KeyEvent) -> Seq<EffectView> {
    if key.code == KeyCode::Enter {
        match selection(v.device_cursor as int, v.devices.len() as int) {
            Some(i) => send(CommandView::SetDevice(i as nat), Some("output: "@ + v.devices[i].name@)),
            None => Seq::empty(),
        }
    } else {
        Seq::empty()
    }
}

/// Keys of the focused queue drawer.
pub open spec fn queue_key_of(v: AppView, key: KeyEvent, p: PlayerView) -> (AppView, Seq<EffectView>) {
    let qlen = p.queue@.len();
    let sel = selection(v.queue_cursor as int, qlen as int);
    match key.code {
        KeyCode::Enter => (v, match sel {
            Some(i) => send(CommandView::QueuePlayIndex(i as nat), None),
            None => Seq::empty(),
        }),
        KeyCode::Char('d') | KeyCode::Delete => (v, match sel {
            Some(i) => send(CommandView::QueueRemove(i as nat), Some("removed from queue"@)).push(EffectView::ClampQueueCursor),
            None => Seq::empty(),
        }),
        KeyCode::Char('C') => (AppView { queue_cursor: 0, ..v }, send(CommandView::QueueClear, Some("queue cleared"@))),
        KeyCode::Char('o') => (AppView { queue_cursor: clamp_to(p.queue_position as nat, qlen), ..v }, Seq::empty()),
        _ => (v, Seq::empty()),
    }
}

pub open spec fn added_text(n: nat) -> Seq<char> {
    if n == 1 { "added 1 track"@ } else { "added "@ + crate::text::decimal(n) + " tracks"@ }
}

/// Queue `tracks`, or say there is nothing to add.
pub open spec fn enqueue_effects(tracks: Seq<Track>) -> Seq<EffectView> {
    if tracks.len() == 0 {
        say(Level::Warn, "nothing to add"@)
    } else {
        send(CommandView::QueueAdd(tracks), Some(added_text(tracks.len())))
    }
}

/// Keys of the focused library pane.
pub open spec fn library_key_of(v: AppView, key: KeyEvent) -> (AppView, Seq<EffectView>) {
    let strip = strip_of(v);
    let lib = v.library;
    match key.code {
        KeyCode::Char('/') => (AppView { library: PaneView { input: Some((Seq::empty(), 0nat)), ..lib }, ..v }, Seq::empty()),
        KeyCode::Enter => match selected_item_of(lib, strip) {
            Some(ItemView::Track(t)) => (v, send(CommandView::Play(t), None)),
            Some(_) => (AppView { library: enter_of(lib, strip).0, ..v }, Seq::empty()),
            None => (v, Seq::empty()),
        },
        KeyCode::Char('a') => (v, enqueue_effects(item_tracks(lib, selected_item_of(lib, strip)))),
        KeyCode::Char('A') => (v, enqueue_effects(listed_tracks_of(lib, strip))),
        _ => (v, Seq::empty()),
    }
}

/// One key press: an open help overlay takes any key to close; an open
/// prompt takes every key as text; then Ctrl combinations, Esc, the keys of
/// an open overlay, the global keys, and finally the keys of the focused pane.
pub open spec fn key_of(v: AppView, key: KeyEvent, p: PlayerView) -> (AppView, Seq<EffectView>) {
    if v.modal == Modal::Help {
        (AppView { modal: Modal::Closed, ..v }, Seq::empty())
    } else if v.library.input is Some {
        search_key_of(v, key)
    } else if v.playlist_prompt is Some {
        playlist_input_of(v, key)
    } else if v.radio_prompt is Some {
        radio_input_of(v, key)
    } else if key.modifiers.control {
        (control_of(v, key.code, p.queue@.len()), Seq::empty())
    } else if key.code == KeyCode::Esc {
        (esc_of(v), Seq::empty())
    } else if v.modal == Modal::Playlists && playlists_key_of(v, key, p) is Some {
        playlists_key_of(v, key, p).unwrap()
    } else if v.modal == Modal::Radio && radio_key_of(v, key) is Some {
        radio_key_of(v, key).unwrap()
    } else if global_of(v, key, p) is Some {
        global_of(v, key, p).unwrap()
    } else if v.modal == Modal::Devices {
        (v, devices_key_of(v, key))
    } else if v.modal == Modal::Inspector {
        (v, Seq::empty())
    } else if v.focus == Focus::Queue {
        queue_key_of(v, key, p)
    } else {
        library_key_of(v, key)
    }
}


/// No prompt is open and no overlay is shown: the keys reach the panes.
pub open spec fn idle(v: AppView) -> bool {
    &&& v.modal == Modal::Closed
    &&& v.library.input is None
    &&& v.playlist_prompt is None
    &&& v.radio_prompt is None
}

/// With the help overlay up, any key closes it and does nothing else.
pub proof fn any_key_closes_help(v: AppView, key: KeyEvent, p: PlayerView)
    requires
        v.modal == Modal::Help,
    ensures
        key_of(v, key, p) == (AppView { modal: Modal::Closed, ..v }, Seq::<EffectView>::empty()),
{
}

/// With the queue drawer open beside the library, `Tab` moves the keys to
/// the other list and a second `Tab` brings them back.
pub proof fn tab_twice_gives_the_keys_back(v: AppView, p: PlayerView)
    requires
        idle(v),
        v.queue_open,
        !sheet(v.list_width, true),
    ensures
        key_of(v, plain_key(KeyCode::Tab), p).0.focus != v.focus,
        key_of(v, plain_key(KeyCode::Tab), p).1.len() == 0,
        key_of(key_of(v, plain_key(KeyCode::Tab), p).0, plain_key(KeyCode::Tab), p).0 == v,
{
    let w = key_of(v, plain_key(KeyCode::Tab), p).0;
    assert(w == focus_swapped(v));
    assert(key_of(w, plain_key(KeyCode::Tab), p).0 == focus_swapped(w));
}

/// The device list and the inspector open on their key, and the same key
/// closes them again, leaving everything as it was.
pub proof fn overlay_keys_toggle(v: AppView, c: char, p: PlayerView)
    requires
        idle(v),
        c == ',' || c == 'i',
    ensures
        key_of(v, plain_key(KeyCode::Char(c)), p).0.modal == (if c == ',' { Modal::Devices } else { Modal::Inspector }),
        key_of(v, plain_key(KeyCode::Char(c)), p).1.len() == 0,
        key_of(key_of(v, plain_key(KeyCode::Char(c)), p).0, plain_key(KeyCode::Char(c)), p).0 == v,
{
    let k = plain_key(KeyCode::Char(c));
    let w = key_of(v, k, p).0;
    assert(w == AppView { modal: if c == ',' { Modal::Devices } else { Modal::Inspector }, ..v });
    assert(key_of(w, k, p).0 == AppView { modal: Modal::Closed, ..w });
}

/// With no prompt open and no help shown, `1`, `2` and `3` switch to the
/// queue, the library and the devices, and do nothing else.
pub proof fn numbers_switch_panes(v: AppView, p: PlayerView)
    requires
        v.modal != Modal::Help,
        v.library.input is None,
        v.playlist_prompt is None,
        v.radio_prompt is None,
    ensures
        key_of(v, plain_key(KeyCode::Char('1')), p) == (pane_one(v), Seq::<EffectView>::empty()),
        key_of(v, plain_key(KeyCode::Char('1')), p).0.queue_open,
        key_of(v, plain_key(KeyCode::Char('1')), p).0.focus == Focus::Queue,
        key_of(v, plain_key(KeyCode::Char('2')), p) == (pane_two(v), Seq::<EffectView>::empty()),
        key_of(v, plain_key(KeyCode::Char('2')), p).0.focus == Focus::Library,
        key_of(v, plain_key(KeyCode::Char('3')), p) == (AppView { modal: Modal::Devices, ..v }, Seq::<EffectView>::empty()),
{
}

/// `]` opens the queue drawer when it is shut and shuts it when it is open.
pub proof fn the_drawer_key_toggles_the_drawer(v: AppView, p: PlayerView)
    requires
        idle(v),
    ensures
        key_of(v, plain_key(KeyCode::Char(']')), p).0.queue_open == !v.queue_open,
        key_of(v, plain_key(KeyCode::Char(']')), p).0.focus == (if v.queue_open { Focus::Library } else { Focus::Queue }),
        key_of(v, plain_key(KeyCode::Char(']')), p).1.len() == 0,
{
}

/// `Esc` closes whatever overlay is open, along with any prompt in it.
pub proof fn escape_closes_an_overlay(v: AppView, p: PlayerView)
    requires
        v.modal.blocks(),
        v.library.input is None,
        v.playlist_prompt is None,
        v.radio_prompt is None,
    ensures
        key_of(v, plain_key(KeyCode::Esc), p) == (AppView { modal: Modal::Closed, ..v }, Seq::<EffectView>::empty()),
{
}

/// With nothing open, Space toggles playback: it pauses what plays,
/// resumes what is paused (so the two never send the same command), starts
/// a stopped queue at its position, and leaves the screen as it was.
pub proof fn space_pauses_and_resumes(v: AppView, p: PlayerView)
    requires
        idle(v),
    ensures
        key_of(v, plain_key(KeyCode::Char(' ')), p).0 == v,
        p.status == PlaybackStatus::Playing ==> key_of(v, plain_key(KeyCode::Char(' ')), p).1
            == seq![EffectView::Send(CommandView::Pause, None)],
        p.status == PlaybackStatus::Paused ==> key_of(v, plain_key(KeyCode::Char(' ')), p).1
            == seq![EffectView::Send(CommandView::Resume, None)],
        p.status == PlaybackStatus::Stopped && p.queue@.len() > 0 ==> key_of(v, plain_key(KeyCode::Char(' ')), p).1
            == seq![EffectView::Send(CommandView::QueuePlayIndex(p.queue_position as nat), None)],
        p.status == PlaybackStatus::Stopped && p.queue@.len() == 0 ==> key_of(v, plain_key(KeyCode::Char(' ')), p).1.len() == 1
            && key_of(v, plain_key(KeyCode::Char(' ')), p).1[0] is Notify,
{
}

/// With nothing open and the keys on an open, non-empty queue, the wheel
/// moves the queue cursor one row, down or up, wrapping at both ends, to
/// the row `j` or `k` would move it to, and changes nothing else.
pub proof fn the_wheel_steps_the_queue(v: AppView, m: MouseEvent, p: PlayerView)
    requires
        idle(v),
        v.focus == Focus::Queue,
        v.queue_open,
        p.queue@.len() > 0,
        m.kind == MouseKind::ScrollDown || m.kind == MouseKind::ScrollUp,
    ensures
        ({
            let len = p.queue@.len();
            let at = if v.queue_cursor < len { v.queue_cursor as int } else { len - 1 };
            let to = if m.kind == MouseKind::ScrollDown {
                if at + 1 == len { 0 } else { at + 1 }
            } else {
                if at == 0 { len - 1 } else { at - 1 }
            };
            mouse_of(v, m, p) == (AppView { queue_cursor: to as nat, ..v }, Seq::<EffectView>::empty())
        }),
        mouse_of(v, m, p).0.queue_cursor == key_of(
            v,
            plain_key(KeyCode::Char(if m.kind == MouseKind::ScrollDown { 'j' } else { 'k' })),
            p,
        ).0.queue_cursor,
{
    let len = p.queue@.len() as int;
    let at = crate::cursor::clamped(v.queue_cursor as int, len);
    assert(0 <= at < len);
    assert((at + 1) % len == if at + 1 == len { 0 } else { at + 1 }) by (nonlinear_arith)
        requires
            0 <= at < len,
    ;
    assert((at + -1) % len == if at == 0 { len - 1 } else { at - 1 }) by (nonlinear_arith)
        requires
            0 <= at < len,
    ;
}

/// Outside prompts, help and the inspector, the wheel moves the cursor of
/// the list under the keys exactly as `j` (down) and `k` (up) do, and
/// brings no effect; the queue keeps its title pan.
pub proof fn the_wheel_moves_like_j_and_k(v: AppView, m: MouseEvent, p: PlayerView)
    requires
        v.library.input is None,
        v.playlist_prompt is None,
        v.radio_prompt is None,
        v.modal != Modal::Help,
        v.modal != Modal::Inspector,
        v.modal != Modal::Closed || v.focus == Focus::Library || v.queue_open,
        m.kind == MouseKind::ScrollDown || m.kind == MouseKind::ScrollUp,
    ensures
        ({
            let key = plain_key(KeyCode::Char(if m.kind == MouseKind::ScrollDown { 'j' } else { 'k' }));
            &&& mouse_of(v, m, p).1.len() == 0
            &&& key_of(v, key, p).1.len() == 0
            &&& mouse_of(v, m, p).0 == (AppView { queue_h_offset: v.queue_h_offset, ..key_of(v, key, p).0 })
        }),
{
}

/// Repeat goes off → all → one → off: three presses of `e` come full
/// circle, and each press asks for a different mode.
pub proof fn repeat_comes_full_circle(r: RepeatMode)
    ensures
        next_repeat(next_repeat(next_repeat(r))) == r,
        next_repeat(r) != r,
        next_repeat(next_repeat(r)) != r,
{
}

impl App {
    fn search_key(&mut self, key: KeyEvent) -> (r: Vec<Effect>)
        requires
            old(self)@.library.input is Some,
            prompts_fit(old(self)@),
        ensures
            (final(self)@, effects_view(r@)) == search_key_of(old(self)@, key),
    {
        let ghost v = self@;
        match key.code {
            KeyCode::Esc => {
                self.library.cancel_search();
                assert(self@ =~= search_key_of(v, key).0);
                notify(Level::Info, "search cancelled")
            },
            KeyCode::Enter => {
                let request = self.library.submit_search();
                assert(self@ =~= search_key_of(v, key).0);
                match request {
                    SearchRequest::Message(m) => one(Effect::Notify(Level::Info, m)),
                    SearchRequest::Query(q) => one(Effect::Search(q)),
                }
            },
            _ => {
                match self.library.prompt_mut() {
                    Some(input) => {
                        input.on_key(key);
                    },
                    None => {},
                }
                assert(self@ =~= search_key_of(v, key).0);
                nothing()
            },
        }
    }

    fn selected_playlist_name(&self) -> (r: Option<String>)
        ensures
            match r {
                Some(n) => selected_playlist(self@) == Some(n@),
                None => selected_playlist(self@) is None,
            },
    {
        match self.playlist_cursor.selected(self.playlists.len()) {
            Some(i) => Some(self.playlists[i].clone()),
            None => None,
        }
    }

    fn selected_station_index(&self) -> (r: Option<usize>)
        ensures
            match r {
                Some(i) => i < self@.stations.len() && selected_station(self@) == Some(self@.stations[i as int]),
                None => selected_station(self@) is None,
            },
    {
        self.station_cursor.selected(self.stations.len())
    }

    fn playlist_input_key(&mut self, key: KeyEvent) -> (r: Vec<Effect>)
        requires
            prompts_fit(old(self)@),
        ensures
            (final(self)@, effects_view(r@)) == playlist_input_of(old(self)@, key),
    {
        let ghost v = self@;
        if self.playlist_prompt.is_none() {
            return nothing();
        }
        match key.code {
            KeyCode::Esc => {
                self.playlist_prompt = None;
                nothing()
            },
            KeyCode::Enter => {
                let taken = self.playlist_prompt.take();
                match taken {
                    Some(PlaylistPrompt::Save(raw)) => one(Effect::SavePlaylist(raw)),
                    Some(PlaylistPrompt::Rename(raw)) => match self.selected_playlist_name() {
                        Some(old_name) => one(Effect::RenamePlaylist(old_name, raw)),
                        None => notify(Level::Info, "no playlists"),
                    },
                    Some(PlaylistPrompt::Copy(raw)) => match self.selected_playlist_name() {
                        Some(old_name) => one(Effect::CopyPlaylist(old_name, raw)),
                        None => notify(Level::Info, "no playlists"),
                    },
                    None => nothing(),
                }
            },
            _ => {
                match &mut self.playlist_prompt {
                    Some(prompt) => {
                        let buffer = prompt.buffer_mut();
                        buffer.on_key(key);
                    },
                    None => {},
                }
                assert(self@ =~= playlist_input_of(v, key).0);
                nothing()
            },
        }
    }

    fn radio_input_key(&mut self, key: KeyEvent) -> (r: Vec<Effect>)
        requires
            prompts_fit(old(self)@),
        ensures
            (final(self)@, effects_view(r@)) == radio_input_of(old(self)@, key),
    {
        let ghost v = self@;
        if self.radio_prompt.is_none() {
            return nothing();
        }
        match key.code {
            KeyCode::Esc => {
                self.radio_prompt = None;
                nothing()
            },
            KeyCode::Enter => {
                let taken = self.radio_prompt.take();
                match taken {
                    Some(RadioPrompt::Copy(new_name)) => match self.selected_station_index() {
                        Some(i) => {
                            let old_name = self.stations[i].name.clone();
                            one(Effect::CopyStation(old_name, new_name))
                        },
                        None => notify(Level::Info, "no stations"),
                    },
                    Some(form) => one(Effect::SaveStation(form)),
                    None => nothing(),
                }
            },
            KeyCode::Tab | KeyCode::Down => {
                match &mut self.radio_prompt {
                    Some(prompt) => prompt.cycle_field(true),
                    None => {},
                }
                assert(self@ =~= radio_input_of(v, key).0);
                nothing()
            },
            KeyCode::BackTab | KeyCode::Up => {
                match &mut self.radio_prompt {
                    Some(prompt) => prompt.cycle_field(false),
                    None => {},
                }
                assert(self@ =~= radio_input_of(v, key).0);
                nothing()
            },
            _ => {
                match &mut self.radio_prompt {
                    Some(prompt) => {
                        let buffer = prompt.buffer_mut();
                        buffer.on_key(key);
                    },
                    None => {},
                }
                assert(self@ =~= radio_input_of(v, key).0);
                nothing()
            },
        }
    }

    fn control_key(&mut self, code: KeyCode, player: &PlayerView)
        ensures
            final(self)@ == control_of(old(self)@, code, player.queue@.len()),
    {
        match code {
            KeyCode::Char('c') => self.should_quit = true,
            KeyCode::Char('d') => self.move_lists(ListMove::Page(10), player),
            KeyCode::Char('u') => self.move_lists(ListMove::Page(-10), player),
            _ => {},
        }
    }

    fn on_esc(&mut self)
        ensures
            final(self)@ == esc_of(old(self)@),
    {
        let ghost v = self@;
        if self.modal.blocks_list_focus() {
            self.modal = Modal::Closed;
            self.playlist_prompt = None;
            self.radio_prompt = None;
        } else if self.focus == Focus::Queue && self.queue_open {
            self.close_queue();
        } else {
            self.library.back();
            assert(self@ =~= esc_of(v));
        }
    }

    fn playlists_key(&mut self, key: KeyEvent, player: &PlayerView) -> (r: Option<Vec<Effect>>)
        ensures
            handled(r, old(self)@, final(self)@, playlists_key_of(old(self)@, key, *player)),
    {
        match key.code {
            KeyCode::Enter => Some(match self.selected_playlist_name() {
                Some(n) => one(Effect::PlayPlaylist(n, false)),
                None => nothing(),
            }),
            KeyCode::Char('a') => Some(match self.selected_playlist_name() {
                Some(n) => one(Effect::PlayPlaylist(n, true)),
                None => nothing(),
            }),
            KeyCode::Char('n') | KeyCode::Char('w') => {
                if player.queue.len() == 0 {
                    Some(notify(Level::Warn, "queue is empty"))
                } else {
                    self.playlist_prompt = Some(PlaylistPrompt::Save(LineEdit::new()));
                    Some(nothing())
                }
            },
            KeyCode::Char('e') => Some(match self.selected_playlist_name() {
                Some(n) => {
                    self.playlist_prompt = Some(PlaylistPrompt::Rename(LineEdit::from_text(n.as_str())));
                    nothing()
                },
                None => notify(Level::Info, "no playlists"),
            }),
            KeyCode::Char('c') => Some(match self.selected_playlist_name() {
                Some(n) => {
                    self.playlist_prompt = Some(PlaylistPrompt::Copy(LineEdit::from_text(n.as_str())));
                    nothing()
                },
                None => notify(Level::Info, "no playlists"),
            }),
            KeyCode::Char('d') => Some(match self.selected_playlist_name() {
                Some(n) => one(Effect::DeletePlaylist(n)),
                None => notify(Level::Info, "no playlists"),
            }),
            _ => None,
        }
    }

    fn radio_key(&mut self, key: KeyEvent) -> (r: Option<Vec<Effect>>)
        ensures
            handled(r, old(self)@, final(self)@, radio_key_of(old(self)@, key)),
    {
        match key.code {
            KeyCode::Enter => Some(match self.selected_station_index() {
                Some(i) => one(Effect::PlayStation(self.stations[i].clone(), false)),
                None => notify(Level::Info, "no stations"),
            }),
            KeyCode::Char('a') => Some(match self.selected_station_index() {
                Some(i) => one(Effect::PlayStation(self.stations[i].clone(), true)),
                None => notify(Level::Info, "no stations"),
            }),
            KeyCode::Char('n') => {
                self.radio_prompt = Some(RadioPrompt::new_station());
                Some(nothing())
            },
            KeyCode::Char('e') => Some(match self.selected_station_index() {
                Some(i) => {
                    self.radio_prompt = Some(RadioPrompt::edit_station(&self.stations[i]));
                    nothing()
                },
                None => notify(Level::Info, "no stations"),
            }),
            KeyCode::Char('c') => Some(match self.selected_station_index() {
                Some(i) => {
                    self.radio_prompt = Some(RadioPrompt::Copy(LineEdit::from_text(self.stations[i].name.as_str())));
                    nothing()
                },
                None => notify(Level::Info, "no stations"),
            }),
            KeyCode::Char('d') => Some(match self.selected_station_index() {
                Some(i) => one(Effect::DeleteStation(self.stations[i].name.clone())),
                None => notify(Level::Info, "no stations"),
            }),
            _ => None,
        }
    }

    fn devices_key(&self, key: KeyEvent) -> (r: Vec<Effect>)
        ensures
            effects_view(r@) == devices_key_of(self@, key),
    {
        if key.code == KeyCode::Enter {
            match self.device_cursor.selected(self.devices.len()) {
                Some(i) => {
                    let mut message = owned("output: ");
                    message.append(self.devices[i].name.as_str());
                    one(Effect::Send(Command::SetDevice(i), Some(message)))
                },
                None => nothing(),
            }
        } else {
            nothing()
        }
    }

    fn queue_key(&mut self, key: KeyEvent, player: &PlayerView) -> (r: Vec<Effect>)
        ensures
            (final(self)@, effects_view(r@)) == queue_key_of(old(self)@, key, *player),
    {
        let len = player.queue.len();
        match key.code {
            KeyCode::Enter => match self.queue_cursor.selected(len) {
                Some(i) => sending(Command::QueuePlayIndex(i), None),
                None => nothing(),
            },
            KeyCode::Char('d') | KeyCode::Delete => match self.queue_cursor.selected(len) {
                Some(i) => {
                    let mut out = sending(Command::QueueRemove(i), Some("removed from queue"));
                    let ghost before = out@;
                    out.push(Effect::ClampQueueCursor);
                    assert(effects_view(out@) =~= effects_view(before).push(EffectView::ClampQueueCursor));
                    out
                },
                None => nothing(),
            },
            KeyCode::Char('C') => {
                self.queue_cursor.first();
                sending(Command::QueueClear, Some("queue cleared"))
            },
            KeyCode::Char('o') => {
                self.queue_cursor.set(player.queue_position, len);
                nothing()
            },
            _ => nothing(),
        }
    }

    fn enqueue(tracks: Vec<Track>) -> (r: Vec<Effect>)
        ensures
            effects_view(r@) == enqueue_effects(tracks@),
    {
        let count = tracks.len();
        if count == 0 {
            return notify(Level::Warn, "nothing to add");
        }
        let message = added_message(count);
        let ghost listed = tracks@;
        let out = one(Effect::Send(Command::QueueAdd(tracks), Some(message)));
        assert(effects_view(out@) == enqueue_effects(listed));
        out
    }

    fn library_key(&mut self, key: KeyEvent) -> (r: Vec<Effect>)
        ensures
            (final(self)@, effects_view(r@)) == library_key_of(old(self)@, key),
    {
        let ghost v = self@;
        let strip = self.strip();
        match key.code {
            KeyCode::Char('/') => {
                self.library.begin_search();
                nothing()
            },
            KeyCode::Enter => {
                let play = match self.library.selected(strip) {
                    Some(crate::library_pane::Item::Track(t)) => Some(t.clone()),
                    Some(_) => None,
                    None => {
                        return nothing();
                    },
                };
                match play {
                    Some(t) => sending(Command::Play(t), None),
                    None => {
                        self.library.enter(strip);
                        nothing()
                    },
                }
            },
            KeyCode::Char('a') => Self::enqueue(self.library.selected_tracks(strip)),
            KeyCode::Char('A') => Self::enqueue(self.library.listed_tracks(strip)),
            _ => nothing(),
        }
    }

    /// Handle one key press and say what the frontend should do about it.
    pub fn on_key(&mut self, key: KeyEvent, player: &PlayerView) -> (r: Vec<Effect>)
        requires
            prompts_fit(old(self)@),
        ensures
            (final(self)@, effects_view(r@)) == key_of(old(self)@, key, *player),
    {
        if self.modal == Modal::Help {
            self.modal = Modal::Closed;
            return nothing();
        }
        if self.library.is_typing() {
            return self.search_key(key);
        }
        if self.playlist_prompt.is_some() {
            return self.playlist_input_key(key);
        }
        if self.radio_prompt.is_some() {
            return self.radio_input_key(key);
        }
        if key.modifiers.control {
            self.control_key(key.code, player);
            return nothing();
        }
        if key.code == KeyCode::Esc {
            self.on_esc();
            return nothing();
        }
        if self.modal == Modal::Playlists {
            match self.playlists_key(key, player) {
                Some(es) => return es,
                None => {},
            }
        }
        if self.modal == Modal::Radio {
            match self.radio_key(key) {
                Some(es) => return es,
                None => {},
            }
        }
        match self.global_key(key, player) {
            Some(es) => return es,
            None => {},
        }
        if self.modal == Modal::Devices {
            return self.devices_key(key);
        }
        if self.modal == Modal::Inspector {
            return nothing();
        }
        match self.focus {
            Focus::Queue => self.queue_key(key, player),
            Focus::Library => self.library_key(key),
        }
    }
}


// ---- the mouse ----

#[derive(Debug, Clone, Copy, PartialEq, Eq, Structural)]
pub enum MouseKind {
    LeftDown,
    ScrollUp,
    ScrollDown,
    /// Any other button or motion.
    Other,
}

#[derive(Debug, Clone, Copy, PartialEq, Eq, Structural)]
pub struct MouseEvent {
    pub kind: MouseKind,
    pub column: u16,
    pub row: u16,
}

/// The wheel steps the list under the keys; it does nothing while a prompt
/// is open, or over help and the inspector.
pub open spec fn wheel_of(v: AppView, delta: isize, qlen: nat) -> AppView {
    if v.library.input is Some || v.playlist_prompt is Some || v.radio_prompt is Some {
        v
    } else {
        match v.modal {
            Modal::Devices => AppView { device_cursor: cursor_moved(ListMove::Step(delta), v.device_cursor, v.devices.len()), ..v },
            Modal::Playlists => AppView { playlist_cursor: cursor_moved(ListMove::Step(delta), v.playlist_cursor, v.playlists.len()), ..v },
            Modal::Radio => AppView { station_cursor: cursor_moved(ListMove::Step(delta), v.station_cursor, v.stations.len()), ..v },
            Modal::Help | Modal::Inspector => v,
            Modal::Closed => match v.focus {
                Focus::Library => AppView { library: navigate(v.library, strip_of(v), Move::Step(delta)), ..v },
                Focus::Queue => if v.queue_open {
                    AppView { queue_cursor: cursor_moved(ListMove::Step(delta), v.queue_cursor, qlen), ..v }
                } else {
                    v
                },
            },
        }
    }
}

pub open spec fn hit(r: Option<Rect>, column: u16, row: u16) -> bool {
    r matches Some(x) && x.holds(column as int, row as int)
}

pub open spec fn list_row(h: Option<ListHit>, column: u16, row: u16) -> Option<usize> {
    match h {
        Some(l) => row_at_of(l, column as int, row as int),
        None => None,
    }
}

/// A footer hint drawn over the clicked cell.
pub open spec fn footer_at(column: u16, row: u16) -> spec_fn(crate::hit::FooterHit) -> bool {
    |h: crate::hit::FooterHit| h.rect.holds(column as int, row as int)
}

/// A click in an open overlay: a list row becomes its selection.
pub open spec fn overlay_click_of(v: AppView, column: u16, row: u16) -> AppView {
    match list_row(v.hits.overlay_list, column, row) {
        Some(i) => match v.modal {
            Modal::Devices => AppView { device_cursor: clamp_to(i as nat, v.devices.len()), ..v },
            Modal::Playlists => AppView { playlist_cursor: clamp_to(i as nat, v.playlists.len()), ..v },
            Modal::Radio => AppView { station_cursor: clamp_to(i as nat, v.stations.len()), ..v },
            _ => v,
        },
        None => v,
    }
}

/// A left click. A click away from an open prompt cancels it; a footer
/// hint acts like its key; the close mark closes the overlay or the drawer;
/// a row of a list selects it without opening or playing anything.
pub open spec fn click_of(v: AppView, column: u16, row: u16, p: PlayerView) -> (AppView, Seq<EffectView>) {
    let none = Seq::<EffectView>::empty();
    if v.library.input is Some {
        if hit(v.hits.search_prompt, column, row) {
            (v, none)
        } else {
            (AppView { library: PaneView { input: None, ..v.library }, ..v }, say(Level::Info, "search cancelled"@))
        }
    } else if v.playlist_prompt is Some || v.radio_prompt is Some {
        if hit(v.hits.overlay, column, row) {
            (v, none)
        } else {
            (AppView { playlist_prompt: None, radio_prompt: None, ..v }, none)
        }
    } else if first_where(v.hits.footer_hints@, footer_at(column, row), 0) is Some {
        key_of(v, v.hits.footer_hints@[first_where(v.hits.footer_hints@, footer_at(column, row), 0).unwrap()].key, p)
    } else if hit(v.hits.close, column, row) {
        (if v.modal != Modal::Closed {
            AppView { modal: Modal::Closed, playlist_prompt: None, radio_prompt: None, ..v }
        } else if v.queue_open {
            queue_closed(v)
        } else {
            v
        }, none)
    } else if v.modal != Modal::Closed {
        (overlay_click_of(v, column, row), none)
    } else if v.queue_open {
        (match list_row(v.hits.queue, column, row) {
            Some(i) => AppView { queue_cursor: clamp_to(i as nat, p.queue@.len()), focus: Focus::Queue, ..v },
            None => v,
        }, none)
    } else if hit(v.hits.queue_toggle, column, row) {
        (queue_opened(v), none)
    } else {
        (match list_row(v.hits.library, column, row) {
            Some(i) => AppView { library: navigate(v.library, strip_of(v), Move::To(i)), focus: Focus::Library, ..v },
            None => v,
        }, none)
    }
}

pub open spec fn mouse_of(v: AppView, m: MouseEvent, p: PlayerView) -> (AppView, Seq<EffectView>) {
    match m.kind {
        MouseKind::LeftDown => click_of(v, m.column, m.row, p),
        MouseKind::ScrollUp => (wheel_of(v, -1isize, p.queue@.len()), Seq::empty()),
        MouseKind::ScrollDown => (wheel_of(v, 1isize, p.queue@.len()), Seq::empty()),
        MouseKind::Other => (v, Seq::empty()),
    }
}

fn hit_exec(r: Option<Rect>, column: u16, row: u16) -> (b: bool)
    ensures
        b == hit(r, column, row),
{
    match r {
        Some(x) => x.contains(column, row),
        None => false,
    }
}

fn list_row_exec(h: Option<ListHit>, column: u16, row: u16) -> (r: Option<usize>)
    ensures
        r == list_row(h, column, row),
{
    match h {
        Some(l) => l.row_at(column, row),
        None => None,
    }
}

impl App {
    fn on_wheel(&mut self, delta: isize, player: &PlayerView)
        ensures
            final(self)@ == wheel_of(old(self)@, delta, player.queue@.len()),
    {
        let ghost v = self@;
        if self.library.is_typing() || self.playlist_prompt.is_some() || self.radio_prompt.is_some() {
            return;
        }
        match self.modal {
            Modal::Devices => self.device_cursor.step(delta, self.devices.len()),
            Modal::Playlists => {
                self.playlist_cursor.step(delta, self.playlists.len());
                assert(names_view(self.playlists@).len() == self.playlists@.len());
            },
            Modal::Radio => self.station_cursor.step(delta, self.stations.len()),
            Modal::Help | Modal::Inspector => {},
            Modal::Closed => match self.focus {
                Focus::Library => {
                    let strip = self.strip();
                    self.library.step(delta, strip);
                },
                Focus::Queue => {
                    if self.queue_open {
                        self.queue_cursor.step(delta, player.queue.len());
                    }
                },
            },
        }
        assert(self@ =~= wheel_of(v, delta, player.queue@.len()));
    }

    fn footer_key(&self, column: u16, row: u16) -> (r: Option<KeyEvent>)
        ensures
            match first_where(self@.hits.footer_hints@, footer_at(column, row), 0) {
                Some(i) => r == Some(self@.hits.footer_hints@[i].key),
                None => r is None,
            },
    {
        let ghost p = footer_at(column, row);
        let mut i: usize = 0;
        while i < self.hits.footer_hints.len()
            invariant
                p == footer_at(column, row),
                i <= self.hits.footer_hints.len(),
                first_where(self@.hits.footer_hints@, p, 0) == first_where(self@.hits.footer_hints@, p, i as int),
            decreases self.hits.footer_hints.len() - i,
        {
            let h = self.hits.footer_hints[i];
            let inside = h.rect.contains(column, row);
            assert(inside == p(self@.hits.footer_hints@[i as int]));
            if inside {
                return Some(h.key);
            }
            i += 1;
        }
        None
    }

    fn on_overlay_click(&mut self, column: u16, row: u16)
        ensures
            final(self)@ == overlay_click_of(old(self)@, column, row),
    {
        let ghost v = self@;
        match list_row_exec(self.hits.overlay_list, column, row) {
            Some(i) => match self.modal {
                Modal::Devices => self.device_cursor.set(i, self.devices.len()),
                Modal::Playlists => {
                    self.playlist_cursor.set(i, self.playlists.len());
                    assert(names_view(self.playlists@).len() == self.playlists@.len());
                },
                Modal::Radio => self.station_cursor.set(i, self.stations.len()),
                _ => {},
            },
            None => {},
        }
        assert(self@ =~= overlay_click_of(v, column, row));
    }

    fn on_left_click(&mut self, column: u16, row: u16, player: &PlayerView) -> (r: Vec<Effect>)
        requires
            prompts_fit(old(self)@),
        ensures
            (final(self)@, effects_view(r@)) == click_of(old(self)@, column, row, *player),
    {
        let ghost v = self@;
        if self.library.is_typing() {
            if hit_exec(self.hits.search_prompt, column, row) {
                return nothing();
            }
            self.library.cancel_search();
            assert(self@ =~= click_of(v, column, row, *player).0);
            return notify(Level::Info, "search cancelled");
        }
        if self.playlist_prompt.is_some() || self.radio_prompt.is_some() {
            if !hit_exec(self.hits.overlay, column, row) {
                self.playlist_prompt = None;
                self.radio_prompt = None;
            }
            return nothing();
        }
        match self.footer_key(column, row) {
            Some(key) => return self.on_key(key, player),
            None => {},
        }
        if hit_exec(self.hits.close, column, row) {
            if self.modal != Modal::Closed {
                self.modal = Modal::Closed;
                self.playlist_prompt = None;
                self.radio_prompt = None;
            } else if self.queue_open {
                self.close_queue();
            }
            return nothing();
        }
        if self.modal != Modal::Closed {
            self.on_overlay_click(column, row);
            return nothing();
        }
        if self.queue_open {
            match list_row_exec(self.hits.queue, column, row) {
                Some(i) => {
                    self.queue_cursor.set(i, player.queue.len());
                    self.focus = Focus::Queue;
                },
                None => {},
            }
            return nothing();
        }
        if hit_exec(self.hits.queue_toggle, column, row) {
            self.open_queue();
            return nothing();
        }
        match list_row_exec(self.hits.library, column, row) {
            Some(i) => {
                let strip = self.strip();
                self.library.set_index(i, strip);
                self.focus = Focus::Library;
                assert(self@ =~= click_of(v, column, row, *player).0);
            },
            None => {},
        }
        nothing()
    }

    /// Handle a mouse event and say what the frontend should do about it.
    pub fn on_mouse(&mut self, mouse: MouseEvent, player: &PlayerView) -> (r: Vec<Effect>)
        requires
            prompts_fit(old(self)@),
        ensures
            (final(self)@, effects_view(r@)) == mouse_of(old(self)@, mouse, *player),
    {
        match mouse.kind {
            MouseKind::LeftDown => self.on_left_click(mouse.column, mouse.row, player),
            MouseKind::ScrollUp => {
                self.on_wheel(-1, player);
                nothing()
            },
            MouseKind::ScrollDown => {
                self.on_wheel(1, player);
                nothing()
            },
            MouseKind::Other => nothing(),
        }
    }
}


// ---- what the frontend hands back ----

/// A name equal to `name`.
pub open spec fn same_name(name: Seq<char>) -> spec_fn(Seq<char>) -> bool {
    |n: Seq<char>| n == name
}

pub open spec fn devices_found(n: nat) -> Seq<char> {
    crate::text::decimal(n) + " devices found"@
}

/// What the queue remembers of a library track: its tags and length.
pub fn entry_from_track(track: &Track) -> (r: Entry)
    ensures
        r.title@ == track.title@,
        r.artist == track.artist,
        r.album == track.album,
        r.duration == track.duration_ms,
{
    Entry {
        title: track.title.clone(),
        artist: crate::library::clone_opt_string(&track.artist),
        album: crate::library::clone_opt_string(&track.album),
        duration: track.duration_ms,
    }
}

impl App {
    /// Whether every open prompt can take one more character, which
    /// `on_key` and `on_mouse` need.
    pub fn has_edit_room(&self) -> (r: bool)
        ensures
            r == prompts_fit(self@),
    {
        let search_ok = match self.library.input() {
            Some(t) => t.unicode_len() < usize::MAX,
            None => true,
        };
        let playlist_ok = match &self.playlist_prompt {
            Some(p) => p.as_str().unicode_len() < usize::MAX,
            None => true,
        };
        let radio_ok = match &self.radio_prompt {
            Some(RadioPrompt::Form { name, url, art, field, .. }) => match field {
                StationField::Name => name.len() < usize::MAX,
                StationField::Url => url.len() < usize::MAX,
                StationField::Art => art.len() < usize::MAX,
            },
            Some(RadioPrompt::Copy(e)) => e.len() < usize::MAX,
            None => true,
        };
        search_ok && playlist_ok && radio_ok
    }

    /// Show the library's answer to a search the last key asked for.
    pub fn finish_search(&mut self, query: &str, answer: Result<Vec<crate::library::SearchHit>, String>) -> (r: Vec<Effect>)
        ensures
            final(self)@ == (AppView { library: crate::library_pane::finish_of(old(self)@.library, query@, answer).0, ..old(self)@ }),
            effects_view(r@) == say(Level::Info, crate::library_pane::finish_of(old(self)@.library, query@, answer).1),
    {
        let message = self.library.finish_search(query, answer);
        one(Effect::Notify(Level::Info, message))
    }

    /// Show a fresh reading of the library.
    pub fn library_reloaded(&mut self, library: Option<LibrarySnapshot>) -> (r: Vec<Effect>)
        ensures
            final(self)@ == (AppView {
                library: crate::library_pane::reload_browse_of(PaneView { library, ..old(self)@.library }),
                ..old(self)@
            }),
            effects_view(r@) == say(Level::Success, "library reloaded"@),
    {
        self.library.reload_with(library);
        notify(Level::Success, "library reloaded")
    }

    /// The saved playlists, listed again.
    pub fn set_playlists(&mut self, names: Vec<String>)
        ensures
            final(self)@ == (AppView {
                playlists: names_view(names@),
                playlist_cursor: clamp_to(old(self)@.playlist_cursor, names@.len()),
                ..old(self)@
            }),
    {
        let ghost v = self@;
        self.playlists = names;
        self.playlist_cursor.clamp(self.playlists.len());
        assert(self@ =~= (AppView {
            playlists: names_view(self.playlists@),
            playlist_cursor: clamp_to(v.playlist_cursor, self.playlists@.len()),
            ..v
        }));
    }

    /// Put the playlist cursor on the first playlist named `name`, if listed.
    pub fn select_playlist(&mut self, name: &str)
        ensures
            match first_where(old(self)@.playlists, same_name(name@), 0) {
                Some(i) => final(self)@ == (AppView {
                    playlist_cursor: clamp_to(i as nat, old(self)@.playlists.len()),
                    ..old(self)@
                }),
                None => final(self)@ == old(self)@,
            },
    {
        let ghost v = self@;
        let ghost p = same_name(name@);
        let mut i: usize = 0;
        while i < self.playlists.len()
            invariant
                v == self@,
                v == old(self)@,
                p == same_name(name@),
                i <= self.playlists.len(),
                first_where(v.playlists, p, 0) == first_where(v.playlists, p, i as int),
            decreases self.playlists.len() - i,
        {
            let same = crate::text::same_text(self.playlists[i].as_str(), name);
            assert(v.playlists[i as int] == self.playlists@[i as int]@);
            if same {
                let len = self.playlists.len();
                self.playlist_cursor.set(i, len);
                assert(self@ =~= (AppView { playlist_cursor: clamp_to(i as nat, v.playlists.len()), ..v }));
                return;
            }
            i += 1;
        }
    }

    /// The station list, read again, or why it could not be.
    pub fn set_stations(&mut self, stations: Result<Vec<Station>, String>) -> (r: Vec<Effect>)
        ensures
            match stations {
                Ok(list) => final(self)@ == (AppView {
                    stations: list@,
                    station_cursor: clamp_to(old(self)@.station_cursor, list@.len()),
                    ..old(self)@
                }) && effects_view(r@) == Seq::<EffectView>::empty(),
                Err(e) => final(self)@ == old(self)@ && effects_view(r@) == say(Level::Error, e@),
            },
    {
        match stations {
            Ok(list) => {
                self.stations = list;
                self.station_cursor.clamp(self.stations.len());
                nothing()
            },
            Err(e) => one(Effect::Notify(Level::Error, e)),
        }
    }

    /// The output devices, listed again.
    pub fn set_devices(&mut self, devices: Vec<Device>) -> (r: Vec<Effect>)
        ensures
            final(self)@ == (AppView {
                devices: devices@,
                device_cursor: clamp_to(old(self)@.device_cursor, devices@.len()),
                ..old(self)@
            }),
            effects_view(r@) == say(Level::Info, devices_found(devices@.len())),
    {
        self.devices = devices;
        self.device_cursor.clamp(self.devices.len());
        let mut message = String::new();
        crate::text::push_decimal(&mut message, self.devices.len() as u64);
        message.append(" devices found");
        one(Effect::Notify(Level::Info, message))
    }

    /// Hand back a playlist prompt whose name the frontend refused.
    pub fn restore_playlist_prompt(&mut self, prompt: PlaylistPrompt)
        ensures
            final(self)@ == (AppView { playlist_prompt: Some(playlist_view(prompt)), ..old(self)@ }),
    {
        self.playlist_prompt = Some(prompt);
    }

    /// Hand back a station prompt whose contents the frontend refused.
    pub fn restore_radio_prompt(&mut self, prompt: RadioPrompt)
        ensures
            final(self)@ == (AppView { radio_prompt: Some(radio_view(prompt)), ..old(self)@ }),
    {
        self.radio_prompt = Some(prompt);
    }

    /// Keep the queue cursor inside a queue of `len` entries.
    pub fn clamp_queue_cursor(&mut self, len: usize)
        ensures
            final(self)@ == (AppView { queue_cursor: clamp_to(old(self)@.queue_cursor, len as nat), ..old(self)@ }),
    {
        self.queue_cursor.clamp(len);
    }
}


// ---- what became of the work an effect asked for ----

/// What loading a saved playlist gave: how many tracks it put on the queue,
/// and the loader's word on entries it had to skip, when it skipped any.
pub struct PlaylistLoad {
    pub tracks: usize,
    pub skipped_notice: Option<String>,
}

/// How saving the queue under a typed name went.
pub enum PlaylistSave {
    /// Written to the file of that name.
    Written(String),
    /// The typed name was refused.
    BadName(String),
    /// The file could not be written.
    Failed(String),
}

/// How storing the station a form describes went.
pub enum StationSave {
    /// Added or updated, art and all.
    Saved,
    /// The name or the address was refused; nothing was stored.
    Refused(String),
    /// The station was stored under the name given (second), but its art
    /// was refused for the reason given (first).
    ArtRefused(String, String),
}

/// What to show once a saved playlist was played, or added to the queue.
pub open spec fn played_playlist_effects(name: Seq<char>, append: bool, outcome: Result<PlaylistLoad, String>) -> Seq<EffectView> {
    match outcome {
        Ok(load) => match load.skipped_notice {
            Some(notice) => say(Level::Warn, notice@),
            None => if append {
                say(Level::Success, added_text(load.tracks as nat) + " from "@ + name)
            } else {
                say(Level::Success, "playing "@ + name)
            },
        },
        Err(e) => say(Level::Error, e@),
    }
}

/// A playlist file's name without its `.m3u8` or `.m3u` ending.
pub open spec fn playlist_stem(file: Seq<char>) -> Seq<char> {
    if file.len() >= 5 && file.skip(file.len() - 5) == ".m3u8"@ {
        file.take(file.len() - 5)
    } else if file.len() >= 4 && file.skip(file.len() - 4) == ".m3u"@ {
        file.take(file.len() - 4)
    } else {
        file
    }
}

pub open spec fn saved_playlist_effects(outcome: PlaylistSave) -> Seq<EffectView> {
    match outcome {
        PlaylistSave::Written(file) => seq![
            EffectView::Notify(Level::Success, "saved "@ + playlist_stem(file@)),
            EffectView::ReloadPlaylists,
        ],
        PlaylistSave::BadName(e) => say(Level::Error, e@),
        PlaylistSave::Failed(e) => say(Level::Error, e@),
    }
}

/// What to show once a playlist was renamed, or copied when `copy`.
pub open spec fn renamed_playlist_effects(copy: bool, outcome: Result<String, String>) -> Seq<EffectView> {
    match outcome {
        Ok(new_name) => seq![
            EffectView::Notify(Level::Success, (if copy { "copied "@ } else { "renamed "@ }) + new_name@),
            EffectView::ReloadPlaylists,
            EffectView::SelectPlaylist(new_name@),
        ],
        Err(e) => say(Level::Error, e@),
    }
}

pub open spec fn deleted_playlist_effects(name: Seq<char>, outcome: Result<(), String>) -> Seq<EffectView> {
    match outcome {
        Ok(_) => seq![EffectView::Notify(Level::Success, "deleted "@ + name), EffectView::ReloadPlaylists],
        Err(e) => say(Level::Error, e@),
    }
}

pub open spec fn played_station_effects(name: Seq<char>, append: bool, outcome: Result<(), String>) -> Seq<EffectView> {
    match outcome {
        Ok(_) => say(Level::Success, (if append { "added "@ } else { "playing "@ }) + name),
        Err(e) => say(Level::Error, e@),
    }
}

/// The form opened again, as an edit of the station stored as `name`.
pub open spec fn reopened_as_edit(p: RadioView, name: Seq<char>) -> RadioView {
    match p {
        RadioView::Form(n, u, a, f, _) => RadioView::Form(n, u, a, f, Some(name)),
        RadioView::Copy(e) => RadioView::Copy(e),
    }
}

pub open spec fn saved_station_effects(outcome: StationSave) -> Seq<EffectView> {
    match outcome {
        StationSave::Saved => seq![EffectView::ReloadStations],
        StationSave::Refused(e) => say(Level::Error, e@),
        StationSave::ArtRefused(e, _) => seq![EffectView::Notify(Level::Error, e@), EffectView::ReloadStations],
    }
}

/// A station list changed other than by a form (a copy, a removal): read it
/// again, or say why it could not change.
pub open spec fn station_list_effects(outcome: Result<(), String>) -> Seq<EffectView> {
    match outcome {
        Ok(_) => seq![EffectView::ReloadStations],
        Err(e) => say(Level::Error, e@),
    }
}

/// `file` without its `.m3u8` or `.m3u` ending.
pub fn playlist_stem_of(file: &str) -> (r: String)
    ensures
        r@ == playlist_stem(file@),
{
    let n = file.unicode_len();
    if n >= 5 && crate::text::same_text(file.substring_char(n - 5, n), ".m3u8") {
        assert(file@.subrange(n - 5, n as int) =~= file@.skip(n - 5));
        let kept = owned(file.substring_char(0, n - 5));
        assert(kept@ =~= file@.take(n - 5));
        return kept;
    }
    assert(n >= 5 ==> file@.subrange(n - 5, n as int) =~= file@.skip(n - 5));
    if n >= 4 && crate::text::same_text(file.substring_char(n - 4, n), ".m3u") {
        assert(file@.subrange(n - 4, n as int) =~= file@.skip(n - 4));
        let kept = owned(file.substring_char(0, n - 4));
        assert(kept@ =~= file@.take(n - 4));
        return kept;
    }
    assert(n >= 4 ==> file@.subrange(n - 4, n as int) =~= file@.skip(n - 4));
    owned(file)
}

impl App {
    /// What to show once a saved playlist was played, or added to the queue
    /// when `append`.
    pub fn playlist_played(name: &str, append: bool, outcome: Result<PlaylistLoad, String>) -> (r: Vec<Effect>)
        ensures
            effects_view(r@) == played_playlist_effects(name@, append, outcome),
    {
        match outcome {
            Ok(PlaylistLoad { tracks, skipped_notice }) => match skipped_notice {
                Some(notice) => one(Effect::Notify(Level::Warn, notice)),
                None => {
                    let mut m = if append {
                        let mut added = added_message(tracks);
                        added.append(" from ");
                        added
                    } else {
                        owned("playing ")
                    };
                    m.append(name);
                    one(Effect::Notify(Level::Success, m))
                },
            },
            Err(e) => one(Effect::Notify(Level::Error, e)),
        }
    }

    /// What to show once the queue was saved under the typed name; a refused
    /// name hands the prompt back.
    pub fn playlist_saved(&mut self, edit: LineEdit, outcome: PlaylistSave) -> (r: Vec<Effect>)
        ensures
            match outcome {
                PlaylistSave::BadName(_) => final(self)@ == (AppView {
                    playlist_prompt: Some((PromptKind::Save, edit@)),
                    ..old(self)@
                }),
                _ => final(self)@ == old(self)@,
            },
            effects_view(r@) == saved_playlist_effects(outcome),
    {
        match outcome {
            PlaylistSave::Written(file) => {
                let mut m = owned("saved ");
                m.append(playlist_stem_of(file.as_str()).as_str());
                let mut out = one(Effect::Notify(Level::Success, m));
                push_effect(&mut out, Effect::ReloadPlaylists);
                out
            },
            PlaylistSave::BadName(e) => {
                self.restore_playlist_prompt(PlaylistPrompt::Save(edit));
                one(Effect::Notify(Level::Error, e))
            },
            PlaylistSave::Failed(e) => one(Effect::Notify(Level::Error, e)),
        }
    }

    /// What to show once a playlist was renamed, or copied when `copy`, to
    /// the typed name; a failure hands the prompt back.
    pub fn playlist_renamed(&mut self, edit: LineEdit, copy: bool, outcome: Result<String, String>) -> (r: Vec<Effect>)
        ensures
            match outcome {
                Ok(_) => final(self)@ == old(self)@,
                Err(_) => final(self)@ == (AppView {
                    playlist_prompt: Some((if copy { PromptKind::Copy } else { PromptKind::Rename }, edit@)),
                    ..old(self)@
                }),
            },
            effects_view(r@) == renamed_playlist_effects(copy, outcome),
    {
        match outcome {
            Ok(new_name) => {
                let mut m = if copy { owned("copied ") } else { owned("renamed ") };
                m.append(new_name.as_str());
                let mut out = one(Effect::Notify(Level::Success, m));
                push_effect(&mut out, Effect::ReloadPlaylists);
                push_effect(&mut out, Effect::SelectPlaylist(new_name));
                out
            },
            Err(e) => {
                let prompt = if copy { PlaylistPrompt::Copy(edit) } else { PlaylistPrompt::Rename(edit) };
                self.restore_playlist_prompt(prompt);
                one(Effect::Notify(Level::Error, e))
            },
        }
    }

    /// What to show once the named playlist was deleted, or why it was not.
    pub fn playlist_deleted(name: &str, outcome: Result<(), String>) -> (r: Vec<Effect>)
        ensures
            effects_view(r@) == deleted_playlist_effects(name@, outcome),
    {
        match outcome {
            Ok(()) => {
                let mut m = owned("deleted ");
                m.append(name);
                let mut out = one(Effect::Notify(Level::Success, m));
                push_effect(&mut out, Effect::ReloadPlaylists);
                out
            },
            Err(e) => one(Effect::Notify(Level::Error, e)),
        }
    }

    /// What to show once the named station was put on, or added to the
    /// queue when `append`.
    pub fn station_played(name: &str, append: bool, outcome: Result<(), String>) -> (r: Vec<Effect>)
        ensures
            effects_view(r@) == played_station_effects(name@, append, outcome),
    {
        match outcome {
            Ok(()) => {
                let mut m = if append { owned("added ") } else { owned("playing ") };
                m.append(name);
                one(Effect::Notify(Level::Success, m))
            },
            Err(e) => one(Effect::Notify(Level::Error, e)),
        }
    }

    /// Once the station of a form was stored: a refusal hands the form back
    /// as it was; refused art, with the station itself stored, opens the
    /// form again as an edit of the stored station.
    pub fn station_saved(&mut self, prompt: RadioPrompt, outcome: StationSave) -> (r: Vec<Effect>)
        ensures
            match outcome {
                StationSave::Saved => final(self)@ == old(self)@,
                StationSave::Refused(_) => final(self)@ == (AppView {
                    radio_prompt: Some(radio_view(prompt)),
                    ..old(self)@
                }),
                StationSave::ArtRefused(_, stored) => final(self)@ == (AppView {
                    radio_prompt: Some(reopened_as_edit(radio_view(prompt), stored@)),
                    ..old(self)@
                }),
            },
            effects_view(r@) == saved_station_effects(outcome),
    {
        match outcome {
            StationSave::Saved => one(Effect::ReloadStations),
            StationSave::Refused(e) => {
                self.restore_radio_prompt(prompt);
                one(Effect::Notify(Level::Error, e))
            },
            StationSave::ArtRefused(e, stored) => {
                let reopened = match prompt {
                    RadioPrompt::Form { name, url, art, field, original: _ } => RadioPrompt::Form {
                        name,
                        url,
                        art,
                        field,
                        original: Some(stored),
                    },
                    RadioPrompt::Copy(line) => RadioPrompt::Copy(line),
                };
                self.restore_radio_prompt(reopened);
                let mut out = one(Effect::Notify(Level::Error, e));
                push_effect(&mut out, Effect::ReloadStations);
                out
            },
        }
    }

    /// Once the selected station was copied to the typed name; a failure
    /// hands the prompt back.
    pub fn station_copied(&mut self, edit: LineEdit, outcome: Result<(), String>) -> (r: Vec<Effect>)
        ensures
            match outcome {
                Ok(_) => final(self)@ == old(self)@,
                Err(_) => final(self)@ == (AppView { radio_prompt: Some(RadioView::Copy(edit@)), ..old(self)@ }),
            },
            effects_view(r@) == station_list_effects(outcome),
    {
        match outcome {
            Ok(()) => one(Effect::ReloadStations),
            Err(e) => {
                self.restore_radio_prompt(RadioPrompt::Copy(edit));
                one(Effect::Notify(Level::Error, e))
            },
        }
    }

    /// Once the selected station was deleted, or why it was not.
    pub fn station_deleted(outcome: Result<(), String>) -> (r: Vec<Effect>)
        ensures
            effects_view(r@) == station_list_effects(outcome),
    {
        match outcome {
            Ok(()) => one(Effect::ReloadStations),
            Err(e) => one(Effect::Notify(Level::Error, e)),
        }
    }
}

} // verus!
