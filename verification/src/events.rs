//! Key handling: the decisions of the interface as a state machine.
//!
//! A key press takes the interface state to its next state and names the
//! work (`Action`) that the caller performs outside: talking to the music
//! daemon, touching files, or the floating-point audio settings.

use vstd::prelude::*;
use crate::keys::{KeyConfig, KeyEvent, KeyCode, key_matches};
use crate::state::{ViewMode, LibraryMode, LibraryItem, LibraryItemType, QueueItem, InputState, InputMode, InputView, InputModeView, LyricsState};
use crate::player::{RepeatMode, next_repeat};
use crate::lyrics::{LyricLine, current_line, current_line_index};
use crate::text::{views, join, join_with, slice_of};

verus! {

/// The part of the interface state that key presses read and change.
pub struct UiState {
    pub is_running: bool,
    pub show_keyhints: bool,
    pub show_audio_info: bool,
    pub view_mode: ViewMode,
    pub library_mode: LibraryMode,
    pub previous_library_mode: Option<LibraryMode>,
    pub library_selected: usize,
    pub library_items: Vec<LibraryItem>,
    pub browse_path: Vec<Vec<char>>,
    pub search_query: Vec<char>,
    pub search_active: bool,
    pub playlists: Vec<Vec<char>>,
    pub queue: Vec<QueueItem>,
    pub input_state: Option<InputState>,
    pub lyrics_selected: Option<usize>,
    pub lyrics_offset: Option<usize>,
    /// When the lyrics were last scrolled by hand, in milliseconds.
    pub last_scroll_ms: Option<u64>,
    pub eq_selected: usize,
    pub crossfade_secs: u32,
    /// 0 = off, 1 = track, 2 = album, 3 = auto.
    pub replay_gain_mode: u8,
    /// 0 to 100.
    pub app_volume: u8,
    /// When the volume was last changed by a key, in milliseconds.
    pub last_volume_ms: Option<u64>,
    pub shuffle: bool,
    pub repeat: RepeatMode,
    /// When the last seek key was pressed, in milliseconds.
    pub last_seek_ms: Option<u64>,
    /// Seconds added up over a run of seek presses.
    pub seek_accumulator: i64,
    /// Position where the current run of seek presses started.
    pub seek_start_ms: Option<u64>,
}

/// The mathematical content of `UiState`.
pub struct UiModel {
    pub is_running: bool,
    pub show_keyhints: bool,
    pub show_audio_info: bool,
    pub view_mode: ViewMode,
    pub library_mode: LibraryMode,
    pub previous_library_mode: Option<LibraryMode>,
    pub library_selected: nat,
    pub library_items: Seq<LibraryItem>,
    pub browse_path: Seq<Seq<char>>,
    pub search_query: Seq<char>,
    pub search_active: bool,
    pub playlists: Seq<Seq<char>>,
    pub queue: Seq<QueueItem>,
    pub input_state: Option<InputView>,
    pub lyrics_selected: Option<usize>,
    pub lyrics_offset: Option<usize>,
    pub last_scroll_ms: Option<u64>,
    pub eq_selected: nat,
    pub crossfade_secs: u32,
    pub replay_gain_mode: u8,
    pub app_volume: u8,
    pub last_volume_ms: Option<u64>,
    pub shuffle: bool,
    pub repeat: RepeatMode,
    pub last_seek_ms: Option<u64>,
    pub seek_accumulator: int,
    pub seek_start_ms: Option<u64>,
}

pub open spec fn input_view(i: Option<InputState>) -> Option<InputView> {
    match i {
        Some(s) => Some(s@),
        None => None,
    }
}

impl View for UiState {
    type V = UiModel;

    open spec fn view(&self) -> UiModel {
        UiModel {
            is_running: self.is_running,
            show_keyhints: self.show_keyhints,
            show_audio_info: self.show_audio_info,
            view_mode: self.view_mode,
            library_mode: self.library_mode,
            previous_library_mode: self.previous_library_mode,
            library_selected: self.library_selected as nat,
            library_items: self.library_items@,
            browse_path: views(self.browse_path@),
            search_query: self.search_query@,
            search_active: self.search_active,
            playlists: views(self.playlists@),
            queue: self.queue@,
            input_state: input_view(self.input_state),
            lyrics_selected: self.lyrics_selected,
            lyrics_offset: self.lyrics_offset,
            last_scroll_ms: self.last_scroll_ms,
            eq_selected: self.eq_selected as nat,
            crossfade_secs: self.crossfade_secs,
            replay_gain_mode: self.replay_gain_mode,
            app_volume: self.app_volume,
            last_volume_ms: self.last_volume_ms,
            shuffle: self.shuffle,
            repeat: self.repeat,
            last_seek_ms: self.last_seek_ms,
            seek_accumulator: self.seek_accumulator as int,
            seek_start_ms: self.seek_start_ms,
        }
    }
}

impl UiState {
    /// The state at start-up.
    pub fn new(crossfade_secs: u32, replay_gain_mode: u8, app_volume: u8) -> (s: Self)
        ensures
            s@ == (UiModel {
                is_running: true,
                show_keyhints: false,
                show_audio_info: false,
                view_mode: ViewMode::Lyrics,
                library_mode: LibraryMode::Queue,
                previous_library_mode: None,
                library_selected: 0,
                library_items: seq![],
                browse_path: seq![],
                search_query: seq![],
                search_active: false,
                playlists: seq![],
                queue: seq![],
                input_state: None,
                lyrics_selected: None,
                lyrics_offset: None,
                last_scroll_ms: None,
                eq_selected: 0,
                crossfade_secs,
                replay_gain_mode,
                app_volume,
                last_volume_ms: None,
                shuffle: false,
                repeat: RepeatMode::Off,
                last_seek_ms: None,
                seek_accumulator: 0,
                seek_start_ms: None,
            }),
    {
        let s = UiState {
            is_running: true,
            show_keyhints: false,
            show_audio_info: false,
            view_mode: ViewMode::Lyrics,
            library_mode: LibraryMode::Queue,
            previous_library_mode: None,
            library_selected: 0,
            library_items: Vec::new(),
            browse_path: Vec::new(),
            search_query: Vec::new(),
            search_active: false,
            playlists: Vec::new(),
            queue: Vec::new(),
            input_state: None,
            lyrics_selected: None,
            lyrics_offset: None,
            last_scroll_ms: None,
            eq_selected: 0,
            crossfade_secs,
            replay_gain_mode,
            app_volume,
            last_volume_ms: None,
            shuffle: false,
            repeat: RepeatMode::Off,
            last_seek_ms: None,
            seek_accumulator: 0,
            seek_start_ms: None,
        };
        assert(views(s.browse_path@) =~= seq![]);
        assert(views(s.playlists@) =~= seq![]);
        s
    }
}

/// The work that a key press leaves to the caller.
#[derive(Debug)]
pub enum Action {
    /// Nothing to do outside.
    Done,
    /// Move the queue entry at `from` to `to` on the daemon; on success call `queue_moved`.
    ShiftQueue { from: u32, to: u32 },
    /// Fetch the playlist names; hand them to `playlists_loaded`.
    FetchPlaylists,
    /// List the directory `path` ("" for the root); hand the entries to `items_loaded`.
    FetchDirectory(Vec<char>),
    /// Fetch the playlist names as library entries; hand them to `playlist_items_loaded`.
    FetchPlaylistItems,
    /// Open the tag editor on the file; read its album tag first when `read_album`.
    OpenTagEditor { path: Vec<char>, title: Vec<char>, artist: Vec<char>, read_album: bool },
    /// Delete the queue entry at this position.
    DeleteFromQueue(u32),
    /// Delete the playlist with this name, then refetch the names into `playlist_deleted`.
    DeletePlaylist(Vec<char>),
    /// Add the entry to the queue.
    AddToQueue(LibraryItem),
    /// Play the queue entry at this position.
    PlayQueuePosition(u32),
    /// List the folder; if that works, hand the entries to `folder_entered`.
    EnterFolder { path: Vec<char>, name: Vec<char> },
    /// Add the song to the queue and play it.
    PlaySong(Vec<char>),
    /// Replace the queue by the playlist.
    LoadPlaylist(Vec<char>),
    /// Seek the player to this lyric line's time.
    SeekToLine(u64),
    DeletePreset,
    /// Raise the gain of this band.
    BandUp(usize),
    /// Lower the gain of this band.
    BandDown(usize),
    ToggleEq,
    ResetEq,
    ResetLevels,
    NextPreset,
    PrevPreset,
    PreampUp,
    PreampDown,
    BalanceRight,
    BalanceLeft,
    /// Set the crossfade of the daemon.
    SetCrossfade(u32),
    /// Set the replay gain mode of the daemon.
    SetReplayGain(u8),
    /// Toggle play and pause; `was_playing` tells which notice to show.
    PlayPause { was_playing: bool },
    NextTrack,
    PrevTrack,
    /// Apply this volume to the player and the audio pipeline.
    SetVolume(u8),
    /// Seek the player to `target_ms` if the same track still plays;
    /// `offset_secs` is the distance covered by the run of seek presses.
    Seek { target_ms: u64, offset_secs: i64 },
    /// Set the shuffle of the controlled player.
    SetShuffle(bool),
    /// Read the daemon's shuffle flag, set the opposite, hand it to `shuffle_set`.
    ToggleDaemonShuffle,
    /// Set the repeat mode of the controlled player.
    SetRepeat(RepeatMode),
    /// Set the daemon's repeat and single flags for this mode; on success call `repeat_set`.
    SetDaemonRepeat(RepeatMode),
    NextDevice,
    PrevDevice,
    CycleArt,
}


/// The mathematical content of an `Action`.
pub enum ActionView {
    Done,
    ShiftQueue { from: u32, to: u32 },
    FetchPlaylists,
    FetchDirectory(Seq<char>),
    FetchPlaylistItems,
    OpenTagEditor { path: Seq<char>, title: Seq<char>, artist: Seq<char>, read_album: bool },
    DeleteFromQueue(u32),
    DeletePlaylist(Seq<char>),
    AddToQueue(LibraryItem),
    PlayQueuePosition(u32),
    EnterFolder { path: Seq<char>, name: Seq<char> },
    PlaySong(Seq<char>),
    LoadPlaylist(Seq<char>),
    SeekToLine(u64),
    DeletePreset,
    BandUp(usize),
    BandDown(usize),
    ToggleEq,
    ResetEq,
    ResetLevels,
    NextPreset,
    PrevPreset,
    PreampUp,
    PreampDown,
    BalanceRight,
    BalanceLeft,
    SetCrossfade(u32),
    SetReplayGain(u8),
    PlayPause { was_playing: bool },
    NextTrack,
    PrevTrack,
    SetVolume(u8),
    Seek { target_ms: u64, offset_secs: i64 },
    SetShuffle(bool),
    ToggleDaemonShuffle,
    SetRepeat(RepeatMode),
    SetDaemonRepeat(RepeatMode),
    NextDevice,
    PrevDevice,
    CycleArt,
}

impl View for Action {
    type V = ActionView;

    open spec fn view(&self) -> ActionView {
        match self {
            Action::Done => ActionView::Done,
            Action::ShiftQueue { from, to } => ActionView::ShiftQueue { from: *from, to: *to },
            Action::FetchPlaylists => ActionView::FetchPlaylists,
            Action::FetchDirectory(p) => ActionView::FetchDirectory(p@),
            Action::FetchPlaylistItems => ActionView::FetchPlaylistItems,
            Action::OpenTagEditor { path, title, artist, read_album } => ActionView::OpenTagEditor {
                path: path@,
                title: title@,
                artist: artist@,
                read_album: *read_album,
            },
            Action::DeleteFromQueue(p) => ActionView::DeleteFromQueue(*p),
            Action::DeletePlaylist(n) => ActionView::DeletePlaylist(n@),
            Action::AddToQueue(i) => ActionView::AddToQueue(*i),
            Action::PlayQueuePosition(p) => ActionView::PlayQueuePosition(*p),
            Action::EnterFolder { path, name } => ActionView::EnterFolder { path: path@, name: name@ },
            Action::PlaySong(p) => ActionView::PlaySong(p@),
            Action::LoadPlaylist(n) => ActionView::LoadPlaylist(n@),
            Action::SeekToLine(t) => ActionView::SeekToLine(*t),
            Action::DeletePreset => ActionView::DeletePreset,
            Action::BandUp(b) => ActionView::BandUp(*b),
            Action::BandDown(b) => ActionView::BandDown(*b),
            Action::ToggleEq => ActionView::ToggleEq,
            Action::ResetEq => ActionView::ResetEq,
            Action::ResetLevels => ActionView::ResetLevels,
            Action::NextPreset => ActionView::NextPreset,
            Action::PrevPreset => ActionView::PrevPreset,
            Action::PreampUp => ActionView::PreampUp,
            Action::PreampDown => ActionView::PreampDown,
            Action::BalanceRight => ActionView::BalanceRight,
            Action::BalanceLeft => ActionView::BalanceLeft,
            Action::SetCrossfade(c) => ActionView::SetCrossfade(*c),
            Action::SetReplayGain(g) => ActionView::SetReplayGain(*g),
            Action::PlayPause { was_playing } => ActionView::PlayPause { was_playing: *was_playing },
            Action::NextTrack => ActionView::NextTrack,
            Action::PrevTrack => ActionView::PrevTrack,
            Action::SetVolume(v) => ActionView::SetVolume(*v),
            Action::Seek { target_ms, offset_secs } => ActionView::Seek {
                target_ms: *target_ms,
                offset_secs: *offset_secs,
            },
            Action::SetShuffle(b) => ActionView::SetShuffle(*b),
            Action::ToggleDaemonShuffle => ActionView::ToggleDaemonShuffle,
            Action::SetRepeat(r) => ActionView::SetRepeat(*r),
            Action::SetDaemonRepeat(r) => ActionView::SetDaemonRepeat(*r),
            Action::NextDevice => ActionView::NextDevice,
            Action::PrevDevice => ActionView::PrevDevice,
            Action::CycleArt => ActionView::CycleArt,
        }
    }
}

/// `ev` presses the key bound by `binding`.
pub open spec fn pressed(ev: KeyEvent, binding: String) -> bool {
    key_matches(ev, binding@)
}

// ───────────────────────── popups and global keys ─────────────────────────

/// Quit (closing an open popup first), the popup toggles, closing popups,
/// and `'/'`, which opens the library search.
pub open spec fn common_step(m: UiModel, keys: KeyConfig, ev: KeyEvent, controller: bool) -> Option<
    UiModel,
> {
    if pressed(ev, keys.quit) {
        Some(
            if m.show_keyhints {
                UiModel { show_keyhints: false, ..m }
            } else if m.show_audio_info {
                UiModel { show_audio_info: false, ..m }
            } else {
                UiModel { is_running: false, ..m }
            },
        )
    } else if pressed(ev, keys.toggle_keyhints) {
        Some(UiModel { show_keyhints: !m.show_keyhints, ..m })
    } else if pressed(ev, keys.toggle_audio_info) {
        Some(UiModel { show_audio_info: !m.show_audio_info, ..m })
    } else if (pressed(ev, keys.back_dir_alt) || ev.code == KeyCode::Esc) && (m.show_keyhints
        || m.show_audio_info) {
        Some(UiModel { show_keyhints: false, show_audio_info: false, ..m })
    } else if ev.code == KeyCode::Char('/') && !controller {
        Some(
            UiModel {
                view_mode: ViewMode::Library,
                previous_library_mode: if m.library_mode != LibraryMode::Search {
                    Some(m.library_mode)
                } else {
                    m.previous_library_mode
                },
                library_mode: LibraryMode::Search,
                search_active: true,
                library_items: seq![],
                library_selected: 0,
                ..m
            },
        )
    } else {
        None
    }
}

/// Handles the keys that work everywhere; returns whether the key was used.
pub fn handle_common_events(key: KeyEvent, app: &mut UiState, keys: &KeyConfig, controller: bool) -> (consumed: bool)
    ensures
        consumed == common_step(old(app)@, *keys, key, controller) is Some,
        consumed ==> final(app)@ == common_step(old(app)@, *keys, key, controller)->0,
        !consumed ==> final(app)@ == old(app)@,
{
    if keys.matches(key, keys.quit.as_str()) {
        if app.show_keyhints {
            app.show_keyhints = false;
        } else if app.show_audio_info {
            app.show_audio_info = false;
        } else {
            app.is_running = false;
        }
        return true;
    }
    if keys.matches(key, keys.toggle_keyhints.as_str()) {
        app.show_keyhints = !app.show_keyhints;
        return true;
    }
    if keys.matches(key, keys.toggle_audio_info.as_str()) {
        app.show_audio_info = !app.show_audio_info;
        return true;
    }
    if (keys.matches(key, keys.back_dir_alt.as_str()) || key.code == KeyCode::Esc) && (
    app.show_keyhints || app.show_audio_info) {
        app.show_keyhints = false;
        app.show_audio_info = false;
        return true;
    }
    if key.code == KeyCode::Char('/') && !controller {
        app.view_mode = ViewMode::Library;
        if app.library_mode != LibraryMode::Search {
            app.previous_library_mode = Some(app.library_mode);
        }
        app.library_mode = LibraryMode::Search;
        app.search_active = true;
        app.library_items = Vec::new();
        app.library_selected = 0;
        return true;
    }
    false
}


// ───────────────────────── view switching ─────────────────────────

/// The keys that switch the right panel; only the lyrics exist for a
/// controlled player.
pub open spec fn view_switch_step(m: UiModel, keys: KeyConfig, ev: KeyEvent, controller: bool) -> Option<
    UiModel,
> {
    if pressed(ev, keys.view_lyrics) {
        Some(UiModel { view_mode: ViewMode::Lyrics, ..m })
    } else if pressed(ev, keys.view_visualizer) && !controller {
        Some(UiModel { view_mode: ViewMode::Visualizer, ..m })
    } else if pressed(ev, keys.view_library) && !controller {
        Some(UiModel { view_mode: ViewMode::Library, ..m })
    } else if pressed(ev, keys.view_eq) && !controller {
        Some(UiModel { view_mode: ViewMode::EQ, ..m })
    } else {
        None
    }
}

/// Handles the view switching keys; returns whether the key was used.
pub fn handle_view_switch(key: KeyEvent, app: &mut UiState, keys: &KeyConfig, controller: bool) -> (consumed: bool)
    ensures
        consumed == view_switch_step(old(app)@, *keys, key, controller) is Some,
        consumed ==> final(app)@ == view_switch_step(old(app)@, *keys, key, controller)->0,
        !consumed ==> final(app)@ == old(app)@,
{
    if keys.matches(key, keys.view_lyrics.as_str()) {
        app.view_mode = ViewMode::Lyrics;
        return true;
    }
    if keys.matches(key, keys.view_visualizer.as_str()) && !controller {
        app.view_mode = ViewMode::Visualizer;
        return true;
    }
    if keys.matches(key, keys.view_library.as_str()) && !controller {
        app.view_mode = ViewMode::Library;
        return true;
    }
    if keys.matches(key, keys.view_eq.as_str()) && !controller {
        app.view_mode = ViewMode::EQ;
        return true;
    }
    false
}

// ───────────────────────── lyrics ─────────────────────────

/// The lines of loaded lyrics.
pub open spec fn loaded_lines(l: LyricsState) -> Option<Seq<LyricLine>> {
    match l {
        LyricsState::Loaded(lines, _) => Some(lines@),
        _ => None,
    }
}

/// The line that manual scrolling starts from: the selected one, or else the
/// one being sung.
pub open spec fn scroll_origin(m: UiModel, lines: Seq<LyricLine>, pos_ms: u64) -> nat {
    match m.lyrics_selected {
        Some(s) => s as nat,
        None => current_line(lines, pos_ms),
    }
}

pub open spec fn last_index(len: nat) -> nat {
    if len > 0 {
        (len - 1) as nat
    } else {
        0
    }
}

/// Scrolling the lyrics by hand and jumping to the selected line.
pub open spec fn lyrics_step(
    m: UiModel,
    keys: KeyConfig,
    ev: KeyEvent,
    lyrics: Option<Seq<LyricLine>>,
    pos_ms: u64,
    now_ms: u64,
) -> Option<(UiModel, ActionView)> {
    if m.view_mode != ViewMode::Lyrics {
        None
    } else if pressed(ev, keys.nav_down) || pressed(ev, keys.nav_down_alt) {
        Some(
            match lyrics {
                Some(lines) => {
                    let max = last_index(lines.len());
                    let cur = scroll_origin(m, lines, pos_ms);
                    let sel = if cur + 1 < max {
                        cur + 1
                    } else {
                        max
                    };
                    (
                        UiModel {
                            lyrics_selected: Some(sel as usize),
                            lyrics_offset: Some(sel as usize),
                            last_scroll_ms: Some(now_ms),
                            ..m
                        },
                        ActionView::Done,
                    )
                },
                None => (m, ActionView::Done),
            },
        )
    } else if pressed(ev, keys.nav_up) || pressed(ev, keys.nav_up_alt) {
        Some(
            match lyrics {
                Some(lines) => {
                    let cur = scroll_origin(m, lines, pos_ms);
                    let sel = if cur > 0 {
                        (cur - 1) as nat
                    } else {
                        0
                    };
                    (
                        UiModel {
                            lyrics_selected: Some(sel as usize),
                            lyrics_offset: Some(sel as usize),
                            last_scroll_ms: Some(now_ms),
                            ..m
                        },
                        ActionView::Done,
                    )
                },
                None => (m, ActionView::Done),
            },
        )
    } else if pressed(ev, keys.seek_to_line) {
        Some(
            match (lyrics, m.lyrics_selected) {
                (Some(lines), Some(idx)) => if idx < lines.len() {
                    (
                        UiModel {
                            lyrics_selected: None,
                            lyrics_offset: None,
                            last_scroll_ms: None,
                            ..m
                        },
                        ActionView::SeekToLine(lines[idx as int].timestamp_ms),
                    )
                } else {
                    (m, ActionView::Done)
                },
                _ => (m, ActionView::Done),
            },
        )
    } else {
        None
    }
}

/// Handles the keys of the lyrics view; `None` when the key is not one of them.
pub fn handle_lyrics_events(
    key: KeyEvent,
    app: &mut UiState,
    keys: &KeyConfig,
    lyrics: &LyricsState,
    position_ms: u64,
    now_ms: u64,
) -> (r: Option<Action>)
    ensures
        r is Some == lyrics_step(old(app)@, *keys, key, loaded_lines(*lyrics), position_ms, now_ms) is Some,
        r matches Some(a) ==> (final(app)@, a@) == lyrics_step(
            old(app)@,
            *keys,
            key,
            loaded_lines(*lyrics),
            position_ms,
            now_ms,
        )->0,
        r is None ==> final(app)@ == old(app)@,
{
    if app.view_mode != ViewMode::Lyrics {
        return None;
    }
    if keys.matches(key, keys.nav_down.as_str()) || keys.matches(key, keys.nav_down_alt.as_str()) {
        if let LyricsState::Loaded(lines, _) = lyrics {
            let max = if lines.len() > 0 { lines.len() - 1 } else { 0 };
            let cur = match app.lyrics_selected {
                Some(s) => s,
                None => current_line_index(lines, position_ms),
            };
            let sel = if cur < max && cur + 1 < max { cur + 1 } else { max };
            app.lyrics_selected = Some(sel);
            app.lyrics_offset = Some(sel);
            app.last_scroll_ms = Some(now_ms);
        }
        return Some(Action::Done);
    }
    if keys.matches(key, keys.nav_up.as_str()) || keys.matches(key, keys.nav_up_alt.as_str()) {
        if let LyricsState::Loaded(lines, _) = lyrics {
            let cur = match app.lyrics_selected {
                Some(s) => s,
                None => current_line_index(lines, position_ms),
            };
            let sel = if cur > 0 { cur - 1 } else { 0 };
            app.lyrics_selected = Some(sel);
            app.lyrics_offset = Some(sel);
            app.last_scroll_ms = Some(now_ms);
        }
        return Some(Action::Done);
    }
    if keys.matches(key, keys.seek_to_line.as_str()) {
        if let LyricsState::Loaded(lines, _) = lyrics {
            if let Some(idx) = app.lyrics_selected {
                if idx < lines.len() {
                    let target = lines[idx].timestamp_ms;
                    app.lyrics_selected = None;
                    app.lyrics_offset = None;
                    app.last_scroll_ms = None;
                    return Some(Action::SeekToLine(target));
                }
            }
        }
        return Some(Action::Done);
    }
    None
}


// ───────────────────────── equalizer ─────────────────────────

/// The crossfade that the crossfade key switches to: 0, 2, 4, 6 seconds, then 0.
pub open spec fn next_crossfade(c: u32) -> u32 {
    if c == 0 {
        2
    } else if c == 2 {
        4
    } else if c == 4 {
        6
    } else {
        0
    }
}

/// The crossfade that the crossfade key switches to.
pub fn toggle_crossfade(secs: u32) -> (r: u32)
    ensures
        r == next_crossfade(secs),
{
    match secs {
        0 => 2,
        2 => 4,
        4 => 6,
        _ => 0,
    }
}

/// The replay gain mode that the replay gain key switches to.
pub open spec fn next_replay_gain(mode: u8) -> u8 {
    ((mode + 1) % 4) as u8
}

/// The keys of the equalizer view.
pub open spec fn eq_step(m: UiModel, keys: KeyConfig, ev: KeyEvent, controller: bool) -> Option<
    (UiModel, ActionView),
> {
    if m.view_mode != ViewMode::EQ {
        None
    } else if pressed(ev, keys.save_preset) {
        Some(
            (
                UiModel {
                    input_state: Some(
                        InputView {
                            mode: InputModeView::EqSave,
                            title: "Save Preset As"@,
                            value: ""@,
                        },
                    ),
                    ..m
                },
                ActionView::Done,
            ),
        )
    } else if pressed(ev, keys.delete_preset) {
        Some((m, ActionView::DeletePreset))
    } else if pressed(ev, keys.nav_left) || pressed(ev, keys.nav_left_alt) {
        Some(
            (
                UiModel {
                    eq_selected: if m.eq_selected > 0 {
                        (m.eq_selected - 1) as nat
                    } else {
                        0
                    },
                    ..m
                },
                ActionView::Done,
            ),
        )
    } else if pressed(ev, keys.nav_right) || pressed(ev, keys.nav_right_alt) {
        Some(
            (
                UiModel {
                    eq_selected: if m.eq_selected < 9 {
                        m.eq_selected + 1
                    } else {
                        m.eq_selected
                    },
                    ..m
                },
                ActionView::Done,
            ),
        )
    } else if pressed(ev, keys.gain_up) || pressed(ev, keys.nav_up_alt) {
        Some((m, ActionView::BandUp(m.eq_selected as usize)))
    } else if pressed(ev, keys.gain_down) || pressed(ev, keys.nav_down_alt) {
        Some((m, ActionView::BandDown(m.eq_selected as usize)))
    } else if pressed(ev, keys.toggle_eq) {
        Some((m, ActionView::ToggleEq))
    } else if pressed(ev, keys.reset_eq) {
        Some((m, ActionView::ResetEq))
    } else if pressed(ev, keys.reset_levels) {
        Some((m, ActionView::ResetLevels))
    } else if pressed(ev, keys.tab_next) {
        Some((m, ActionView::NextPreset))
    } else if pressed(ev, keys.tab_prev) {
        Some((m, ActionView::PrevPreset))
    } else if pressed(ev, keys.preamp_up) {
        Some((m, ActionView::PreampUp))
    } else if pressed(ev, keys.preamp_down) {
        Some((m, ActionView::PreampDown))
    } else if pressed(ev, keys.balance_right) {
        Some((m, ActionView::BalanceRight))
    } else if pressed(ev, keys.balance_left) {
        Some((m, ActionView::BalanceLeft))
    } else if pressed(ev, keys.crossfade) {
        let c = next_crossfade(m.crossfade_secs);
        Some(
            (
                UiModel { crossfade_secs: c, ..m },
                if !controller {
                    ActionView::SetCrossfade(c)
                } else {
                    ActionView::Done
                },
            ),
        )
    } else if pressed(ev, keys.replay_gain) {
        let g = next_replay_gain(m.replay_gain_mode);
        Some(
            (
                UiModel { replay_gain_mode: g, ..m },
                if !controller {
                    ActionView::SetReplayGain(g)
                } else {
                    ActionView::Done
                },
            ),
        )
    } else {
        None
    }
}

/// Handles the keys of the equalizer view; `None` when the key is not one of them.
pub fn handle_eq_events(key: KeyEvent, app: &mut UiState, keys: &KeyConfig, controller: bool) -> (r: Option<Action>)
    ensures
        r is Some == eq_step(old(app)@, *keys, key, controller) is Some,
        r matches Some(a) ==> (final(app)@, a@) == eq_step(old(app)@, *keys, key, controller)->0,
        r is None ==> final(app)@ == old(app)@,
{
    if app.view_mode != ViewMode::EQ {
        return None;
    }
    if keys.matches(key, keys.save_preset.as_str()) {
        app.input_state = Some(InputState::new(InputMode::EqSave, "Save Preset As", ""));
        return Some(Action::Done);
    }
    if keys.matches(key, keys.delete_preset.as_str()) {
        return Some(Action::DeletePreset);
    }
    if keys.matches(key, keys.nav_left.as_str()) || keys.matches(key, keys.nav_left_alt.as_str()) {
        if app.eq_selected > 0 {
            app.eq_selected = app.eq_selected - 1;
        }
        return Some(Action::Done);
    }
    if keys.matches(key, keys.nav_right.as_str()) || keys.matches(key, keys.nav_right_alt.as_str()) {
        if app.eq_selected < 9 {
            app.eq_selected = app.eq_selected + 1;
        }
        return Some(Action::Done);
    }
    if keys.matches(key, keys.gain_up.as_str()) || keys.matches(key, keys.nav_up_alt.as_str()) {
        return Some(Action::BandUp(app.eq_selected));
    }
    if keys.matches(key, keys.gain_down.as_str()) || keys.matches(key, keys.nav_down_alt.as_str()) {
        return Some(Action::BandDown(app.eq_selected));
    }
    if keys.matches(key, keys.toggle_eq.as_str()) {
        return Some(Action::ToggleEq);
    }
    if keys.matches(key, keys.reset_eq.as_str()) {
        return Some(Action::ResetEq);
    }
    if keys.matches(key, keys.reset_levels.as_str()) {
        return Some(Action::ResetLevels);
    }
    if keys.matches(key, keys.tab_next.as_str()) {
        return Some(Action::NextPreset);
    }
    if keys.matches(key, keys.tab_prev.as_str()) {
        return Some(Action::PrevPreset);
    }
    if keys.matches(key, keys.preamp_up.as_str()) {
        return Some(Action::PreampUp);
    }
    if keys.matches(key, keys.preamp_down.as_str()) {
        return Some(Action::PreampDown);
    }
    if keys.matches(key, keys.balance_right.as_str()) {
        return Some(Action::BalanceRight);
    }
    if keys.matches(key, keys.balance_left.as_str()) {
        return Some(Action::BalanceLeft);
    }
    if keys.matches(key, keys.crossfade.as_str()) {
        let c = toggle_crossfade(app.crossfade_secs);
        app.crossfade_secs = c;
        return Some(if !controller { Action::SetCrossfade(c) } else { Action::Done });
    }
    if keys.matches(key, keys.replay_gain.as_str()) {
        let g = ((app.replay_gain_mode as u16 + 1) % 4) as u8;
        app.replay_gain_mode = g;
        return Some(if !controller { Action::SetReplayGain(g) } else { Action::Done });
    }
    None
}


// ───────────────────────── playback ─────────────────────────

/// What key handling needs to know of the playing track.
#[derive(Debug, Clone, Copy)]
pub struct TrackStatus {
    /// The position the player last reported.
    pub position_ms: u64,
    /// The position now, extrapolated from the last report.
    pub current_ms: u64,
    pub duration_ms: u64,
    pub playing: bool,
}

/// `x` held to the range of `i64`.
pub open spec fn clamp_i64(x: int) -> int {
    if x > i64::MAX {
        i64::MAX as int
    } else if x < i64::MIN {
        i64::MIN as int
    } else {
        x
    }
}

/// Seek presses within half a second of each other form one run; the target
/// is where the run started plus the seconds added up, held within the track.
pub open spec fn seek_step(m: UiModel, dir: int, track: Option<TrackStatus>, now_ms: u64) -> (
    UiModel,
    ActionView,
) {
    let new_run = match m.last_seek_ms {
        Some(last) => now_ms - last >= 500,
        None => true,
    };
    let start = if new_run {
        Some(
            match track {
                Some(t) => t.current_ms,
                None => 0u64,
            },
        )
    } else {
        m.seek_start_ms
    };
    let acc = if new_run {
        dir
    } else {
        clamp_i64(m.seek_accumulator + dir)
    };
    let m2 = UiModel { seek_start_ms: start, seek_accumulator: acc, last_seek_ms: Some(now_ms), ..m };
    match start {
        Some(s) => {
            let t = s + acc * 1000;
            let low = if t < 0 {
                0
            } else {
                t
            };
            let target = match track {
                Some(tr) => if low > tr.duration_ms {
                    tr.duration_ms as int
                } else {
                    low
                },
                None => if low > u64::MAX {
                    u64::MAX as int
                } else {
                    low
                },
            };
            (m2, ActionView::Seek { target_ms: target as u64, offset_secs: acc as i64 })
        },
        None => (m2, ActionView::Done),
    }
}

/// The volume after the volume-up key: five more, at most 100.
pub open spec fn volume_up_level(v: u8) -> u8 {
    if v + 5 > 100 {
        100
    } else {
        (v + 5) as u8
    }
}

/// The volume after the volume-down key: five less, at least 0.
pub open spec fn volume_down_level(v: u8) -> u8 {
    if v < 5 {
        0
    } else {
        (v - 5) as u8
    }
}

/// The playback keys, which work in every view not using them otherwise.
pub open spec fn player_step(
    m: UiModel,
    keys: KeyConfig,
    ev: KeyEvent,
    controller: bool,
    track: Option<TrackStatus>,
    now_ms: u64,
) -> Option<(UiModel, ActionView)> {
    if pressed(ev, keys.play_pause) {
        Some(
            (
                m,
                ActionView::PlayPause {
                    was_playing: match track {
                        Some(t) => t.playing,
                        None => false,
                    },
                },
            ),
        )
    } else if pressed(ev, keys.next_track) {
        Some((m, ActionView::NextTrack))
    } else if pressed(ev, keys.prev_track) {
        Some((m, ActionView::PrevTrack))
    } else if pressed(ev, keys.volume_up) {
        let v = volume_up_level(m.app_volume);
        Some((UiModel { app_volume: v, last_volume_ms: Some(now_ms), ..m }, ActionView::SetVolume(v)))
    } else if pressed(ev, keys.volume_down) {
        let v = volume_down_level(m.app_volume);
        Some((UiModel { app_volume: v, last_volume_ms: Some(now_ms), ..m }, ActionView::SetVolume(v)))
    } else if (pressed(ev, keys.seek_backward) || pressed(ev, keys.nav_left_alt)) && m.view_mode
        != ViewMode::EQ {
        Some(seek_step(m, -5, track, now_ms))
    } else if (pressed(ev, keys.seek_forward) || pressed(ev, keys.nav_right_alt)) && m.view_mode
        != ViewMode::EQ {
        Some(seek_step(m, 5, track, now_ms))
    } else if pressed(ev, keys.shuffle) {
        Some(
            if controller {
                (UiModel { shuffle: !m.shuffle, ..m }, ActionView::SetShuffle(!m.shuffle))
            } else {
                (m, ActionView::ToggleDaemonShuffle)
            },
        )
    } else if pressed(ev, keys.repeat) {
        let next = next_repeat(m.repeat);
        Some(
            if controller {
                (UiModel { repeat: next, ..m }, ActionView::SetRepeat(next))
            } else {
                (m, ActionView::SetDaemonRepeat(next))
            },
        )
    } else if (m.view_mode == ViewMode::Lyrics || m.view_mode == ViewMode::Visualizer || m.view_mode
        == ViewMode::EQ) && pressed(ev, keys.device_next) {
        Some((m, ActionView::NextDevice))
    } else if (m.view_mode == ViewMode::Lyrics || m.view_mode == ViewMode::Visualizer || m.view_mode
        == ViewMode::EQ) && pressed(ev, keys.device_prev) {
        Some((m, ActionView::PrevDevice))
    } else if pressed(ev, keys.cycle_art) {
        Some((m, ActionView::CycleArt))
    } else {
        None
    }
}

fn seek(app: &mut UiState, forward: bool, track: Option<TrackStatus>, now_ms: u64) -> (r: Action)
    ensures
        (final(app)@, r@) == seek_step(old(app)@, if forward { 5 } else { -5 }, track, now_ms),
{
    let new_run = match app.last_seek_ms {
        Some(last) => now_ms.saturating_sub(last) >= 500,
        None => true,
    };
    let dir: i64 = if forward { 5 } else { -5 };
    if new_run {
        app.seek_start_ms = Some(match track {
            Some(t) => t.current_ms,
            None => 0,
        });
        app.seek_accumulator = dir;
    } else {
        let a = app.seek_accumulator;
        app.seek_accumulator = if forward {
            if a > i64::MAX - 5 { i64::MAX } else { a + 5 }
        } else {
            if a < i64::MIN + 5 { i64::MIN } else { a - 5 }
        };
    }
    app.last_seek_ms = Some(now_ms);
    match app.seek_start_ms {
        Some(s) => {
            let t: i128 = s as i128 + app.seek_accumulator as i128 * 1000;
            let low: i128 = if t < 0 { 0 } else { t };
            let target: u64 = match track {
                Some(tr) => if low > tr.duration_ms as i128 { tr.duration_ms } else { low as u64 },
                None => if low > u64::MAX as i128 { u64::MAX } else { low as u64 },
            };
            Action::Seek { target_ms: target, offset_secs: app.seek_accumulator }
        },
        None => Action::Done,
    }
}

/// Handles the playback keys; `None` when the key is not one of them.
pub fn handle_player_events(
    key: KeyEvent,
    app: &mut UiState,
    keys: &KeyConfig,
    controller: bool,
    track: Option<TrackStatus>,
    now_ms: u64,
) -> (r: Option<Action>)
    ensures
        r is Some == player_step(old(app)@, *keys, key, controller, track, now_ms) is Some,
        r matches Some(a) ==> (final(app)@, a@) == player_step(
            old(app)@,
            *keys,
            key,
            controller,
            track,
            now_ms,
        )->0,
        r is None ==> final(app)@ == old(app)@,
{
    if keys.matches(key, keys.play_pause.as_str()) {
        let was_playing = match track {
            Some(t) => t.playing,
            None => false,
        };
        return Some(Action::PlayPause { was_playing });
    }
    if keys.matches(key, keys.next_track.as_str()) {
        return Some(Action::NextTrack);
    }
    if keys.matches(key, keys.prev_track.as_str()) {
        return Some(Action::PrevTrack);
    }
    if keys.matches(key, keys.volume_up.as_str()) {
        let v = if app.app_volume > 95 { 100 } else { app.app_volume + 5 };
        app.app_volume = v;
        app.last_volume_ms = Some(now_ms);
        return Some(Action::SetVolume(v));
    }
    if keys.matches(key, keys.volume_down.as_str()) {
        let v = if app.app_volume < 5 { 0 } else { app.app_volume - 5 };
        app.app_volume = v;
        app.last_volume_ms = Some(now_ms);
        return Some(Action::SetVolume(v));
    }
    if (keys.matches(key, keys.seek_backward.as_str()) || keys.matches(key, keys.nav_left_alt.as_str()))
        && app.view_mode != ViewMode::EQ {
        return Some(seek(app, false, track, now_ms));
    }
    if (keys.matches(key, keys.seek_forward.as_str()) || keys.matches(key, keys.nav_right_alt.as_str()))
        && app.view_mode != ViewMode::EQ {
        return Some(seek(app, true, track, now_ms));
    }
    if keys.matches(key, keys.shuffle.as_str()) {
        if controller {
            let b = !app.shuffle;
            app.shuffle = b;
            return Some(Action::SetShuffle(b));
        } else {
            return Some(Action::ToggleDaemonShuffle);
        }
    }
    if keys.matches(key, keys.repeat.as_str()) {
        let next = app.repeat.next();
        if controller {
            app.repeat = next;
            return Some(Action::SetRepeat(next));
        } else {
            return Some(Action::SetDaemonRepeat(next));
        }
    }
    let device_view = app.view_mode == ViewMode::Lyrics || app.view_mode == ViewMode::Visualizer
        || app.view_mode == ViewMode::EQ;
    if device_view && keys.matches(key, keys.device_next.as_str()) {
        return Some(Action::NextDevice);
    }
    if device_view && keys.matches(key, keys.device_prev.as_str()) {
        return Some(Action::PrevDevice);
    }
    if keys.matches(key, keys.cycle_art.as_str()) {
        return Some(Action::CycleArt);
    }
    None
}


// ───────────────────────── library ─────────────────────────

/// The library tab that the next-tab key goes to.
pub open spec fn tab_next_mode(m: LibraryMode) -> LibraryMode {
    match m {
        LibraryMode::Queue => LibraryMode::Directory,
        LibraryMode::Directory => LibraryMode::Playlists,
        LibraryMode::Search => LibraryMode::Playlists,
        LibraryMode::Playlists => LibraryMode::Queue,
    }
}

/// The library tab that the previous-tab key goes to.
pub open spec fn tab_prev_mode(m: LibraryMode) -> LibraryMode {
    match m {
        LibraryMode::Queue => LibraryMode::Playlists,
        LibraryMode::Directory => LibraryMode::Queue,
        LibraryMode::Search => LibraryMode::Directory,
        LibraryMode::Playlists => LibraryMode::Directory,
    }
}

pub fn next_tab(m: LibraryMode) -> (r: LibraryMode)
    ensures
        r == tab_next_mode(m),
{
    match m {
        LibraryMode::Queue => LibraryMode::Directory,
        LibraryMode::Directory => LibraryMode::Playlists,
        LibraryMode::Search => LibraryMode::Playlists,
        LibraryMode::Playlists => LibraryMode::Queue,
    }
}

pub fn prev_tab(m: LibraryMode) -> (r: LibraryMode)
    ensures
        r == tab_prev_mode(m),
{
    match m {
        LibraryMode::Queue => LibraryMode::Playlists,
        LibraryMode::Directory => LibraryMode::Queue,
        LibraryMode::Search => LibraryMode::Directory,
        LibraryMode::Playlists => LibraryMode::Directory,
    }
}

/// The number of rows of the current library tab, at least one.
pub open spec fn library_rows(m: UiModel) -> nat {
    let n = match m.library_mode {
        LibraryMode::Queue => m.queue.len(),
        LibraryMode::Playlists => m.playlists.len(),
        _ => m.library_items.len(),
    };
    if n > 0 {
        n
    } else {
        1
    }
}

/// The path of the browsed directory: the names of the entered folders,
/// separated by `'/'`.
pub open spec fn browse_dir(path: Seq<Seq<char>>) -> Seq<char> {
    join(path, seq!['/'])
}

/// Opening the tag editor on the selected queue entry or song.
#[verifier::opaque]
pub open spec fn edit_tags_action(m: UiModel, controller: bool) -> ActionView {
    let sel = m.library_selected;
    match m.library_mode {
        LibraryMode::Queue => if sel < m.queue.len() {
            ActionView::OpenTagEditor {
                path: m.queue[sel as int].file_path@,
                title: m.queue[sel as int].title@,
                artist: m.queue[sel as int].artist@,
                read_album: !controller,
            }
        } else {
            ActionView::Done
        },
        LibraryMode::Directory => if sel < m.library_items.len()
            && m.library_items[sel as int].item_type == LibraryItemType::Song
            && m.library_items[sel as int].path is Some {
            ActionView::OpenTagEditor {
                path: m.library_items[sel as int].path->0@,
                title: m.library_items[sel as int].name@,
                artist: match m.library_items[sel as int].artist {
                    Some(a) => a@,
                    None => seq![],
                },
                read_album: !controller,
            }
        } else {
            ActionView::Done
        },
        _ => ActionView::Done,
    }
}

/// Playing or opening the selected entry.
#[verifier::opaque]
pub open spec fn enter_action(m: UiModel) -> ActionView {
    let sel = m.library_selected;
    match m.library_mode {
        LibraryMode::Queue => ActionView::PlayQueuePosition(sel as u32),
        LibraryMode::Directory => if sel < m.library_items.len() {
            let item = m.library_items[sel as int];
            match item.path {
                Some(p) => if item.item_type == LibraryItemType::Folder {
                    ActionView::EnterFolder { path: p@, name: item.name@ }
                } else if item.item_type == LibraryItemType::Song {
                    ActionView::PlaySong(p@)
                } else {
                    ActionView::Done
                },
                None => ActionView::Done,
            }
        } else {
            ActionView::Done
        },
        LibraryMode::Search => if sel < m.library_items.len() && m.library_items[sel as int].path is Some {
            ActionView::PlaySong(m.library_items[sel as int].path->0@)
        } else {
            ActionView::Done
        },
        LibraryMode::Playlists => if sel < m.playlists.len() {
            ActionView::LoadPlaylist(m.playlists[sel as int])
        } else {
            ActionView::Done
        },
    }
}

#[verifier::opaque]
pub open spec fn tab_next_step(m: UiModel, controller: bool) -> (UiModel, ActionView) {
    let mode = tab_next_mode(m.library_mode);
    (
        UiModel {
            library_mode: mode,
            library_selected: 0,
            library_items: seq![],
            browse_path: seq![],
            search_query: seq![],
            search_active: false,
            ..m
        },
        if mode == LibraryMode::Playlists && !controller {
            ActionView::FetchPlaylists
        } else if mode == LibraryMode::Directory && !controller {
            ActionView::FetchDirectory(seq![])
        } else {
            ActionView::Done
        },
    )
}

#[verifier::opaque]
pub open spec fn tab_prev_step(m: UiModel, controller: bool) -> (UiModel, ActionView) {
    let mode = tab_prev_mode(m.library_mode);
    (
        UiModel {
            library_mode: mode,
            library_selected: 0,
            library_items: seq![],
            browse_path: seq![],
            search_query: seq![],
            ..m
        },
        if mode == LibraryMode::Playlists && !controller {
            ActionView::FetchPlaylists
        } else {
            ActionView::Done
        },
    )
}

#[verifier::opaque]
pub open spec fn rename_step(m: UiModel) -> UiModel {
    let sel = m.library_selected;
    if sel < m.playlists.len() {
        UiModel {
            input_state: Some(
                InputView {
                    mode: InputModeView::PlaylistRename(m.playlists[sel as int]),
                    title: "Rename Playlist"@,
                    value: m.playlists[sel as int],
                },
            ),
            ..m
        }
    } else {
        m
    }
}

#[verifier::opaque]
pub open spec fn delete_step(m: UiModel, controller: bool) -> (UiModel, ActionView) {
    let sel = m.library_selected;
    if controller {
        (m, ActionView::Done)
    } else {
        match m.library_mode {
            LibraryMode::Queue => (m, ActionView::DeleteFromQueue(sel as u32)),
            LibraryMode::Playlists => if sel < m.playlists.len() {
                (m, ActionView::DeletePlaylist(m.playlists[sel as int]))
            } else {
                (
                    UiModel {
                        library_selected: if sel > 0 {
                            (sel - 1) as nat
                        } else {
                            sel
                        },
                        ..m
                    },
                    ActionView::Done,
                )
            },
            _ => (m, ActionView::Done),
        }
    }
}

/// Leaving the search: back to the tab it was opened from.
#[verifier::opaque]
pub open spec fn search_back_step(m: UiModel, controller: bool) -> (UiModel, ActionView) {
    let target = match m.previous_library_mode {
        Some(p) => p,
        None => LibraryMode::Directory,
    };
    let m2 = UiModel {
        library_mode: target,
        previous_library_mode: None,
        search_query: seq![],
        library_selected: 0,
        ..m
    };
    if controller {
        (m2, ActionView::Done)
    } else {
        match target {
            LibraryMode::Directory => (m2, ActionView::FetchDirectory(browse_dir(m.browse_path))),
            LibraryMode::Playlists => (m2, ActionView::FetchPlaylistItems),
            LibraryMode::Queue => (UiModel { library_items: seq![], ..m2 }, ActionView::Done),
            LibraryMode::Search => (m2, ActionView::Done),
        }
    }
}

/// Going up one directory.
#[verifier::opaque]
pub open spec fn dir_back_step(m: UiModel, controller: bool) -> (UiModel, ActionView) {
    let path = if m.browse_path.len() > 0 {
        m.browse_path.drop_last()
    } else {
        m.browse_path
    };
    (
        UiModel { browse_path: path, library_items: seq![], library_selected: 0, ..m },
        if controller {
            ActionView::Done
        } else {
            ActionView::FetchDirectory(browse_dir(path))
        },
    )
}

/// Moving queue entries, switching tabs, and the popups of the library view.
pub open spec fn library_edit_step(m: UiModel, keys: KeyConfig, ev: KeyEvent, controller: bool) -> Option<
    (UiModel, ActionView),
> {
    let sel = m.library_selected;
    if pressed(ev, keys.move_down) && m.library_mode == LibraryMode::Queue {
        Some(
            if sel + 1 < m.queue.len() && !controller {
                (m, ActionView::ShiftQueue { from: sel as u32, to: (sel + 1) as u32 })
            } else {
                (m, ActionView::Done)
            },
        )
    } else if pressed(ev, keys.move_up) && m.library_mode == LibraryMode::Queue {
        Some(
            if sel > 0 && !controller {
                (m, ActionView::ShiftQueue { from: sel as u32, to: (sel - 1) as u32 })
            } else {
                (m, ActionView::Done)
            },
        )
    } else if pressed(ev, keys.tab_next) {
        Some(tab_next_step(m, controller))
    } else if pressed(ev, keys.tab_prev) {
        Some(tab_prev_step(m, controller))
    } else if pressed(ev, keys.save_playlist) {
        Some(
            (
                UiModel {
                    input_state: Some(
                        InputView {
                            mode: InputModeView::PlaylistSave,
                            title: "Save Playlist As:"@,
                            value: ""@,
                        },
                    ),
                    ..m
                },
                ActionView::Done,
            ),
        )
    } else if pressed(ev, keys.rename_playlist) && m.library_mode == LibraryMode::Playlists {
        Some((rename_step(m), ActionView::Done))
    } else if pressed(ev, keys.edit_tags) {
        Some((m, edit_tags_action(m, controller)))
    } else if pressed(ev, keys.delete_item) {
        Some(delete_step(m, controller))
    } else {
        None
    }
}

/// Adding, opening, going back and moving the selection in the library view.
/// Besides their own keys, the right-hand navigation key (`l`) opens the
/// selected entry and the left-hand one (`h`) goes back.
pub open spec fn library_browse_step(m: UiModel, keys: KeyConfig, ev: KeyEvent, controller: bool) -> Option<
    (UiModel, ActionView),
> {
    let sel = m.library_selected;
    if pressed(ev, keys.add_to_queue) && (m.library_mode == LibraryMode::Directory
        || m.library_mode == LibraryMode::Search) {
        Some(
            (
                m,
                if !controller && sel < m.library_items.len() {
                    ActionView::AddToQueue(m.library_items[sel as int])
                } else {
                    ActionView::Done
                },
            ),
        )
    } else if pressed(ev, keys.enter_dir) || pressed(ev, keys.nav_right) {
        Some(
            (
                m,
                if controller {
                    ActionView::Done
                } else {
                    enter_action(m)
                },
            ),
        )
    } else if (pressed(ev, keys.back_dir_alt) || pressed(ev, keys.back_dir) || pressed(ev, keys.nav_left))
        && m.library_mode == LibraryMode::Search {
        Some(search_back_step(m, controller))
    } else if (pressed(ev, keys.back_dir) || pressed(ev, keys.back_dir_alt) || pressed(ev, keys.nav_left))
        && m.library_mode == LibraryMode::Directory {
        Some(dir_back_step(m, controller))
    } else if pressed(ev, keys.nav_up) || pressed(ev, keys.nav_up_alt) {
        Some(
            (
                UiModel {
                    library_selected: if sel > 0 {
                        (sel - 1) as nat
                    } else {
                        0
                    },
                    ..m
                },
                ActionView::Done,
            ),
        )
    } else if pressed(ev, keys.nav_down) || pressed(ev, keys.nav_down_alt) {
        Some(
            (
                UiModel {
                    library_selected: if sel + 1 < library_rows(m) {
                        sel + 1
                    } else {
                        sel
                    },
                    ..m
                },
                ActionView::Done,
            ),
        )
    } else {
        None
    }
}

/// The keys of the library view, in the order in which they are tried.
pub open spec fn library_step(m: UiModel, keys: KeyConfig, ev: KeyEvent, controller: bool) -> Option<
    (UiModel, ActionView),
> {
    if m.view_mode != ViewMode::Library {
        None
    } else if library_edit_step(m, keys, ev, controller) is Some {
        library_edit_step(m, keys, ev, controller)
    } else {
        library_browse_step(m, keys, ev, controller)
    }
}

fn clone_chars(v: &Vec<char>) -> (r: Vec<char>)
    ensures
        r@ == v@,
{
    slice_of(v, 0, v.len())
}

fn string_chars(s: &String) -> (r: Vec<char>)
    ensures
        r@ == s@,
{
    crate::text::chars_of(s.as_str())
}

fn do_tab_next(app: &mut UiState, controller: bool) -> (r: Action)
    ensures
        (final(app)@, r@) == tab_next_step(old(app)@, controller),
{
    reveal(tab_next_step);
    let mode = next_tab(app.library_mode);
    app.library_mode = mode;
    app.library_selected = 0;
    app.library_items = Vec::new();
    app.browse_path = Vec::new();
    app.search_query = Vec::new();
    app.search_active = false;
    assert(views(app.browse_path@) =~= seq![]);
    if mode == LibraryMode::Playlists && !controller {
        Action::FetchPlaylists
    } else if mode == LibraryMode::Directory && !controller {
        Action::FetchDirectory(Vec::new())
    } else {
        Action::Done
    }
}

fn do_tab_prev(app: &mut UiState, controller: bool) -> (r: Action)
    ensures
        (final(app)@, r@) == tab_prev_step(old(app)@, controller),
{
    reveal(tab_prev_step);
    let mode = prev_tab(app.library_mode);
    app.library_mode = mode;
    app.library_selected = 0;
    app.library_items = Vec::new();
    app.browse_path = Vec::new();
    app.search_query = Vec::new();
    assert(views(app.browse_path@) =~= seq![]);
    if mode == LibraryMode::Playlists && !controller {
        Action::FetchPlaylists
    } else {
        Action::Done
    }
}

fn do_rename(app: &mut UiState)
    ensures
        final(app)@ == rename_step(old(app)@),
{
    reveal(rename_step);
    let sel = app.library_selected;
    if sel < app.playlists.len() {
        let name = crate::text::string_of(&app.playlists[sel]);
        let mode = InputMode::PlaylistRename(crate::text::string_of(&app.playlists[sel]));
        app.input_state = Some(InputState::new(mode, "Rename Playlist", name.as_str()));
    }
}

fn edit_tags_of(app: &UiState, controller: bool) -> (r: Action)
    ensures
        r@ == edit_tags_action(app@, controller),
{
    reveal(edit_tags_action);
    let sel = app.library_selected;
    match app.library_mode {
        LibraryMode::Queue => {
            if sel < app.queue.len() {
                let item = &app.queue[sel];
                return Action::OpenTagEditor {
                    path: string_chars(&item.file_path),
                    title: string_chars(&item.title),
                    artist: string_chars(&item.artist),
                    read_album: !controller,
                };
            }
        },
        LibraryMode::Directory => {
            if sel < app.library_items.len() {
                let item = &app.library_items[sel];
                if item.item_type == LibraryItemType::Song {
                    if let Some(p) = &item.path {
                        let artist = match &item.artist {
                            Some(a) => string_chars(a),
                            None => Vec::new(),
                        };
                        return Action::OpenTagEditor {
                            path: string_chars(p),
                            title: string_chars(&item.name),
                            artist,
                            read_album: !controller,
                        };
                    }
                }
            }
        },
        _ => {},
    }
    Action::Done
}

fn do_delete(app: &mut UiState, controller: bool) -> (r: Action)
    ensures
        (final(app)@, r@) == delete_step(old(app)@, controller),
{
    reveal(delete_step);
    let sel = app.library_selected;
    if controller {
        return Action::Done;
    }
    match app.library_mode {
        LibraryMode::Queue => Action::DeleteFromQueue(sel as u32),
        LibraryMode::Playlists => {
            if sel < app.playlists.len() {
                return Action::DeletePlaylist(clone_chars(&app.playlists[sel]));
            }
            if sel > 0 {
                app.library_selected = sel - 1;
            }
            Action::Done
        },
        _ => Action::Done,
    }
}

fn do_search_back(app: &mut UiState, controller: bool) -> (r: Action)
    ensures
        (final(app)@, r@) == search_back_step(old(app)@, controller),
{
    reveal(search_back_step);
    let target = match app.previous_library_mode {
        Some(p) => p,
        None => LibraryMode::Directory,
    };
    app.library_mode = target;
    app.previous_library_mode = None;
    app.search_query = Vec::new();
    app.library_selected = 0;
    if controller {
        return Action::Done;
    }
    match target {
        LibraryMode::Directory => {
            let slash = vec!['/'];
            assert(slash@ =~= seq!['/']);
            Action::FetchDirectory(join_with(&app.browse_path, &slash))
        },
        LibraryMode::Playlists => Action::FetchPlaylistItems,
        LibraryMode::Queue => {
            app.library_items = Vec::new();
            Action::Done
        },
        LibraryMode::Search => Action::Done,
    }
}

fn do_dir_back(app: &mut UiState, controller: bool) -> (r: Action)
    ensures
        (final(app)@, r@) == dir_back_step(old(app)@, controller),
{
    reveal(dir_back_step);
    let ghost old_path = views(app.browse_path@);
    if app.browse_path.len() > 0 {
        app.browse_path.pop();
        assert(views(app.browse_path@) =~= old_path.drop_last());
    }
    app.library_items = Vec::new();
    app.library_selected = 0;
    if controller {
        return Action::Done;
    }
    let slash = vec!['/'];
    assert(slash@ =~= seq!['/']);
    Action::FetchDirectory(join_with(&app.browse_path, &slash))
}

fn library_edit(key: KeyEvent, app: &mut UiState, keys: &KeyConfig, controller: bool) -> (r: Option<Action>)
    ensures
        r is Some == library_edit_step(old(app)@, *keys, key, controller) is Some,
        r matches Some(a) ==> (final(app)@, a@) == library_edit_step(old(app)@, *keys, key, controller)->0,
        r is None ==> final(app)@ == old(app)@,
{
    let sel = app.library_selected;
    if keys.matches(key, keys.move_down.as_str()) && app.library_mode == LibraryMode::Queue {
        if sel < app.queue.len() && sel + 1 < app.queue.len() && !controller {
            return Some(Action::ShiftQueue { from: sel as u32, to: (sel + 1) as u32 });
        }
        return Some(Action::Done);
    }
    if keys.matches(key, keys.move_up.as_str()) && app.library_mode == LibraryMode::Queue {
        if sel > 0 && !controller {
            return Some(Action::ShiftQueue { from: sel as u32, to: (sel - 1) as u32 });
        }
        return Some(Action::Done);
    }
    if keys.matches(key, keys.tab_next.as_str()) {
        return Some(do_tab_next(app, controller));
    }
    if keys.matches(key, keys.tab_prev.as_str()) {
        return Some(do_tab_prev(app, controller));
    }
    if keys.matches(key, keys.save_playlist.as_str()) {
        app.input_state = Some(InputState::new(InputMode::PlaylistSave, "Save Playlist As:", ""));
        return Some(Action::Done);
    }
    if keys.matches(key, keys.rename_playlist.as_str()) && app.library_mode == LibraryMode::Playlists {
        do_rename(app);
        return Some(Action::Done);
    }
    if keys.matches(key, keys.edit_tags.as_str()) {
        return Some(edit_tags_of(app, controller));
    }
    if keys.matches(key, keys.delete_item.as_str()) {
        return Some(do_delete(app, controller));
    }
    None
}

fn library_browse(key: KeyEvent, app: &mut UiState, keys: &KeyConfig, controller: bool) -> (r: Option<Action>)
    ensures
        r is Some == library_browse_step(old(app)@, *keys, key, controller) is Some,
        r matches Some(a) ==> (final(app)@, a@) == library_browse_step(old(app)@, *keys, key, controller)->0,
        r is None ==> final(app)@ == old(app)@,
{
    let sel = app.library_selected;
    if keys.matches(key, keys.add_to_queue.as_str()) && (app.library_mode == LibraryMode::Directory
        || app.library_mode == LibraryMode::Search) {
        if !controller && sel < app.library_items.len() {
            return Some(Action::AddToQueue(app.library_items[sel].duplicate()));
        }
        return Some(Action::Done);
    }
    if keys.matches(key, keys.enter_dir.as_str()) || keys.matches(key, keys.nav_right.as_str()) {
        if controller {
            return Some(Action::Done);
        }
        return Some(enter_selected(app));
    }
    if (keys.matches(key, keys.back_dir_alt.as_str()) || keys.matches(key, keys.back_dir.as_str())
        || keys.matches(key, keys.nav_left.as_str())) && app.library_mode == LibraryMode::Search {
        return Some(do_search_back(app, controller));
    }
    if (keys.matches(key, keys.back_dir.as_str()) || keys.matches(key, keys.back_dir_alt.as_str())
        || keys.matches(key, keys.nav_left.as_str())) && app.library_mode == LibraryMode::Directory {
        return Some(do_dir_back(app, controller));
    }
    if keys.matches(key, keys.nav_up.as_str()) || keys.matches(key, keys.nav_up_alt.as_str()) {
        if sel > 0 {
            app.library_selected = sel - 1;
        }
        return Some(Action::Done);
    }
    if keys.matches(key, keys.nav_down.as_str()) || keys.matches(key, keys.nav_down_alt.as_str()) {
        let n = match app.library_mode {
            LibraryMode::Queue => app.queue.len(),
            LibraryMode::Playlists => app.playlists.len(),
            _ => app.library_items.len(),
        };
        let rows = if n > 0 { n } else { 1 };
        if sel < rows - 1 {
            app.library_selected = sel + 1;
        }
        return Some(Action::Done);
    }
    None
}

/// Handles the keys of the library view; `None` when the key is not one of them.
pub fn handle_library_events(key: KeyEvent, app: &mut UiState, keys: &KeyConfig, controller: bool) -> (r: Option<Action>)
    ensures
        r is Some == library_step(old(app)@, *keys, key, controller) is Some,
        r matches Some(a) ==> (final(app)@, a@) == library_step(old(app)@, *keys, key, controller)->0,
        r is None ==> final(app)@ == old(app)@,
{
    if app.view_mode != ViewMode::Library {
        return None;
    }
    let r = library_edit(key, app, keys, controller);
    if r.is_some() {
        return r;
    }
    library_browse(key, app, keys, controller)
}

fn enter_selected(app: &UiState) -> (r: Action)
    ensures
        r@ == enter_action(app@),
{
    reveal(enter_action);
    let sel = app.library_selected;
    match app.library_mode {
        LibraryMode::Queue => Action::PlayQueuePosition(sel as u32),
        LibraryMode::Directory => {
            if sel < app.library_items.len() {
                let item = &app.library_items[sel];
                match &item.path {
                    Some(p) => {
                        if item.item_type == LibraryItemType::Folder {
                            Action::EnterFolder { path: string_chars(p), name: string_chars(&item.name) }
                        } else if item.item_type == LibraryItemType::Song {
                            Action::PlaySong(string_chars(p))
                        } else {
                            Action::Done
                        }
                    },
                    None => Action::Done,
                }
            } else {
                Action::Done
            }
        },
        LibraryMode::Search => {
            if sel < app.library_items.len() {
                match &app.library_items[sel].path {
                    Some(p) => Action::PlaySong(string_chars(p)),
                    None => Action::Done,
                }
            } else {
                Action::Done
            }
        },
        LibraryMode::Playlists => {
            if sel < app.playlists.len() {
                Action::LoadPlaylist(clone_chars(&app.playlists[sel]))
            } else {
                Action::Done
            }
        },
    }
}


// ───────────────────────── dispatch ─────────────────────────

/// The position that lyrics navigation measures from: the reported one.
pub open spec fn reported_position(track: Option<TrackStatus>) -> u64 {
    match track {
        Some(t) => t.position_ms,
        None => 0,
    }
}

/// A key press: global keys first, then the view switches, then the keys of
/// the current view, then the playback keys; `None` when no handler uses it.
pub open spec fn key_step(
    m: UiModel,
    keys: KeyConfig,
    ev: KeyEvent,
    controller: bool,
    lyrics: Option<Seq<LyricLine>>,
    track: Option<TrackStatus>,
    now_ms: u64,
) -> Option<(UiModel, ActionView)> {
    match common_step(m, keys, ev, controller) {
        Some(m2) => Some((m2, ActionView::Done)),
        None => match view_switch_step(m, keys, ev, controller) {
            Some(m2) => Some((m2, ActionView::Done)),
            None => {
                let in_view = match m.view_mode {
                    ViewMode::Library => library_step(m, keys, ev, controller),
                    ViewMode::Lyrics => lyrics_step(
                        m,
                        keys,
                        ev,
                        lyrics,
                        reported_position(track),
                        now_ms,
                    ),
                    ViewMode::Visualizer => None,
                    ViewMode::EQ => eq_step(m, keys, ev, controller),
                };
                if in_view is Some {
                    in_view
                } else {
                    player_step(m, keys, ev, controller, track, now_ms)
                }
            },
        },
    }
}

/// Handles a key press; `None` when no handler uses the key.
pub fn handle_event(
    key: KeyEvent,
    app: &mut UiState,
    keys: &KeyConfig,
    controller: bool,
    lyrics: &LyricsState,
    track: Option<TrackStatus>,
    now_ms: u64,
) -> (r: Option<Action>)
    ensures
        r is Some == key_step(old(app)@, *keys, key, controller, loaded_lines(*lyrics), track, now_ms) is Some,
        r matches Some(a) ==> (final(app)@, a@) == key_step(
            old(app)@,
            *keys,
            key,
            controller,
            loaded_lines(*lyrics),
            track,
            now_ms,
        )->0,
        r is None ==> final(app)@ == old(app)@,
{
    if handle_common_events(key, app, keys, controller) {
        return Some(Action::Done);
    }
    if handle_view_switch(key, app, keys, controller) {
        return Some(Action::Done);
    }
    let position = match track {
        Some(t) => t.position_ms,
        None => 0,
    };
    let in_view = match app.view_mode {
        ViewMode::Library => handle_library_events(key, app, keys, controller),
        ViewMode::Lyrics => handle_lyrics_events(key, app, keys, lyrics, position, now_ms),
        ViewMode::Visualizer => None,
        ViewMode::EQ => handle_eq_events(key, app, keys, controller),
    };
    if in_view.is_some() {
        return in_view;
    }
    handle_player_events(key, app, keys, controller, track, now_ms)
}

// ───────────────────────── results of outside work ─────────────────────────

/// The queue entry was moved: the selection follows it.
pub fn queue_moved(app: &mut UiState, new_pos: usize)
    ensures
        final(app)@ == (UiModel { library_selected: new_pos as nat, ..old(app)@ }),
{
    app.library_selected = new_pos;
}

/// The playlist names arrived.
pub fn playlists_loaded(app: &mut UiState, names: Vec<Vec<char>>)
    ensures
        final(app)@ == (UiModel { playlists: views(names@), ..old(app)@ }),
{
    app.playlists = names;
}

/// The entries of a directory arrived.
pub fn items_loaded(app: &mut UiState, items: Vec<LibraryItem>)
    ensures
        final(app)@ == (UiModel { library_items: items@, ..old(app)@ }),
{
    app.library_items = items;
}

/// A library entry for a playlist.
pub open spec fn playlist_entry(name: Seq<char>, item: LibraryItem) -> bool {
    &&& item.name@ == name
    &&& item.item_type == LibraryItemType::Playlist
    &&& item.artist is None
    &&& item.duration_ms is None
    &&& item.path is None
}

/// The playlist names arrived for the playlists tab: they become its entries too.
pub fn playlist_items_loaded(app: &mut UiState, names: Vec<Vec<char>>)
    ensures
        final(app)@.playlists == views(names@),
        final(app)@.library_items.len() == names.len(),
        forall|i: int|
            0 <= i < names.len() ==> playlist_entry(names@[i]@, #[trigger] final(app)@.library_items[i]),
        final(app)@ == (UiModel {
            playlists: final(app)@.playlists,
            library_items: final(app)@.library_items,
            ..old(app)@
        }),
{
    let mut items: Vec<LibraryItem> = Vec::new();
    let mut i: usize = 0;
    while i < names.len()
        invariant
            i <= names.len(),
            items.len() == i,
            forall|j: int| 0 <= j < i ==> playlist_entry(names@[j]@, #[trigger] items@[j]),
        decreases names.len() - i,
    {
        let name = crate::text::string_of(&names[i]);
        items.push(
            LibraryItem {
                name,
                item_type: LibraryItemType::Playlist,
                artist: None,
                duration_ms: None,
                path: None,
            },
        );
        i = i + 1;
    }
    app.library_items = items;
    app.playlists = names;
}

/// The folder was listed: it becomes the browsed directory.
pub fn folder_entered(app: &mut UiState, name: Vec<char>, items: Vec<LibraryItem>)
    ensures
        final(app)@ == (UiModel {
            browse_path: old(app)@.browse_path.push(name@),
            library_selected: 0,
            library_items: items@,
            ..old(app)@
        }),
{
    let ghost old_path = views(app.browse_path@);
    let ghost n = name@;
    app.browse_path.push(name);
    assert(views(app.browse_path@) =~= old_path.push(n));
    app.library_selected = 0;
    app.library_items = items;
}

/// A playlist was deleted: the fresh names (when they could be read) replace
/// the old ones, and the selection moves up when it fell off the end.
pub fn playlist_deleted(app: &mut UiState, names: Option<Vec<Vec<char>>>)
    ensures
        final(app)@.playlists == match names {
            Some(n) => views(n@),
            None => old(app)@.playlists,
        },
        final(app)@.library_selected == if old(app)@.library_selected > 0
            && old(app)@.library_selected >= final(app)@.playlists.len() {
            (old(app)@.library_selected - 1) as nat
        } else {
            old(app)@.library_selected
        },
        final(app)@ == (UiModel {
            playlists: final(app)@.playlists,
            library_selected: final(app)@.library_selected,
            ..old(app)@
        }),
{
    if let Some(n) = names {
        app.playlists = n;
    }
    if app.library_selected > 0 && app.library_selected >= app.playlists.len() {
        app.library_selected = app.library_selected - 1;
    }
}

/// The daemon's shuffle flag was set.
pub fn shuffle_set(app: &mut UiState, on: bool)
    ensures
        final(app)@ == (UiModel { shuffle: on, ..old(app)@ }),
{
    app.shuffle = on;
}

/// The daemon's repeat mode was set.
pub fn repeat_set(app: &mut UiState, mode: RepeatMode)
    ensures
        final(app)@ == (UiModel { repeat: mode, ..old(app)@ }),
{
    app.repeat = mode;
}

} // verus!
