//! The plain state of the user interface: views, library browsing, popups.

use vstd::prelude::*;
use crate::lyrics::LyricLine;

verus! {

/// View shown in the right panel.
#[derive(Debug, Clone, Copy, PartialEq, Eq, Structural)]
pub enum ViewMode {
    Lyrics,
    Visualizer,
    Library,
    EQ,
}

impl Default for ViewMode {
    fn default() -> (v: Self)
        ensures
            v == ViewMode::Lyrics,
    {
        ViewMode::Lyrics
    }
}

/// Sub-mode of the library panel.
#[derive(Debug, Clone, Copy, PartialEq, Eq, Structural)]
pub enum LibraryMode {
    Queue,
    Directory,
    Search,
    Playlists,
}

impl Default for LibraryMode {
    fn default() -> (m: Self)
        ensures
            m == LibraryMode::Queue,
    {
        LibraryMode::Queue
    }
}

/// How album art is drawn.
#[derive(Debug, Clone, Copy, PartialEq, Eq, Structural)]
pub enum ArtStyle {
    Block,
    Ascii,
    Braille,
    Image,
    Off,
}

impl Default for ArtStyle {
    fn default() -> (s: Self)
        ensures
            s == ArtStyle::Block,
    {
        ArtStyle::Block
    }
}

/// The art style after the art key: block, ASCII, braille, image, off, and
/// round again.
pub open spec fn next_art_style(a: ArtStyle) -> ArtStyle {
    match a {
        ArtStyle::Block => ArtStyle::Ascii,
        ArtStyle::Ascii => ArtStyle::Braille,
        ArtStyle::Braille => ArtStyle::Image,
        ArtStyle::Image => ArtStyle::Off,
        ArtStyle::Off => ArtStyle::Block,
    }
}

impl ArtStyle {
    /// The style after the art key (see `next_art_style`).
    pub fn cycled(self) -> (r: ArtStyle)
        ensures
            r == next_art_style(self),
    {
        match self {
            ArtStyle::Block => ArtStyle::Ascii,
            ArtStyle::Ascii => ArtStyle::Braille,
            ArtStyle::Braille => ArtStyle::Image,
            ArtStyle::Image => ArtStyle::Off,
            ArtStyle::Off => ArtStyle::Block,
        }
    }
}

/// State of the lyrics panel.
#[derive(Debug, Clone)]
pub enum LyricsState {
    Idle,
    Loading,
    /// The lines and the name of where they came from.
    Loaded(Vec<LyricLine>, String),
    Instrumental,
    Failed(String),
    NotFound,
}

/// Tag editing popup: three editable fields, one of them active.
#[derive(Debug, Clone)]
pub struct TagEditState {
    pub file_path: String,
    pub title: String,
    pub artist: String,
    pub album: String,
    /// 0 = title, 1 = artist, anything else = album.
    pub active_field: usize,
}

impl TagEditState {
    pub fn new(path: &str, title: &str, artist: &str, album: &str) -> (t: Self)
        ensures
            t.file_path@ == path@,
            t.title@ == title@,
            t.artist@ == artist@,
            t.album@ == album@,
            t.active_field == 0,
    {
        TagEditState {
            file_path: path.to_owned(),
            title: title.to_owned(),
            artist: artist.to_owned(),
            album: album.to_owned(),
            active_field: 0,
        }
    }

    /// The field that `active_field` designates, for editing in place.
    pub fn active_value(&mut self) -> (r: &mut String)
        ensures
            old(self).active_field == 0 ==> *r == old(self).title && *final(self) == (TagEditState {
                title: *final(r),
                ..*old(self)
            }),
            old(self).active_field == 1 ==> *r == old(self).artist && *final(self) == (
            TagEditState { artist: *final(r), ..*old(self) }),
            old(self).active_field >= 2 ==> *r == old(self).album && *final(self) == (TagEditState {
                album: *final(r),
                ..*old(self)
            }),
    {
        match self.active_field {
            0 => &mut self.title,
            1 => &mut self.artist,
            _ => &mut self.album,
        }
    }

    /// Moves to the next field, from the album back to the title.
    pub fn next_field(&mut self)
        requires
            old(self).active_field < usize::MAX,
        ensures
            final(self).active_field == (old(self).active_field + 1) % 3,
            final(self).file_path == old(self).file_path,
            final(self).title == old(self).title,
            final(self).artist == old(self).artist,
            final(self).album == old(self).album,
    {
        self.active_field = (self.active_field + 1) % 3;
    }

    /// Moves to the previous field, from the title to the album.
    pub fn prev_field(&mut self)
        ensures
            final(self).active_field == if old(self).active_field == 0 {
                2
            } else {
                old(self).active_field - 1
            },
            final(self).file_path == old(self).file_path,
            final(self).title == old(self).title,
            final(self).artist == old(self).artist,
            final(self).album == old(self).album,
    {
        self.active_field = if self.active_field == 0 {
            2
        } else {
            self.active_field - 1
        };
    }
}

/// What the generic text input popup is for.
#[derive(Debug, Clone)]
pub enum InputMode {
    PlaylistSave,
    EqSave,
    /// Renaming the playlist with this name.
    PlaylistRename(String),
}

/// Generic text input popup.
#[derive(Debug, Clone)]
pub struct InputState {
    pub mode: InputMode,
    pub title: String,
    pub value: String,
}

impl InputState {
    pub fn new(mode: InputMode, title: &str, initial_value: &str) -> (s: Self)
        ensures
            s.mode == mode,
            s.title@ == title@,
            s.value@ == initial_value@,
    {
        InputState { mode, title: title.to_owned(), value: initial_value.to_owned() }
    }
}

/// Type of a library browser entry.
#[derive(Debug, Clone, Copy, PartialEq, Eq, Structural)]
pub enum LibraryItemType {
    Artist,
    Album,
    Song,
    Folder,
    Playlist,
}

/// A library browser entry.
#[derive(Debug, Clone)]
pub struct LibraryItem {
    pub name: String,
    pub item_type: LibraryItemType,
    pub artist: Option<String>,
    pub duration_ms: Option<u64>,
    /// Path in the music database.
    pub path: Option<String>,
}

impl LibraryItem {
    /// A copy of the entry.
    pub fn duplicate(&self) -> (r: Self)
        ensures
            r == *self,
    {
        LibraryItem {
            name: self.name.clone(),
            item_type: self.item_type,
            artist: clone_opt(&self.artist),
            duration_ms: self.duration_ms,
            path: clone_opt(&self.path),
        }
    }
}

/// A copy of an optional string.
pub fn clone_opt(s: &Option<String>) -> (r: Option<String>)
    ensures
        r == *s,
{
    match s {
        Some(x) => Some(x.clone()),
        None => None,
    }
}

/// A song of the play queue.
#[derive(Debug, Clone)]
pub struct QueueItem {
    pub title: String,
    pub artist: String,
    pub duration_ms: u64,
    pub is_current: bool,
    pub file_path: String,
}

} // verus!

verus! {

/// The content of an input popup's mode.
pub enum InputModeView {
    PlaylistSave,
    EqSave,
    PlaylistRename(Seq<char>),
}

/// The content of an input popup.
pub struct InputView {
    pub mode: InputModeView,
    pub title: Seq<char>,
    pub value: Seq<char>,
}

impl View for InputMode {
    type V = InputModeView;

    open spec fn view(&self) -> InputModeView {
        match self {
            InputMode::PlaylistSave => InputModeView::PlaylistSave,
            InputMode::EqSave => InputModeView::EqSave,
            InputMode::PlaylistRename(s) => InputModeView::PlaylistRename(s@),
        }
    }
}

impl View for InputState {
    type V = InputView;

    open spec fn view(&self) -> InputView {
        InputView { mode: self.mode@, title: self.title@, value: self.value@ }
    }
}

} // verus!
