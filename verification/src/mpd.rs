//! The music daemon back end: what is read from the daemon's replies and what
//! is sent to it. The connection itself belongs to the caller, which hands
//! over the songs and status it read and performs the commands returned here.

use vstd::prelude::*;
use crate::text::{
    chars_of, str_eq, seq_eq, string_of, views, lowercase, to_lowercase, contains, has_sub,
    starts_with, has_prefix, ends_with, has_suffix,
};
use crate::order::{seq_lt, strictly_sorted, insert_unique};
use crate::player::{PlayerState, RepeatMode, TrackInfo, repeat_flags};
use crate::state::QueueItem;

verus! {

/// A song as the daemon lists it.
#[derive(Debug, Clone)]
pub struct Song {
    /// Path of the file, relative to the music folder.
    pub file: String,
    pub title: Option<String>,
    pub artist: Option<String>,
    /// Length in milliseconds.
    pub duration_ms: Option<u64>,
    /// Identifier of the song in the play queue.
    pub id: Option<u32>,
    /// Every tag, as (key, value), in the daemon's order.
    pub tags: Vec<(String, String)>,
}

/// Playback state that the daemon reports.
#[derive(Debug, Clone, Copy, PartialEq, Eq, Structural)]
pub enum DaemonState {
    Play,
    Pause,
    Stop,
}

/// Format of the audio that the daemon plays.
#[derive(Debug, Clone, Copy, PartialEq, Eq, Structural)]
pub struct AudioFormat {
    pub rate: u32,
    pub bits: u8,
    pub chans: u8,
}

/// The daemon's status reply.
#[derive(Debug, Clone, Copy, PartialEq, Eq, Structural)]
pub struct Status {
    /// -1 where the daemon has no mixer, else 0 to 100.
    pub volume: i8,
    pub repeat: bool,
    pub random: bool,
    pub single: bool,
    pub state: DaemonState,
    pub elapsed_ms: Option<u64>,
    pub duration_ms: Option<u64>,
    /// In kbps.
    pub bitrate: Option<u32>,
    pub crossfade_secs: Option<u64>,
    pub audio: Option<AudioFormat>,
}

/// A command for the daemon.
#[derive(Debug, Clone, PartialEq, Eq)]
pub enum MpdCommand {
    Play,
    /// Pause (`true`) or resume (`false`).
    Pause(bool),
    Next,
    Prev,
    Volume(i8),
    Random(bool),
    Repeat(bool),
    Single(bool),
    Crossfade(i64),
    /// Remove the song at this queue position.
    Delete(u32),
    /// Play the song at this queue position.
    Switch(u32),
    /// Append a saved playlist to the queue.
    Load(String),
    /// Save the queue as a playlist.
    Save(String),
    /// Rename a playlist: old name, new name.
    Rename(String, String),
    /// Append a file to the queue.
    Push(String),
    /// Ask for the names of the saved playlists.
    ListPlaylists,
}

/// Connection settings of the daemon back end.
pub struct MpdPlayer {
    pub host: String,
    pub port: u16,
    /// Folder that the daemon's file paths are relative to.
    pub music_directory: String,
}

pub open spec fn opt_view(o: Option<String>) -> Option<Seq<char>> {
    match o {
        Some(s) => Some(s@),
        None => None,
    }
}

/// The value of the first tag whose key is `key` exactly, from index `i` on.
pub open spec fn tag_exact(tags: Seq<(String, String)>, key: Seq<char>, i: nat) -> Option<Seq<char>>
    decreases tags.len() - i,
{
    if i >= tags.len() {
        None
    } else if tags[i as int].0@ == key {
        Some(tags[i as int].1@)
    } else {
        tag_exact(tags, key, i + 1)
    }
}

/// The value of the first tag whose key is `key` when both are lower-cased,
/// from index `i` on.
pub open spec fn tag_ci(tags: Seq<(String, String)>, key: Seq<char>, i: nat) -> Option<Seq<char>>
    decreases tags.len() - i,
{
    if i >= tags.len() {
        None
    } else if lowercase(tags[i as int].0@) == lowercase(key) {
        Some(tags[i as int].1@)
    } else {
        tag_ci(tags, key, i + 1)
    }
}

/// The value of the first tag with exactly this key.
pub fn find_tag_exact(tags: &Vec<(String, String)>, key: &str) -> (r: Option<String>)
    ensures
        opt_view(r) == tag_exact(tags@, key@, 0),
{
    let mut i: usize = tags.len();
    let mut found: Option<String> = None;
    while i > 0
        invariant
            i <= tags.len(),
            opt_view(found) == tag_exact(tags@, key@, i as nat),
        decreases i,
    {
        i = i - 1;
        if str_eq(tags[i].0.as_str(), key) {
            found = Some(tags[i].1.clone());
        }
    }
    found
}

/// The value of the first tag whose key equals `key` ignoring case.
pub fn find_tag(tags: &Vec<(String, String)>, key: &str) -> (r: Option<String>)
    ensures
        opt_view(r) == tag_ci(tags@, key@, 0),
{
    let key_lower = chars_of(to_lowercase(key).as_str());
    let mut i: usize = tags.len();
    let mut found: Option<String> = None;
    while i > 0
        invariant
            i <= tags.len(),
            key_lower@ == lowercase(key@),
            opt_view(found) == tag_ci(tags@, key@, i as nat),
        decreases i,
    {
        i = i - 1;
        let k = chars_of(to_lowercase(tags[i].0.as_str()).as_str());
        if seq_eq(&k, &key_lower) {
            found = Some(tags[i].1.clone());
        }
    }
    found
}

/// The views of a sequence of strings.
pub open spec fn string_views(v: Seq<String>) -> Seq<Seq<char>> {
    Seq::new(v.len(), |i: int| v[i]@)
}

/// The song's first `Artist` tag is `artist`, where one is given.
pub open spec fn by_artist(s: Song, artist: Option<Seq<char>>) -> bool {
    match artist {
        Some(a) => tag_exact(s.tags@, "Artist"@, 0) == Some(a),
        None => true,
    }
}

/// The values of the first tag with key `key` of each song that has one,
/// among the songs of the given artist (of all songs without one).
pub open spec fn tag_values_by(songs: Seq<Song>, key: Seq<char>, artist: Option<Seq<char>>) -> Set<Seq<char>>
    decreases songs.len(),
{
    if songs.len() == 0 {
        Set::empty()
    } else {
        let rest = tag_values_by(songs.drop_last(), key, artist);
        match tag_exact(songs.last().tags@, key, 0) {
            Some(v) => if by_artist(songs.last(), artist) {
                rest.insert(v)
            } else {
                rest
            },
            None => rest,
        }
    }
}

/// The values of the first tag with key `key` of each song that has one.
pub open spec fn tag_values(songs: Seq<Song>, key: Seq<char>) -> Set<Seq<char>> {
    tag_values_by(songs, key, None)
}

pub open spec fn str_opt_view(o: Option<&str>) -> Option<Seq<char>> {
    match o {
        Some(s) => Some(s@),
        None => None,
    }
}

/// Strings with the given characters, in the same order.
fn strings_of(v: &Vec<Vec<char>>) -> (r: Vec<String>)
    ensures
        string_views(r@) == views(v@),
{
    let mut r: Vec<String> = Vec::new();
    let mut i: usize = 0;
    while i < v.len()
        invariant
            i <= v.len(),
            string_views(r@) == views(v@).take(i as int),
        decreases v.len() - i,
    {
        let s = string_of(&v[i]);
        let ghost old_r = r@;
        r.push(s);
        assert(string_views(r@) =~= string_views(old_r).push(v@[i as int]@));
        assert(views(v@).take(i + 1) =~= views(v@).take(i as int).push(v@[i as int]@));
        i = i + 1;
    }
    assert(views(v@).take(v.len() as int) =~= views(v@));
    r
}

/// The distinct values of the first tag with key `key` over the songs of
/// the given artist (over all songs without one), in ascending order.
pub fn sorted_tag_values(songs: &Vec<Song>, key: &str, artist: Option<&str>) -> (r: Vec<String>)
    ensures
        strictly_sorted(string_views(r@)),
        string_views(r@).to_set() == tag_values_by(songs@, key@, str_opt_view(artist)),
{
    let mut acc: Vec<Vec<char>> = Vec::new();
    let mut i: usize = 0;
    assert(views(acc@).to_set() =~= Set::<Seq<char>>::empty());
    while i < songs.len()
        invariant
            i <= songs.len(),
            strictly_sorted(views(acc@)),
            views(acc@).to_set() == tag_values_by(songs@.take(i as int), key@, str_opt_view(artist)),
        decreases songs.len() - i,
    {
        assert(songs@.take(i + 1).drop_last() =~= songs@.take(i as int));
        assert(songs@.take(i + 1).last() == songs@[i as int]);
        match find_tag_exact(&songs[i].tags, key) {
            Some(v) => {
                let wanted = match artist {
                    Some(a) => match find_tag_exact(&songs[i].tags, "Artist") {
                        Some(sa) => str_eq(sa.as_str(), a),
                        None => false,
                    },
                    None => true,
                };
                if wanted {
                    insert_unique(&mut acc, chars_of(v.as_str()));
                }
            },
            None => {},
        }
        i = i + 1;
    }
    assert(songs@.take(songs.len() as int) =~= songs@);
    strings_of(&acc)
}

/// The command that sets the crossfade to `seconds`.
pub open spec fn crossfade_command(seconds: u32) -> MpdCommand {
    MpdCommand::Crossfade(seconds as i64)
}

/// The crossfade that a status reports, in seconds; 0 where it is off.
pub open spec fn reported_crossfade(status: Status) -> u32 {
    match status.crossfade_secs {
        Some(d) => d as u32,
        None => 0u32,
    }
}

impl MpdPlayer {
    pub fn new(host: String, port: u16, music_directory: String) -> (p: Self)
        ensures
            p.host == host,
            p.port == port,
            p.music_directory == music_directory,
    {
        MpdPlayer { host, port, music_directory }
    }

    /// All artists of the database: the distinct values of each song's first
    /// `Artist` tag, sorted.
    pub fn list_artists(&self, songs: &Vec<Song>) -> (r: Vec<String>)
        ensures
            strictly_sorted(string_views(r@)),
            string_views(r@).to_set() == tag_values(songs@, "Artist"@),
    {
        sorted_tag_values(songs, "Artist", None)
    }

    /// All albums (or the albums of an artist): the distinct values of the
    /// first `Album` tag of each song (whose first `Artist` tag is the artist,
    /// where one is given), sorted.
    pub fn list_albums(&self, songs: &Vec<Song>, artist: Option<&str>) -> (r: Vec<String>)
        ensures
            strictly_sorted(string_views(r@)),
            string_views(r@).to_set() == tag_values_by(songs@, "Album"@, str_opt_view(artist)),
    {
        sorted_tag_values(songs, "Album", artist)
    }

    /// All genres of the database, sorted and without repeats.
    pub fn list_genres(&self, songs: &Vec<Song>) -> (r: Vec<String>)
        ensures
            strictly_sorted(string_views(r@)),
            string_views(r@).to_set() == tag_values(songs@, "Genre"@),
    {
        sorted_tag_values(songs, "Genre", None)
    }
}

/// What a search looks at in a song, lower-cased: the file path, the title
/// and every tag value.
pub open spec fn song_matches(s: Song, q: Seq<char>) -> bool {
    ||| contains(lowercase(s.file@), q)
    ||| (match s.title {
        Some(t) => contains(lowercase(t@), q),
        None => false,
    })
    ||| exists|j: int| 0 <= j < s.tags@.len() && contains(lowercase(#[trigger] s.tags@[j].1@), q)
}

/// The songs that match `q`, in their order.
pub open spec fn matching(songs: Seq<Song>, q: Seq<char>) -> Seq<Song>
    decreases songs.len(),
{
    if songs.len() == 0 {
        seq![]
    } else {
        let rest = matching(songs.drop_last(), q);
        if song_matches(songs.last(), q) {
            rest.push(songs.last())
        } else {
            rest
        }
    }
}

/// The first `n` entries of `s`, or all of them where there are fewer.
pub open spec fn at_most<T>(s: Seq<T>, n: nat) -> Seq<T> {
    if s.len() <= n {
        s
    } else {
        s.take(n as int)
    }
}

/// Whether a query occurs in any of the (already lower-cased) texts of a
/// song: its path, its title, its tag values.
pub fn texts_contain(
    file: &Vec<char>,
    title: &Option<Vec<char>>,
    tag_values: &Vec<Vec<char>>,
    query: &Vec<char>,
) -> (r: bool)
    ensures
        r == (contains(file@, query@) || (match title {
            Some(t) => contains(t@, query@),
            None => false,
        }) || exists|j: int| 0 <= j < tag_values@.len() && contains(#[trigger] tag_values@[j]@, query@)),
{
    if has_sub(file, query) {
        return true;
    }
    match title {
        Some(t) => {
            if has_sub(t, query) {
                return true;
            }
        },
        None => {},
    }
    let mut j: usize = 0;
    while j < tag_values.len()
        invariant
            j <= tag_values.len(),
            forall|k: int| 0 <= k < j ==> !contains(#[trigger] tag_values@[k]@, query@),
        decreases tag_values.len() - j,
    {
        if has_sub(&tag_values[j], query) {
            return true;
        }
        j = j + 1;
    }
    false
}

/// Whether a song matches a lower-cased query.
fn song_matches_query(s: &Song, query_lower: &Vec<char>) -> (r: bool)
    ensures
        r == song_matches(*s, query_lower@),
{
    let file = chars_of(to_lowercase(s.file.as_str()).as_str());
    let title = match &s.title {
        Some(t) => Some(chars_of(to_lowercase(t.as_str()).as_str())),
        None => None,
    };
    let mut values: Vec<Vec<char>> = Vec::new();
    let mut j: usize = 0;
    while j < s.tags.len()
        invariant
            j <= s.tags.len(),
            values.len() == j,
            forall|k: int| 0 <= k < j ==> (#[trigger] values@[k])@ == lowercase(s.tags@[k].1@),
        decreases s.tags.len() - j,
    {
        values.push(chars_of(to_lowercase(s.tags[j].1.as_str()).as_str()));
        j = j + 1;
    }
    let r = texts_contain(&file, &title, &values, query_lower);
    proof {
        if r {
            if !contains(file@, query_lower@) && !(match title {
                Some(t) => contains(t@, query_lower@),
                None => false,
            }) {
                let k = choose|k: int| 0 <= k < values@.len() && contains(#[trigger] values@[k]@, query_lower@);
                assert(contains(lowercase(s.tags@[k].1@), query_lower@));
            }
        } else {
            assert forall|k: int| 0 <= k < s.tags@.len() implies !contains(lowercase(#[trigger] s.tags@[k].1@), query_lower@) by {
                assert(values@[k]@ == lowercase(s.tags@[k].1@));
            }
        }
    }
    r
}

/// How far a search result list goes.
pub const SEARCH_LIMIT: usize = 50;

/// The view of a queue entry: title, artist, length, whether it is the song
/// playing, file.
pub open spec fn queue_view(q: QueueItem) -> (Seq<char>, Seq<char>, u64, bool, Seq<char>) {
    (q.title@, q.artist@, q.duration_ms, q.is_current, q.file_path@)
}

/// The artist shown for a queue entry: the artist field, else the first
/// `Artist`, `AlbumArtist` or `Composer` tag, else "Unknown Artist".
pub open spec fn queue_artist(s: Song) -> Seq<char> {
    match s.artist {
        Some(a) => a@,
        None => match tag_ci(s.tags@, "Artist"@, 0) {
            Some(a) => a,
            None => match tag_ci(s.tags@, "AlbumArtist"@, 0) {
                Some(a) => a,
                None => match tag_ci(s.tags@, "Composer"@, 0) {
                    Some(a) => a,
                    None => "Unknown Artist"@,
                },
            },
        },
    }
}

/// The queue entry for a song, given the identifier of the song playing.
pub open spec fn queue_entry(s: Song, current: Option<u32>) -> (Seq<char>, Seq<char>, u64, bool, Seq<char>) {
    (
        match s.title {
            Some(t) => t@,
            None => s.file@,
        },
        queue_artist(s),
        match s.duration_ms {
            Some(d) => d,
            None => 0,
        },
        current == Some(match s.id {
            Some(i) => i,
            None => 0u32,
        }),
        s.file@,
    )
}

/// The folder that a relative path component goes into (`Path::join` with a
/// relative component): no separator is added to an empty base or one that
/// ends in `/`.
pub open spec fn join_music(base: Seq<char>) -> Seq<char> {
    if base.len() == 0 {
        "Music"@
    } else if base.last() == '/' {
        base + "Music"@
    } else {
        base + "/Music"@
    }
}

/// The default music folder: the platform's audio folder, else `Music` in
/// the home folder, else the working folder.
pub open spec fn default_music_dir(audio: Option<Seq<char>>, home: Option<Seq<char>>) -> Seq<char> {
    match audio {
        Some(a) => a,
        None => match home {
            Some(h) => join_music(h),
            None => "."@,
        },
    }
}

/// `dirs::audio_dir`: the user's music folder as the platform's settings
/// give it. It depends on the environment, so nothing is stated of it.
#[verifier::external_body]
pub(crate) fn audio_dir() -> (r: Option<String>) {
    dirs::audio_dir().map(|p| p.to_string_lossy().to_string())
}

/// `dirs::home_dir`: the user's home folder as the environment gives it;
/// nothing is stated of it.
#[verifier::external_body]
pub(crate) fn home_dir() -> (r: Option<String>) {
    dirs::home_dir().map(|p| p.to_string_lossy().to_string())
}

/// The default music folder, from the platform's audio folder and the home
/// folder as found.
pub fn music_dir_from(audio: Option<String>, home: Option<String>) -> (r: String)
    ensures
        r@ == default_music_dir(opt_view(audio), opt_view(home)),
{
    match audio {
        Some(a) => a,
        None => match home {
            Some(h) => {
                let c = chars_of(h.as_str());
                if c.len() == 0 {
                    "Music".to_owned()
                } else if c[c.len() - 1] == '/' {
                    crate::text::str_concat(h.as_str(), "Music")
                } else {
                    crate::text::str_concat(h.as_str(), "/Music")
                }
            },
            None => ".".to_owned(),
        },
    }
}

/// The extension of the file name of a path (`Path::extension`): the part
/// after the last `.` of the last component, where that component has a `.`
/// that is not its first character.
pub uninterp spec fn path_extension(path: Seq<char>) -> Option<Seq<char>>;

/// Calls `Path::extension` on a path given as text; the result is named
/// `path_extension` of the path.
#[verifier::external_body]
fn extension_of(path: &str) -> (r: Option<String>)
    ensures
        opt_view(r) == path_extension(path@),
{
    std::path::Path::new(path).extension().map(|e| e.to_string_lossy().to_string())
}

/// The player state for a daemon state.
pub open spec fn player_state(s: DaemonState) -> PlayerState {
    match s {
        DaemonState::Play => PlayerState::Playing,
        DaemonState::Pause => PlayerState::Paused,
        DaemonState::Stop => PlayerState::Stopped,
    }
}

/// The absolute value of a volume.
pub open spec fn volume_abs(v: i8) -> u32 {
    (if v < 0 { -v } else { v as int }) as u32
}

/// The codec shown for a song: the file's extension, else its `Format` tag,
/// else its `Codec` tag.
pub open spec fn song_codec(s: Song) -> Option<Seq<char>> {
    match path_extension(s.file@) {
        Some(e) => Some(e),
        None => match tag_ci(s.tags@, "Format"@, 0) {
            Some(f) => Some(f),
            None => tag_ci(s.tags@, "Codec"@, 0),
        },
    }
}

/// The track that a song and a status describe.
pub open spec fn track_of(t: TrackInfo, music_dir: Seq<char>, s: Song, st: Status) -> bool {
    &&& t.name@ == (match s.title {
        Some(x) => x@,
        None => "Unknown"@,
    })
    &&& t.artist@ == (match s.artist {
        Some(x) => x@,
        None => "Unknown"@,
    })
    &&& t.album@ == (match tag_ci(s.tags@, "Album"@, 0) {
        Some(x) => x,
        None => "Unknown"@,
    })
    &&& t.duration_ms == (match st.duration_ms {
        Some(d) => d,
        None => 0,
    })
    &&& t.position_ms == (match st.elapsed_ms {
        Some(d) => d,
        None => 0,
    })
    &&& t.state == player_state(st.state)
    &&& t.artwork_url is None
    &&& t.source@ == "MPD"@
    &&& opt_view(t.codec) == song_codec(s)
    &&& t.bitrate == st.bitrate
    &&& t.sample_rate == (match st.audio {
        Some(a) => Some(a.rate),
        None => None,
    })
    &&& t.bit_depth == (match st.audio {
        Some(a) => Some(a.bits),
        None => None,
    })
    &&& opt_view(t.file_path) == Some(
        if starts_with(s.file@, "/"@) {
            s.file@
        } else {
            music_dir + "/"@ + s.file@
        },
    )
    &&& t.volume == Some(volume_abs(st.volume))
}

/// The text, or "Unknown" where there is none.
fn or_unknown(o: Option<String>) -> (r: String)
    ensures
        r@ == (match o {
            Some(x) => x@,
            None => "Unknown"@,
        }),
{
    match o {
        Some(x) => x,
        None => "Unknown".to_owned(),
    }
}

impl Default for MpdPlayer {
    /// A daemon on this machine at its usual port, with the platform's music
    /// folder.
    fn default() -> (p: Self)
        ensures
            p.host@ == "localhost"@,
            p.port == 6600,
            exists|audio: Option<Seq<char>>, home: Option<Seq<char>>|
                p.music_directory@ == #[trigger] default_music_dir(audio, home),
    {
        let audio = audio_dir();
        let home = home_dir();
        let dir = music_dir_from(audio, home);
        proof {
            let a = opt_view(audio);
            let h = opt_view(home);
            assert(dir@ == default_music_dir(a, h));
        }
        MpdPlayer::new("localhost".to_owned(), 6600, dir)
    }
}

impl MpdPlayer {
    /// The songs of the database that match a query, ignoring case, at most
    /// fifty, in the database's order.
    pub fn search_library(&self, query: &str, songs: Vec<Song>) -> (r: Vec<Song>)
        ensures
            r@ == at_most(matching(songs@, lowercase(query@)), SEARCH_LIMIT as nat),
    {
        let ql = chars_of(to_lowercase(query).as_str());
        let ghost orig = songs@;
        let n = songs.len();
        let mut rest = songs;
        let mut out: Vec<Song> = Vec::new();
        let mut i: usize = 0;
        assert(orig.skip(0) =~= orig);
        while i < n
            invariant
                n == orig.len(),
                i <= n,
                ql@ == lowercase(query@),
                rest@ == orig.skip(i as int),
                out@ == at_most(matching(orig.take(i as int), ql@), SEARCH_LIMIT as nat),
            decreases n - i,
        {
            let ghost m = matching(orig.take(i as int), ql@);
            assert(orig.take(i + 1).drop_last() =~= orig.take(i as int));
            assert(rest@[0] == orig[i as int]);
            let s = rest.remove(0);
            assert(rest@ =~= orig.skip(i + 1));
            if out.len() < SEARCH_LIMIT && song_matches_query(&s, &ql) {
                out.push(s);
            } else if out.len() >= SEARCH_LIMIT {
                assert(m.push(orig[i as int]).take(SEARCH_LIMIT as int) =~= m.take(SEARCH_LIMIT as int));
            }
            i = i + 1;
        }
        assert(orig.take(n as int) =~= orig);
        out
    }

    /// The track playing, where there is one: `song` is the current song and
    /// `status` the daemon's status.
    pub fn get_current_track(&self, song: Option<Song>, status: &Status) -> (r: Option<TrackInfo>)
        ensures
            song is None ==> r is None,
            song matches Some(s) ==> (r matches Some(t) && track_of(t, self.music_directory@, s, *status)),
    {
        let song = match song {
            Some(s) => s,
            None => return None,
        };
        let position_ms = match status.elapsed_ms {
            Some(t) => t,
            None => 0,
        };
        let duration_ms = match status.duration_ms {
            Some(t) => t,
            None => 0,
        };
        let file_chars = chars_of(song.file.as_str());
        let slash = chars_of("/");
        let file_path = if !has_prefix(&file_chars, &slash) {
            crate::text::str_concat(crate::text::str_concat(self.music_directory.as_str(), "/").as_str(), song.file.as_str())
        } else {
            song.file.clone()
        };
        let album = or_unknown(find_tag(&song.tags, "Album"));
        let codec = match extension_of(song.file.as_str()) {
            Some(e) => Some(e),
            None => match find_tag(&song.tags, "Format") {
                Some(f) => Some(f),
                None => find_tag(&song.tags, "Codec"),
            },
        };
        let state = match status.state {
            DaemonState::Play => PlayerState::Playing,
            DaemonState::Pause => PlayerState::Paused,
            DaemonState::Stop => PlayerState::Stopped,
        };
        let v: i16 = status.volume as i16;
        let volume: u32 = if v < 0 { (-v) as u32 } else { v as u32 };
        let t = TrackInfo {
            name: or_unknown(song.title),
            artist: or_unknown(song.artist),
            album,
            artwork_url: None,
            duration_ms,
            position_ms,
            state,
            source: "MPD".to_owned(),
            codec,
            bitrate: status.bitrate,
            sample_rate: match status.audio {
                Some(a) => Some(a.rate),
                None => None,
            },
            bit_depth: match status.audio {
                Some(a) => Some(a.bits),
                None => None,
            },
            file_path: Some(file_path),
            volume: Some(volume),
        };
        Some(t)
    }

    /// The play queue as shown: `current` is the song playing, if any.
    pub fn get_queue(&self, queue: &Vec<Song>, current: Option<Song>) -> (r: Vec<QueueItem>)
        ensures
            r.len() == queue.len(),
            forall|i: int| 0 <= i < queue.len() ==> queue_view(#[trigger] r@[i]) == queue_entry(queue@[i], match current {
                Some(c) => c.id,
                None => None,
            }),
    {
        let current_id: Option<u32> = match &current {
            Some(c) => c.id,
            None => None,
        };
        let mut out: Vec<QueueItem> = Vec::new();
        let mut i: usize = 0;
        while i < queue.len()
            invariant
                i <= queue.len(),
                out.len() == i,
                current_id == (match current {
                    Some(c) => c.id,
                    None => None,
                }),
                forall|k: int| 0 <= k < i ==> queue_view(#[trigger] out@[k]) == queue_entry(queue@[k], current_id),
            decreases queue.len() - i,
        {
            let song = &queue[i];
            let id: u32 = match song.id {
                Some(x) => x,
                None => 0,
            };
            let title = match &song.title {
                Some(t) => t.clone(),
                None => song.file.clone(),
            };
            let artist = match &song.artist {
                Some(a) => a.clone(),
                None => match find_tag(&song.tags, "Artist") {
                    Some(a) => a,
                    None => match find_tag(&song.tags, "AlbumArtist") {
                        Some(a) => a,
                        None => match find_tag(&song.tags, "Composer") {
                            Some(a) => a,
                            None => "Unknown Artist".to_owned(),
                        },
                    },
                },
            };
            let duration_ms: u64 = match song.duration_ms {
                Some(d) => d,
                None => 0,
            };
            let is_current = match current_id {
                Some(c) => c == id,
                None => false,
            };
            out.push(QueueItem { title, artist, duration_ms, is_current, file_path: song.file.clone() });
            i = i + 1;
        }
        out
    }

    /// Play or pause: pauses what plays, else starts playing. The flag says
    /// whether playback starts.
    pub fn play_pause(&self, status: &Status) -> (r: (MpdCommand, bool))
        ensures
            r.0 == (if status.state == DaemonState::Play {
                MpdCommand::Pause(true)
            } else {
                MpdCommand::Play
            }),
            r.1 == (status.state != DaemonState::Play),
    {
        match status.state {
            DaemonState::Play => (MpdCommand::Pause(true), false),
            _ => (MpdCommand::Play, true),
        }
    }

    /// Five steps louder, at most 100; nothing where the daemon has no mixer.
    pub fn volume_up(&self, status: &Status) -> (r: Option<MpdCommand>)
        requires
            status.volume + 5 <= i8::MAX,
        ensures
            r == (if status.volume >= 0 {
                Some(MpdCommand::Volume(if status.volume + 5 < 100 { (status.volume + 5) as i8 } else { 100i8 }))
            } else {
                None
            }),
    {
        let vol = status.volume;
        if vol >= 0 {
            let up = vol + 5;
            let new_vol = if up < 100 { up } else { 100 };
            Some(MpdCommand::Volume(new_vol))
        } else {
            None
        }
    }

    /// Five steps quieter, at least 0; nothing where the daemon has no mixer.
    pub fn volume_down(&self, status: &Status) -> (r: Option<MpdCommand>)
        ensures
            r == (if status.volume >= 0 {
                Some(MpdCommand::Volume(if status.volume - 5 > 0 { (status.volume - 5) as i8 } else { 0i8 }))
            } else {
                None
            }),
    {
        let vol = status.volume;
        if vol >= 0 {
            let down = vol - 5;
            let new_vol = if down > 0 { down } else { 0 };
            Some(MpdCommand::Volume(new_vol))
        } else {
            None
        }
    }

    /// Sets the volume, at most 100.
    pub fn set_volume(&self, volume: u8) -> (r: MpdCommand)
        ensures
            r == MpdCommand::Volume((if volume < 100 { volume } else { 100u8 }) as i8),
    {
        let v: u8 = if volume < 100 { volume } else { 100 };
        MpdCommand::Volume(v as i8)
    }

    /// The repeat and single switches that give a repeat mode, in that order.
    pub fn repeat(&self, mode: RepeatMode) -> (r: Vec<MpdCommand>)
        ensures
            r@ == seq![MpdCommand::Repeat(repeat_flags(mode).0), MpdCommand::Single(repeat_flags(mode).1)],
    {
        let (rep, single) = mode.flags();
        let mut v: Vec<MpdCommand> = Vec::new();
        v.push(MpdCommand::Repeat(rep));
        v.push(MpdCommand::Single(single));
        v
    }

    /// The repeat mode that the daemon's switches stand for.
    pub fn get_repeat(&self, status: &Status) -> (r: RepeatMode)
        ensures
            r == (if status.single && status.repeat {
                RepeatMode::Single
            } else if status.repeat {
                RepeatMode::Playlist
            } else {
                RepeatMode::Off
            }),
    {
        RepeatMode::from_flags(status.repeat, status.single)
    }

    /// The audio format that the status reports: sample rate, bits per
    /// sample, channels. Nothing where the status could not be read.
    pub fn get_audio_format(&self, status: Option<&Status>) -> (r: Option<(u32, u16, u16)>)
        ensures
            r == (match status {
                Some(s) => match s.audio {
                    Some(a) => Some((a.rate, a.bits as u16, a.chans as u16)),
                    None => None,
                },
                None => None,
            }),
    {
        match status {
            Some(s) => match s.audio {
                Some(a) => Some((a.rate, a.bits as u16, a.chans as u16)),
                None => None,
            },
            None => None,
        }
    }

    /// Sets the crossfade in seconds; 0 turns it off.
    pub fn set_crossfade(&self, seconds: u32) -> (r: MpdCommand)
        ensures
            r == crossfade_command(seconds),
    {
        MpdCommand::Crossfade(seconds as i64)
    }

    /// The crossfade in seconds, 0 where it is off.
    pub fn get_crossfade(&self, status: &Status) -> (r: u32)
        ensures
            r == reported_crossfade(*status),
    {
        match status.crossfade_secs {
            Some(d) => d as u32,
            None => 0,
        }
    }

    /// Asks for the names of the saved playlists.
    pub fn list_playlists(&self) -> (r: MpdCommand)
        ensures
            r == MpdCommand::ListPlaylists,
    {
        MpdCommand::ListPlaylists
    }

    /// Appends a saved playlist to the queue.
    pub fn load_playlist(&self, name: &str) -> (r: MpdCommand)
        ensures
            r matches MpdCommand::Load(n) && n@ == name@,
    {
        MpdCommand::Load(name.to_owned())
    }

    /// Saves the queue under a name.
    pub fn save_playlist(&self, name: &str) -> (r: MpdCommand)
        ensures
            r matches MpdCommand::Save(n) && n@ == name@,
    {
        MpdCommand::Save(name.to_owned())
    }

    /// Renames a saved playlist.
    pub fn rename_playlist(&self, old_name: &str, new_name: &str) -> (r: MpdCommand)
        ensures
            r matches MpdCommand::Rename(a, b) && a@ == old_name@ && b@ == new_name@,
    {
        MpdCommand::Rename(old_name.to_owned(), new_name.to_owned())
    }

    /// Appends a file to the queue.
    pub fn add_to_queue(&self, path: &str) -> (r: MpdCommand)
        ensures
            r matches MpdCommand::Push(p) && p@ == path@,
    {
        MpdCommand::Push(path.to_owned())
    }

    /// Plays the song at a queue position.
    pub fn play_pos(&self, pos: u32) -> (r: MpdCommand)
        ensures
            r == MpdCommand::Switch(pos),
    {
        MpdCommand::Switch(pos)
    }
}

/// The codec that a file name's ending names: `.flac`, `.mp3`, `.m4a` or
/// `.aac`, `.wav`, `.ogg`, `.opus`; none for others.
pub open spec fn codec_of_name(file: Seq<char>) -> Option<Seq<char>> {
    if ends_with(file, ".flac"@) {
        Some("FLAC"@)
    } else if ends_with(file, ".mp3"@) {
        Some("MP3"@)
    } else if ends_with(file, ".m4a"@) || ends_with(file, ".aac"@) {
        Some("AAC"@)
    } else if ends_with(file, ".wav"@) {
        Some("WAV"@)
    } else if ends_with(file, ".ogg"@) {
        Some("OGG"@)
    } else if ends_with(file, ".opus"@) {
        Some("OPUS"@)
    } else {
        None
    }
}

impl MpdPlayer {
    /// What a song's file name tells of its audio: the codec (see
    /// `codec_of_name`); the bit rate, sample rate and bit depth come from
    /// the status instead.
    pub fn extract_audio_info(&self, song: &Song) -> (r: (Option<String>, Option<u32>, Option<u32>, Option<u8>))
        ensures
            opt_view(r.0) == codec_of_name(song.file@),
            r.1 is None && r.2 is None && r.3 is None,
    {
        let f = chars_of(song.file.as_str());
        let codec = if has_suffix(&f, &chars_of(".flac")) {
            Some("FLAC".to_owned())
        } else if has_suffix(&f, &chars_of(".mp3")) {
            Some("MP3".to_owned())
        } else if has_suffix(&f, &chars_of(".m4a")) || has_suffix(&f, &chars_of(".aac")) {
            Some("AAC".to_owned())
        } else if has_suffix(&f, &chars_of(".wav")) {
            Some("WAV".to_owned())
        } else if has_suffix(&f, &chars_of(".ogg")) {
            Some("OGG".to_owned())
        } else if has_suffix(&f, &chars_of(".opus")) {
            Some("OPUS".to_owned())
        } else {
            None
        };
        (codec, None, None, None)
    }
}

} // verus!
