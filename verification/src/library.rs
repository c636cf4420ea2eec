//! Browsing the music folder: the entries of one folder as the library shows
//! them, and the steps that add a folder to the play queue.

use vstd::prelude::*;
use crate::text::{
    split, trim, views, lowercase, to_lowercase, chars_of, split_on, trimmed, string_of, str_eq,
    lemma_split_nonempty, str_concat,
};
use crate::order::{stable_order, is_permutation, ordered_by_keys, order_by_score, ordered_by_score};
use crate::mpd::{Song, opt_view, tag_exact, find_tag_exact};
use crate::state::{LibraryItem, LibraryItemType};

verus! {

/// The last `/`-separated part of a path.
pub open spec fn last_segment(s: Seq<char>) -> Seq<char> {
    split(s, seq!['/']).last()
}

/// A name that the browser leaves out: hidden (leading `.`) or blank.
pub open spec fn is_hidden(name: Seq<char>) -> bool {
    (name.len() > 0 && name[0] == '.') || trim(name).len() == 0
}

/// The path of an entry of folder `path`; the root folder is the empty path.
pub open spec fn child_path(path: Seq<char>, name: Seq<char>) -> Seq<char> {
    if path.len() == 0 {
        name
    } else {
        path + "/"@ + name
    }
}

/// The view of a browser entry: name, type, artist, length, path.
pub open spec fn item_view(it: LibraryItem) -> (Seq<char>, LibraryItemType, Option<Seq<char>>, Option<u64>, Option<Seq<char>>) {
    (it.name@, it.item_type, opt_view(it.artist), it.duration_ms, opt_view(it.path))
}

/// The folders among the listed entries (kind, name) of folder `path`, in
/// their order.
pub open spec fn folder_entries(path: Seq<char>, entries: Seq<(String, String)>) -> Seq<(Seq<char>, LibraryItemType, Option<Seq<char>>, Option<u64>, Option<Seq<char>>)>
    decreases entries.len(),
{
    if entries.len() == 0 {
        seq![]
    } else {
        let rest = folder_entries(path, entries.drop_last());
        let e = entries.last();
        let d = last_segment(e.1@);
        if e.0@ == "directory"@ && !is_hidden(d) {
            rest.push((d, LibraryItemType::Folder, None, None, Some(child_path(path, e.1@))))
        } else {
            rest
        }
    }
}

/// The title shown for a song: its title unless that is blank, else its
/// file name.
pub open spec fn shown_title(title: Option<String>, file_name: Seq<char>) -> Seq<char> {
    match title {
        Some(t) => if trim(t@).len() > 0 {
            t@
        } else {
            file_name
        },
        None => file_name,
    }
}

/// The songs of a folder listing that are not hidden, in their order.
pub open spec fn song_entries(songs: Seq<Song>) -> Seq<(Seq<char>, LibraryItemType, Option<Seq<char>>, Option<u64>, Option<Seq<char>>)>
    decreases songs.len(),
{
    if songs.len() == 0 {
        seq![]
    } else {
        let rest = song_entries(songs.drop_last());
        let s = songs.last();
        let f = last_segment(s.file@);
        if is_hidden(f) {
            rest
        } else {
            rest.push((shown_title(s.title, f), LibraryItemType::Song, opt_view(s.artist), s.duration_ms, Some(s.file@)))
        }
    }
}

/// Sort rank of an entry: folders before songs.
pub open spec fn rank_of(t: LibraryItemType) -> u8 {
    if t == LibraryItemType::Folder {
        0
    } else {
        1
    }
}

pub open spec fn entry_ranks(u: Seq<(Seq<char>, LibraryItemType, Option<Seq<char>>, Option<u64>, Option<Seq<char>>)>) -> Seq<u8> {
    Seq::new(u.len(), |k: int| rank_of(u[k].1))
}

pub open spec fn entry_keys(u: Seq<(Seq<char>, LibraryItemType, Option<Seq<char>>, Option<u64>, Option<Seq<char>>)>) -> Seq<Seq<char>> {
    Seq::new(u.len(), |k: int| lowercase(u[k].0))
}

/// The last `/`-separated part of a path.
fn last_segment_of(s: &str) -> (r: Vec<char>)
    ensures
        r@ == last_segment(s@),
{
    let c = chars_of(s);
    let sep = chars_of("/");
    proof {
        reveal_strlit("/");
        assert(sep@ =~= seq!['/']);
        lemma_split_nonempty(c@, sep@);
    }
    let parts = split_on(&c, &sep);
    let last = parts.len() - 1;
    let mut r: Vec<char> = Vec::new();
    let mut i: usize = 0;
    while i < parts[last].len()
        invariant
            last == parts.len() - 1,
            parts.len() >= 1,
            i <= parts@[last as int].len(),
            r@ == parts@[last as int]@.take(i as int),
        decreases parts@[last as int].len() - i,
    {
        r.push(parts[last][i]);
        i = i + 1;
        assert(r@ =~= parts@[last as int]@.take(i as int));
    }
    assert(parts@[last as int]@.take(i as int) =~= parts@[last as int]@);
    assert(views(parts@)[last as int] == parts@[last as int]@);
    r
}

/// A name that the browser leaves out.
fn hidden(name: &Vec<char>) -> (r: bool)
    ensures
        r == is_hidden(name@),
{
    (name.len() > 0 && name[0] == '.') || trimmed(name).len() == 0
}

/// The path of an entry of folder `path`.
fn join_child(path: &str, name: &str) -> (r: String)
    ensures
        r@ == child_path(path@, name@),
{
    if chars_of(path).len() == 0 {
        name.to_owned()
    } else {
        str_concat(str_concat(path, "/").as_str(), name)
    }
}

/// The entries of the folder `path` as the browser lists them: `entries`
/// are the folder's (kind, name) pairs and `songs` its songs, as the daemon
/// lists them. Hidden and blank names are left out; folders come first, and
/// each group is sorted by lower-cased name, equal names keeping their order.
pub fn fetch_directory_items(path: &str, entries: &Vec<(String, String)>, songs: &Vec<Song>) -> (r: Vec<LibraryItem>)
    ensures
        ({
            let u = folder_entries(path@, entries@) + song_entries(songs@);
            &&& r.len() == u.len()
            &&& exists|p: Seq<usize>|
                is_permutation(p, u.len()) && ordered_by_keys(p, entry_ranks(u), entry_keys(u))
                    && forall|k: int| 0 <= k < u.len() ==> #[trigger] item_view(r@[k]) == u[p[k] as int]
        }),
{
    let mut items: Vec<LibraryItem> = Vec::new();
    let mut i: usize = 0;
    while i < entries.len()
        invariant
            i <= entries.len(),
            items.len() == folder_entries(path@, entries@.take(i as int)).len(),
            forall|k: int| 0 <= k < items.len() ==> #[trigger] item_view(items@[k]) == folder_entries(path@, entries@.take(i as int))[k],
        decreases entries.len() - i,
    {
        assert(entries@.take(i + 1).drop_last() =~= entries@.take(i as int));
        let display = last_segment_of(entries[i].1.as_str());
        if str_eq(entries[i].0.as_str(), "directory") && !hidden(&display) {
            let full = join_child(path, entries[i].1.as_str());
            items.push(LibraryItem {
                name: string_of(&display),
                item_type: LibraryItemType::Folder,
                artist: None,
                duration_ms: None,
                path: Some(full),
            });
        }
        i = i + 1;
    }
    assert(entries@.take(entries.len() as int) =~= entries@);
    let ghost folders = folder_entries(path@, entries@);
    let nf = items.len();
    let mut j: usize = 0;
    while j < songs.len()
        invariant
            j <= songs.len(),
            nf == folders.len(),
            items.len() == nf + song_entries(songs@.take(j as int)).len(),
            forall|k: int| 0 <= k < nf ==> #[trigger] item_view(items@[k]) == folders[k],
            forall|k: int| nf <= k < items.len() ==> #[trigger] item_view(items@[k]) == song_entries(songs@.take(j as int))[k - nf],
        decreases songs.len() - j,
    {
        assert(songs@.take(j + 1).drop_last() =~= songs@.take(j as int));
        let song = &songs[j];
        let file_name = last_segment_of(song.file.as_str());
        if !hidden(&file_name) {
            let title = match &song.title {
                Some(t) => if trim_len(t.as_str()) > 0 {
                    t.clone()
                } else {
                    string_of(&file_name)
                },
                None => string_of(&file_name),
            };
            items.push(LibraryItem {
                name: title,
                item_type: LibraryItemType::Song,
                artist: match &song.artist {
                    Some(a) => Some(a.clone()),
                    None => None,
                },
                duration_ms: song.duration_ms,
                path: Some(song.file.clone()),
            });
        }
        j = j + 1;
    }
    assert(songs@.take(songs.len() as int) =~= songs@);
    let ghost u = folders + song_entries(songs@);
    assert forall|k: int| 0 <= k < items.len() implies #[trigger] item_view(items@[k]) == u[k] by {
        if k >= nf {
            assert(item_view(items@[k]) == song_entries(songs@)[k - nf]);
        }
    }
    let mut ranks: Vec<u8> = Vec::new();
    let mut keys: Vec<Vec<char>> = Vec::new();
    let mut k: usize = 0;
    while k < items.len()
        invariant
            k <= items.len(),
            items.len() == u.len(),
            forall|m: int| 0 <= m < items.len() ==> #[trigger] item_view(items@[m]) == u[m],
            ranks@ == entry_ranks(u).take(k as int),
            views(keys@) == entry_keys(u).take(k as int),
        decreases items.len() - k,
    {
        assert(item_view(items@[k as int]) == u[k as int]);
        let rank: u8 = match items[k].item_type {
            LibraryItemType::Folder => 0,
            _ => 1,
        };
        ranks.push(rank);
        let ghost old_keys = views(keys@);
        keys.push(chars_of(to_lowercase(items[k].name.as_str()).as_str()));
        assert(views(keys@) =~= old_keys.push(lowercase(u[k as int].0)));
        assert(entry_keys(u).take(k + 1) =~= entry_keys(u).take(k as int).push(lowercase(u[k as int].0)));
        assert(entry_ranks(u).take(k + 1) =~= entry_ranks(u).take(k as int).push(rank_of(u[k as int].1)));
        k = k + 1;
    }
    assert(entry_ranks(u).take(k as int) =~= entry_ranks(u));
    assert(entry_keys(u).take(k as int) =~= entry_keys(u));
    let p = stable_order(&ranks, &keys);
    let mut out: Vec<LibraryItem> = Vec::new();
    let mut m: usize = 0;
    while m < p.len()
        invariant
            m <= p.len(),
            p.len() == items.len(),
            items.len() == u.len(),
            is_permutation(p@, u.len()),
            forall|q: int| 0 <= q < items.len() ==> #[trigger] item_view(items@[q]) == u[q],
            out.len() == m,
            forall|q: int| 0 <= q < m ==> #[trigger] item_view(out@[q]) == u[p@[q] as int],
        decreases p.len() - m,
    {
        let idx = p[m];
        assert(idx < u.len());
        out.push(items[idx].duplicate());
        m = m + 1;
    }
    out
}

/// The length of the trimmed text.
fn trim_len(s: &str) -> (r: usize)
    ensures
        r == trim(s@).len(),
{
    crate::text::trim_str(s).len()
}

/// A step of adding a folder to the queue.
#[derive(Debug, Clone, PartialEq, Eq)]
pub enum FolderStep {
    /// Add this sub-folder, in the same way.
    Recurse(String),
    /// Append this file to the queue.
    Push(String),
}

/// The view of a step: whether it goes into a sub-folder, and its path.
pub open spec fn step_view(s: FolderStep) -> (bool, Seq<char>) {
    match s {
        FolderStep::Recurse(p) => (true, p@),
        FolderStep::Push(p) => (false, p@),
    }
}

/// The steps for listed entries (kind, name) of folder `path`, in the given
/// order: into each directory, and each file appended; other kinds skipped.
pub open spec fn steps_of(path: Seq<char>, es: Seq<(String, String)>) -> Seq<(bool, Seq<char>)>
    decreases es.len(),
{
    if es.len() == 0 {
        seq![]
    } else {
        let rest = steps_of(path, es.drop_last());
        let e = es.last();
        if e.0@ == "directory"@ {
            rest.push((true, child_path(path, e.1@)))
        } else if e.0@ == "file"@ {
            rest.push((false, child_path(path, e.1@)))
        } else {
            rest
        }
    }
}

pub open spec fn listing_ranks(es: Seq<(String, String)>) -> Seq<u8> {
    Seq::new(es.len(), |k: int| if es[k].0@ == "directory"@ { 0u8 } else { 1u8 })
}

pub open spec fn listing_keys(es: Seq<(String, String)>) -> Seq<Seq<char>> {
    Seq::new(es.len(), |k: int| lowercase(es[k].1@))
}

/// The listed entries in the order that `p` gives.
pub open spec fn permuted(es: Seq<(String, String)>, p: Seq<usize>) -> Seq<(String, String)> {
    Seq::new(p.len(), |k: int| es[p[k] as int])
}

/// One level of adding the folder `path` to the queue, all sub-folders
/// included: `entries` are the folder's (kind, name) pairs as the daemon
/// lists them. Directories come first, each group sorted by lower-cased name
/// (equal names keep their order); each directory is then added in the same
/// way and each file appended.
pub fn queue_folder_recursive(path: &str, entries: &Vec<(String, String)>) -> (r: Vec<FolderStep>)
    ensures
        exists|p: Seq<usize>|
            is_permutation(p, entries.len() as nat) && ordered_by_keys(p, listing_ranks(entries@), listing_keys(entries@))
                && Seq::new(r.len() as nat, |k: int| step_view(r@[k])) == steps_of(path@, permuted(entries@, p)),
{
    let mut ranks: Vec<u8> = Vec::new();
    let mut keys: Vec<Vec<char>> = Vec::new();
    let mut k: usize = 0;
    while k < entries.len()
        invariant
            k <= entries.len(),
            ranks@ == listing_ranks(entries@).take(k as int),
            views(keys@) == listing_keys(entries@).take(k as int),
        decreases entries.len() - k,
    {
        let rank: u8 = if str_eq(entries[k].0.as_str(), "directory") { 0 } else { 1 };
        ranks.push(rank);
        let ghost old_keys = views(keys@);
        keys.push(chars_of(to_lowercase(entries[k].1.as_str()).as_str()));
        assert(views(keys@) =~= old_keys.push(lowercase(entries@[k as int].1@)));
        assert(listing_keys(entries@).take(k + 1) =~= listing_keys(entries@).take(k as int).push(lowercase(entries@[k as int].1@)));
        assert(listing_ranks(entries@).take(k + 1) =~= listing_ranks(entries@).take(k as int).push(rank));
        k = k + 1;
    }
    assert(listing_ranks(entries@).take(k as int) =~= listing_ranks(entries@));
    assert(listing_keys(entries@).take(k as int) =~= listing_keys(entries@));
    let p = stable_order(&ranks, &keys);
    let ghost perm = permuted(entries@, p@);
    let mut steps: Vec<FolderStep> = Vec::new();
    let mut m: usize = 0;
    while m < p.len()
        invariant
            m <= p.len(),
            p.len() == entries.len(),
            is_permutation(p@, entries.len() as nat),
            perm == permuted(entries@, p@),
            Seq::new(steps.len() as nat, |q: int| step_view(steps@[q])) == steps_of(path@, perm.take(m as int)),
        decreases p.len() - m,
    {
        assert(perm.take(m + 1).drop_last() =~= perm.take(m as int));
        let idx = p[m];
        let ghost before = Seq::new(steps.len() as nat, |q: int| step_view(steps@[q]));
        let kind = entries[idx].0.as_str();
        let name = entries[idx].1.as_str();
        if str_eq(kind, "directory") {
            let full = join_child(path, name);
            steps.push(FolderStep::Recurse(full));
            assert(Seq::new(steps.len() as nat, |q: int| step_view(steps@[q])) =~= before.push((true, child_path(path@, name@))));
        } else if str_eq(kind, "file") {
            let full = join_child(path, name);
            steps.push(FolderStep::Push(full));
            assert(Seq::new(steps.len() as nat, |q: int| step_view(steps@[q])) =~= before.push((false, child_path(path@, name@))));
        }
        m = m + 1;
    }
    assert(perm.take(m as int) =~= perm);
    steps
}

/// What adding a folder to the queue asks for next.
#[derive(Debug)]
pub enum WalkAction {
    /// List this folder and hand its entries to `FolderWalk::enter`.
    List(String),
    /// Append this file to the queue.
    Push(String),
    /// Every folder has been added.
    Finished,
}

/// Adding a folder and all its sub-folders to the queue, depth first: the
/// steps still to take, the next one last.
pub struct FolderWalk {
    pub pending: Vec<FolderStep>,
}

/// The steps still to take, in the order in which they are taken.
pub open spec fn walk_view(pending: Seq<FolderStep>) -> Seq<(bool, Seq<char>)> {
    Seq::new(pending.len(), |i: int| step_view(pending[pending.len() - 1 - i]))
}

pub open spec fn steps_view(steps: Seq<FolderStep>) -> Seq<(bool, Seq<char>)> {
    Seq::new(steps.len(), |i: int| step_view(steps[i]))
}

impl FolderWalk {
    /// A walk that starts by listing the folder `path`.
    pub fn new(path: &str) -> (w: Self)
        ensures
            walk_view(w.pending@) == seq![(true, path@)],
    {
        let mut pending: Vec<FolderStep> = Vec::new();
        pending.push(FolderStep::Recurse(path.to_owned()));
        assert(walk_view(pending@) =~= seq![(true, path@)]);
        FolderWalk { pending }
    }

    /// The next step: list the next folder or add the next file, removing
    /// that step; `Finished` when none is left.
    pub fn next(&mut self) -> (r: WalkAction)
        ensures
            walk_view(old(self).pending@).len() == 0 ==> r is Finished && final(self).pending@ == old(
                self,
            ).pending@,
            walk_view(old(self).pending@).len() > 0 ==> {
                let head = walk_view(old(self).pending@)[0];
                &&& walk_view(final(self).pending@) == walk_view(old(self).pending@).drop_first()
                &&& head.0 ==> (r matches WalkAction::List(p) && p@ == head.1)
                &&& !head.0 ==> (r matches WalkAction::Push(f) && f@ == head.1)
            },
    {
        let ghost before = walk_view(self.pending@);
        match self.pending.pop() {
            Some(step) => {
                assert(walk_view(self.pending@) =~= before.drop_first());
                match step {
                    FolderStep::Recurse(p) => WalkAction::List(p),
                    FolderStep::Push(f) => WalkAction::Push(f),
                }
            },
            None => WalkAction::Finished,
        }
    }

    /// The entries of the folder `path` as the daemon lists them (none where
    /// it cannot be listed): its steps, ordered as `queue_folder_recursive`
    /// orders them, come before every step that was still to take, so that
    /// each sub-folder is added whole before the entries after it.
    pub fn enter(&mut self, path: &str, entries: &Vec<(String, String)>)
        ensures
            exists|p: Seq<usize>|
                is_permutation(p, entries.len() as nat) && ordered_by_keys(
                    p,
                    listing_ranks(entries@),
                    listing_keys(entries@),
                ) && walk_view(final(self).pending@) == steps_of(path@, permuted(entries@, p))
                    + walk_view(old(self).pending@),
    {
        let mut steps = queue_folder_recursive(path, entries);
        let ghost all = steps_view(steps@);
        let ghost rest = walk_view(self.pending@);
        let ghost n = steps.len() as int;
        assert(all.subrange(n, n) + rest =~= rest);
        while steps.len() > 0
            invariant
                steps.len() <= n,
                steps_view(steps@) == all.take(steps.len() as int),
                all.len() == n,
                walk_view(self.pending@) == all.subrange(steps.len() as int, n) + rest,
            decreases steps.len(),
        {
            let ghost k = steps.len() as int;
            let ghost before = walk_view(self.pending@);
            let ghost old_steps = steps@;
            assert(steps_view(old_steps)[k - 1] == all.take(k)[k - 1]);
            assert(step_view(old_steps[k - 1]) == all[k - 1]);
            let step = steps.pop().unwrap();
            assert(step == old_steps[k - 1]);
            assert(steps_view(steps@) =~= all.take(k - 1));
            self.pending.push(step);
            assert(walk_view(self.pending@) =~= seq![all[k - 1]] + before);
            assert(all.subrange(k - 1, n) =~= seq![all[k - 1]] + all.subrange(k, n));
        }
        assert(all.subrange(0, n) =~= all);
    }
}

/// The score that the skim fuzzy matcher with its default settings
/// (`SkimMatcherV2::default().fuzzy_match`) gives a text for a pattern;
/// `None` where the pattern does not match the text.
pub uninterp spec fn skim_score(choice: Seq<char>, pattern: Seq<char>) -> Option<i64>;

/// Calls the skim fuzzy matcher of `fuzzy_matcher` with its default settings.
/// Its result is named `skim_score`; the matcher's source gives an empty
/// pattern the score 0.
#[verifier::external_body]
fn fuzzy_score(choice: &str, pattern: &str) -> (r: Option<i64>)
    ensures
        r == skim_score(choice@, pattern@),
        pattern@.len() == 0 ==> r == Some(0i64),
{
    fuzzy_matcher::FuzzyMatcher::fuzzy_match(&fuzzy_matcher::skim::SkimMatcherV2::default(), choice, pattern)
}

/// The text that a fuzzy search looks at: title, artist and path, separated
/// by spaces (a missing title or artist is empty).
pub open spec fn search_text(s: Song) -> Seq<char> {
    (match s.title {
        Some(t) => t@,
        None => seq![],
    }) + " "@ + (match s.artist {
        Some(a) => a@,
        None => seq![],
    }) + " "@ + s.file@
}

/// The browser entry of a song that a search found: its title (else its
/// path), its artist (else its first `Artist` tag), its length and path.
pub open spec fn found_item(s: Song) -> (Seq<char>, LibraryItemType, Option<Seq<char>>, Option<u64>, Option<Seq<char>>) {
    (
        match s.title {
            Some(t) => t@,
            None => s.file@,
        },
        LibraryItemType::Song,
        match s.artist {
            Some(a) => Some(a@),
            None => tag_exact(s.tags@, "Artist"@, 0),
        },
        s.duration_ms,
        Some(s.file@),
    )
}

/// The songs that have a score, as (position, score), in order.
pub open spec fn scored(scores: Seq<Option<i64>>) -> Seq<(int, i64)>
    decreases scores.len(),
{
    if scores.len() == 0 {
        seq![]
    } else {
        let rest = scored(scores.drop_last());
        match scores.last() {
            Some(v) => rest.push((scores.len() - 1, v)),
            None => rest,
        }
    }
}

/// How many results a search shows.
pub const RESULT_LIMIT: usize = 50;

/// `r` lists the songs with a score, highest score first (equal scores in
/// their order), at most fifty.
pub open spec fn ranked(songs: Seq<Song>, scores: Seq<Option<i64>>, r: Seq<LibraryItem>) -> bool {
    let m = scored(scores);
    &&& r.len() == (if m.len() < RESULT_LIMIT { m.len() } else { RESULT_LIMIT as nat })
    &&& exists|p: Seq<usize>|
        is_permutation(p, m.len()) && ordered_by_score(p, Seq::new(m.len(), |k: int| m[k].1))
            && forall|k: int| 0 <= k < r.len() ==> #[trigger] item_view(r[k]) == found_item(songs[m[p[k] as int].0])
}

/// The scores that a fuzzy search gives the songs.
pub open spec fn search_scores(songs: Seq<Song>, query: Seq<char>) -> Seq<Option<i64>> {
    Seq::new(songs.len(), |i: int| skim_score(search_text(songs[i]), query))
}

/// The search results for songs with the given scores (`None`: no match).
pub fn rank_search_results(songs: &Vec<Song>, scores: &Vec<Option<i64>>) -> (r: Vec<LibraryItem>)
    requires
        scores.len() == songs.len(),
    ensures
        ranked(songs@, scores@, r@),
{
    let mut idx: Vec<usize> = Vec::new();
    let mut sc: Vec<i64> = Vec::new();
    let mut i: usize = 0;
    while i < scores.len()
        invariant
            i <= scores.len(),
            idx.len() == sc.len(),
            idx.len() == scored(scores@.take(i as int)).len(),
            forall|k: int| 0 <= k < idx.len() ==> (idx@[k] as int, #[trigger] sc@[k]) == scored(scores@.take(i as int))[k],
            forall|k: int| 0 <= k < idx.len() ==> #[trigger] idx@[k] < i,
        decreases scores.len() - i,
    {
        assert(scores@.take(i + 1).drop_last() =~= scores@.take(i as int));
        match scores[i] {
            Some(v) => {
                idx.push(i);
                sc.push(v);
            },
            None => {},
        }
        i = i + 1;
    }
    assert(scores@.take(scores.len() as int) =~= scores@);
    let ghost m = scored(scores@);
    assert forall|j: int| 0 <= j < idx.len() implies idx@[j] as int == #[trigger] m[j].0 && sc@[j] == m[j].1 by {
        assert((idx@[j] as int, sc@[j]) == scored(scores@.take(i as int))[j]);
    }
    assert(sc@ =~= Seq::new(m.len(), |k: int| m[k].1));
    let p = order_by_score(&sc);
    let n = if p.len() < RESULT_LIMIT { p.len() } else { RESULT_LIMIT };
    let mut out: Vec<LibraryItem> = Vec::new();
    let mut k: usize = 0;
    while k < n
        invariant
            k <= n,
            n <= p.len(),
            p.len() == idx.len(),
            idx.len() == m.len(),
            is_permutation(p@, m.len()),
            forall|j: int| 0 <= j < idx.len() ==> idx@[j] as int == #[trigger] m[j].0,
            forall|j: int| 0 <= j < idx.len() ==> #[trigger] idx@[j] < songs.len(),
            out.len() == k,
            forall|j: int| 0 <= j < k ==> #[trigger] item_view(out@[j]) == found_item(songs@[m[p@[j] as int].0]),
        decreases n - k,
    {
        let at = p[k];
        assert(at < idx.len());
        let sidx = idx[at];
        assert(sidx < songs.len());
        let song = &songs[sidx];
        let name = match &song.title {
            Some(t) => t.clone(),
            None => song.file.clone(),
        };
        let artist = match &song.artist {
            Some(a) => Some(a.clone()),
            None => find_tag_exact(&song.tags, "Artist"),
        };
        out.push(LibraryItem {
            name,
            item_type: LibraryItemType::Song,
            artist,
            duration_ms: song.duration_ms,
            path: Some(song.file.clone()),
        });
        k = k + 1;
    }
    out
}

/// A fuzzy search of the songs for a query (the library's search box):
/// each song's title, artist and path are scored by the skim matcher, and
/// the matches listed best first, at most fifty.
pub fn fuzzy_search(songs: &Vec<Song>, query: &str) -> (r: Vec<LibraryItem>)
    ensures
        ranked(songs@, search_scores(songs@, query@), r@),
{
    let mut scores: Vec<Option<i64>> = Vec::new();
    let mut i: usize = 0;
    while i < songs.len()
        invariant
            i <= songs.len(),
            scores@ =~= search_scores(songs@, query@).take(i as int),
        decreases songs.len() - i,
    {
        let song = &songs[i];
        let title = match &song.title {
            Some(t) => t.clone(),
            None => String::new(),
        };
        let artist = match &song.artist {
            Some(a) => a.clone(),
            None => String::new(),
        };
        let a = str_concat(title.as_str(), " ");
        let b = str_concat(a.as_str(), artist.as_str());
        let c = str_concat(b.as_str(), " ");
        let text = str_concat(c.as_str(), song.file.as_str());
        assert(text@ == search_text(songs@[i as int]));
        scores.push(fuzzy_score(text.as_str(), query));
        i = i + 1;
    }
    assert(search_scores(songs@, query@).take(songs.len() as int) =~= search_scores(songs@, query@));
    rank_search_results(songs, &scores)
}

} // verus!
