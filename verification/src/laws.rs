//! Properties that hold across calls of the library.

use vstd::prelude::*;
use crate::events::{edit_tags_action, key_step, view_switch_step, reported_position, player_step, lyrics_step, scroll_origin, enter_action, UiModel, TrackStatus, ActionView, pressed, tab_next_mode, tab_prev_mode, next_crossfade, next_replay_gain, volume_up_level, volume_down_level, common_step, library_step, library_rows, eq_step, seek_step, tab_next_step, tab_prev_step, rename_step, delete_step, search_back_step, dir_back_step};
use crate::keys::{KeyEvent, KeyCode, key_matches, default_bindings};
use crate::keys::KeyConfig;
use crate::state::{LibraryMode, ViewMode, TagEditState, ArtStyle, next_art_style};
use crate::player::{RepeatMode, next_repeat, repeat_flags};
use crate::order::{is_permutation, ordered_by_keys, key_before};
use crate::library::{rank_of, entry_ranks, entry_keys, search_text, search_scores, skim_score};
use crate::lyrics::LyricLine;
use crate::audio::{refreshed, position_of};
use crate::mpd::{matching, at_most, song_matches, Song, Status, MpdCommand, reported_crossfade, crossfade_command};
use crate::runner::{scroll_back_step, step_towards};
use crate::state::LibraryItemType;
use crate::presets::user_presets;

verus! {

/// Going to the next library tab and back returns to the tab one started
/// from, and three steps forward come back to it (the search tab aside,
/// which is reached only by the search key).
pub proof fn law_tabs_cycle(m: LibraryMode)
    requires
        m != LibraryMode::Search,
    ensures
        tab_prev_mode(tab_next_mode(m)) == m,
        tab_next_mode(tab_prev_mode(m)) == m,
        tab_next_mode(tab_next_mode(tab_next_mode(m))) == m,
{
}

/// The crossfade key always gives 0, 2, 4 or 6 seconds, and four presses
/// return to where one started from any of those.
pub proof fn law_crossfade_cycle(c: u32)
    ensures
        next_crossfade(c) == 0 || next_crossfade(c) == 2 || next_crossfade(c) == 4
            || next_crossfade(c) == 6,
        (c == 0 || c == 2 || c == 4 || c == 6) ==> next_crossfade(
            next_crossfade(next_crossfade(next_crossfade(c))),
        ) == c,
{
}

/// The replay gain key cycles through the four modes.
pub proof fn law_replay_gain_cycle(g: u8)
    requires
        g < 4,
    ensures
        next_replay_gain(g) < 4,
        next_replay_gain(next_replay_gain(next_replay_gain(next_replay_gain(g)))) == g,
{
}

/// Three presses of the repeat key return to the mode one started from.
pub proof fn law_repeat_cycle(r: RepeatMode)
    ensures
        next_repeat(next_repeat(next_repeat(r))) == r,
        next_repeat(r) != r,
{
}

/// The volume keys keep the volume within 0 to 100, and volume up followed by
/// volume down gives back any volume up to 95 (down then up any from 5).
pub proof fn law_volume_keys(v: u8)
    ensures
        volume_up_level(v) <= 100,
        v <= 100 ==> volume_down_level(v) <= 100,
        v <= 95 ==> volume_down_level(volume_up_level(v)) == v,
        5 <= v <= 100 ==> volume_up_level(volume_down_level(v)) == v,
{
}

/// The quit key never stops the program while a popup is open: it closes the
/// popup instead.
pub proof fn law_quit_closes_popups_first(
    m: UiModel,
    keys: KeyConfig,
    ev: KeyEvent,
    controller: bool,
)
    requires
        pressed(ev, keys.quit),
        m.show_keyhints || m.show_audio_info,
    ensures
        common_step(m, keys, ev, controller) matches Some(m2) && m2.is_running == m.is_running && (
        m2.show_keyhints != m.show_keyhints || m2.show_audio_info != m.show_audio_info),
{
}

/// Every key of the library view leaves the selection on one of the rows of
/// the tab it shows, if it was on one before.
pub proof fn law_library_selection_on_a_row(
    m: UiModel,
    keys: KeyConfig,
    ev: KeyEvent,
    controller: bool,
)
    requires
        m.view_mode == ViewMode::Library,
        m.library_selected < library_rows(m),
    ensures
        library_step(m, keys, ev, controller) matches Some((m2, _)) ==> m2.library_selected
            < library_rows(m2),
{
    reveal(tab_next_step);
    reveal(tab_prev_step);
    reveal(rename_step);
    reveal(delete_step);
    reveal(search_back_step);
    reveal(dir_back_step);
}

/// The band keys of the equalizer keep the selected band among the ten bands.
pub proof fn law_eq_band_in_range(m: UiModel, keys: KeyConfig, ev: KeyEvent, controller: bool)
    requires
        m.view_mode == ViewMode::EQ,
        m.eq_selected <= 9,
    ensures
        eq_step(m, keys, ev, controller) matches Some((m2, _)) ==> m2.eq_selected <= 9,
{
}

/// A seek lands within the playing track.
pub proof fn law_seek_within_track(m: UiModel, dir: int, t: TrackStatus, now_ms: u64)
    ensures
        seek_step(m, dir, Some(t), now_ms).1 matches ActionView::Seek { target_ms, .. }
            ==> target_ms <= t.duration_ms,
{
}

/// Moving to the next tag field and back returns to the field one started from.
pub proof fn law_tag_fields_round_trip(f: usize)
    requires
        f < 3,
    ensures
        (if (f + 1) % 3 == 0 {
            2
        } else {
            ((f + 1) % 3 - 1) as int
        }) == f,
{
}

/// In a folder listing sorted for the browser, every folder comes before
/// every song.
pub proof fn law_folders_first(
    u: Seq<(Seq<char>, LibraryItemType, Option<Seq<char>>, Option<u64>, Option<Seq<char>>)>,
    p: Seq<usize>,
    a: int,
    b: int,
)
    requires
        is_permutation(p, u.len()),
        ordered_by_keys(p, entry_ranks(u), entry_keys(u)),
        0 <= a < b < p.len(),
        u[p[b] as int].1 == LibraryItemType::Folder,
    ensures
        u[p[a] as int].1 == LibraryItemType::Folder,
{
    assert(key_before(entry_ranks(u), entry_keys(u), p[a] as int, p[b] as int));
    assert(entry_ranks(u)[p[a] as int] == rank_of(u[p[a] as int].1));
    assert(entry_ranks(u)[p[b] as int] == rank_of(u[p[b] as int].1));
}

/// A first match found by `position_of` is a match, and no earlier entry
/// matches.
proof fn lemma_position_found(v: Seq<Seq<char>>, x: Seq<char>, i: nat)
    requires
        position_of(v, x, i) is Some,
    ensures
        ({
            let k = position_of(v, x, i)->0;
            &&& i <= k < v.len()
            &&& v[k as int] == x
        }),
    decreases v.len() - i,
{
    if i < v.len() && v[i as int] != x {
        lemma_position_found(v, x, i + 1);
    }
}

/// When the device list is read again and the device in use is still in
/// it, the selection is on that device and it stays the device in use.
pub proof fn law_refresh_keeps_device(out: Seq<char>, devices: Seq<Seq<char>>, sel: usize, found: Seq<Seq<char>>)
    requires
        found.contains(out),
        found.len() <= usize::MAX,
    ensures
        ({
            let (o, d, s) = refreshed(out, devices, sel, found);
            &&& o == out
            &&& d == found
            &&& s < found.len()
            &&& found[s as int] == out
        }),
{
    let k = choose|k: int| 0 <= k < found.len() && found[k] == out;
    lemma_position_some(found, out, 0, k);
    lemma_position_found(found, out, 0);
}

proof fn lemma_position_some(v: Seq<Seq<char>>, x: Seq<char>, i: nat, k: int)
    requires
        i <= k < v.len(),
        v[k] == x,
    ensures
        position_of(v, x, i) is Some,
    decreases v.len() - i,
{
    if v[i as int] != x {
        lemma_position_some(v, x, i + 1, k);
    }
}

/// Selecting the next device (or equalizer preset) and then the previous
/// one, or the previous and then the next, comes back to the one started
/// from.
pub proof fn law_device_steps_undo(s: int, n: int)
    requires
        0 <= s < n,
    ensures
        ({
            let next = (s + 1) % n;
            (if next == 0 { n - 1 } else { next - 1 }) == s
        }),
        ({
            let prev = if s == 0 { n - 1 } else { s - 1 };
            (prev + 1) % n == s
        }),
{
    if s + 1 < n {
        assert((s + 1) % n == s + 1) by (nonlinear_arith)
            requires
                0 <= s + 1 < n,
        ;
    } else {
        assert((s + 1) % n == 0) by (nonlinear_arith)
            requires
                s + 1 == n,
                n > 0,
        ;
    }
    if s == 0 {
        assert(n % n == 0) by (nonlinear_arith)
            requires
                n > 0,
        ;
    } else {
        assert(s % n == s) by (nonlinear_arith)
            requires
                0 <= s < n,
        ;
    }
}

/// The daemon reports back the repeat mode that was set: reading the
/// repeat and single switches that a mode sets gives that mode.
pub proof fn law_repeat_flags_round_trip(m: RepeatMode)
    ensures
        ({
            let (repeat, single) = repeat_flags(m);
            m == (if single && repeat {
                RepeatMode::Single
            } else if repeat {
                RepeatMode::Playlist
            } else {
                RepeatMode::Off
            })
        }),
{
}

/// A library search gives at most fifty songs, each of which matches the
/// query, in the order of the database.
pub proof fn law_search_results_match(songs: Seq<Song>, q: Seq<char>, k: int)
    requires
        0 <= k < at_most(matching(songs, q), 50).len(),
    ensures
        at_most(matching(songs, q), 50).len() <= 50,
        song_matches(at_most(matching(songs, q), 50)[k], q),
        songs.contains(at_most(matching(songs, q), 50)[k]),
{
    lemma_matching_members(songs, q);
}

proof fn lemma_matching_members(songs: Seq<Song>, q: Seq<char>)
    ensures
        forall|k: int| 0 <= k < matching(songs, q).len() ==> song_matches(#[trigger] matching(songs, q)[k], q)
            && songs.contains(matching(songs, q)[k]),
    decreases songs.len(),
{
    if songs.len() > 0 {
        lemma_matching_members(songs.drop_last(), q);
        let rest = matching(songs.drop_last(), q);
        assert forall|k: int| 0 <= k < matching(songs, q).len() implies song_matches(#[trigger] matching(songs, q)[k], q)
            && songs.contains(matching(songs, q)[k]) by {
            if k < rest.len() {
                assert(matching(songs, q)[k] == rest[k]);
                let j = choose|j: int| 0 <= j < songs.drop_last().len() && songs.drop_last()[j] == rest[k];
                assert(songs[j] == rest[k]);
            } else {
                assert(songs[songs.len() - 1] == songs.last());
            }
        }
    }
}

/// While the lyrics scroll back, each step brings a scroll position one
/// line nearer the current line, and once both positions are there the
/// scrolling ends.
pub proof fn law_scroll_back_converges(o: usize, target: usize)
    requires
        o != target,
    ensures
        ({
            let (n, done) = step_towards(Some(o), target);
            &&& !done
            &&& n matches Some(x) && (if x >= target { x - target } else { target - x }) + 1 == (if o >= target { o - target } else { target - o })
        }),
        step_towards(Some(target), target) == (Some(target), true),
        scroll_back_step(34, Some(target), Some(target), target) == (0u64, None::<usize>, None::<usize>),
{
}

/// The presets saved between runs are exactly the ones that are not built
/// in, each once, in their order.
pub proof fn law_saved_presets_are_custom(names: Seq<Seq<char>>, builtin: Seq<Seq<char>>, k: int)
    requires
        0 <= k < names.len(),
    ensures
        user_presets(names, builtin).contains(k) <==> !builtin.contains(names[k]),
        forall|a: int, b: int| 0 <= a < b < user_presets(names, builtin).len() ==> user_presets(names, builtin)[a] < user_presets(names, builtin)[b],
    decreases names.len(),
{
    lemma_user_presets_range(names, builtin);
    if k < names.len() - 1 {
        law_saved_presets_are_custom(names.drop_last(), builtin, k);
        assert(names.drop_last()[k] == names[k]);
        let rest = user_presets(names.drop_last(), builtin);
        if !builtin.contains(names.last()) {
            assert(user_presets(names, builtin) == rest.push(names.len() - 1));
            if user_presets(names, builtin).contains(k) {
                let j = choose|j: int| 0 <= j < user_presets(names, builtin).len() && user_presets(names, builtin)[j] == k;
                if j < rest.len() {
                    assert(rest[j] == k);
                }
            }
            if rest.contains(k) {
                let j = choose|j: int| 0 <= j < rest.len() && rest[j] == k;
                assert(user_presets(names, builtin)[j] == k);
            }
        }
    } else {
        let rest = user_presets(names.drop_last(), builtin);
        lemma_user_presets_range(names.drop_last(), builtin);
        if rest.contains(k) {
            let j = choose|j: int| 0 <= j < rest.len() && rest[j] == k;
            assert(rest[j] < names.len() - 1);
        }
        if !builtin.contains(names.last()) {
            assert(user_presets(names, builtin)[rest.len() as int] == k);
        }
    }
}

/// Every saved position is a position of the list, in increasing order.
proof fn lemma_user_presets_range(names: Seq<Seq<char>>, builtin: Seq<Seq<char>>)
    ensures
        forall|j: int| 0 <= j < user_presets(names, builtin).len() ==> 0 <= #[trigger] user_presets(names, builtin)[j] < names.len(),
        forall|a: int, b: int| 0 <= a < b < user_presets(names, builtin).len() ==> user_presets(names, builtin)[a] < user_presets(names, builtin)[b],
    decreases names.len(),
{
    if names.len() > 0 {
        lemma_user_presets_range(names.drop_last(), builtin);
        let rest = user_presets(names.drop_last(), builtin);
        let all = user_presets(names, builtin);
        if !builtin.contains(names.last()) {
            assert(all == rest.push(names.len() - 1));
            assert forall|j: int| 0 <= j < all.len() implies 0 <= #[trigger] all[j] < names.len() by {
                if j < rest.len() {
                    assert(all[j] == rest[j]);
                }
            }
            assert forall|a: int, b: int| 0 <= a < b < all.len() implies all[a] < all[b] by {
                assert(all[a] == rest[a]);
                assert(0 <= rest[a] < names.len() - 1);
                if b < rest.len() {
                    assert(all[b] == rest[b]);
                }
            }
        } else {
            assert(all == rest);
        }
    }
}

/// Reading back the crossfade after setting it: the command carries the
/// seconds, and where the daemon then reports those seconds, reading the
/// crossfade gives them again.
pub proof fn law_crossfade_read_back(seconds: u32, status: Status)
    requires
        status.crossfade_secs == Some(seconds as u64),
    ensures
        crossfade_command(seconds) matches MpdCommand::Crossfade(n) && n == seconds,
        reported_crossfade(status) == seconds,
{
}

/// The files that a folder walk adds, taking one step at a time from the
/// front of the steps still to take (as `FolderWalk::next` does): a file is
/// added; a folder is replaced by its own steps, `kids` of its path, put in
/// front of the rest (as `FolderWalk::enter` does). At most `fuel` steps are
/// taken.
pub open spec fn walk_run(
    kids: spec_fn(Seq<char>) -> Seq<(bool, Seq<char>)>,
    pending: Seq<(bool, Seq<char>)>,
    fuel: nat,
) -> Seq<Seq<char>>
    decreases fuel,
{
    if fuel == 0 || pending.len() == 0 {
        seq![]
    } else {
        let head = pending[0];
        if head.0 {
            walk_run(kids, kids(head.1) + pending.drop_first(), (fuel - 1) as nat)
        } else {
            seq![head.1] + walk_run(kids, pending.drop_first(), (fuel - 1) as nat)
        }
    }
}

/// The files of a depth-first walk of the given steps: each file in turn,
/// and for each folder all the files under it, before the steps after it.
/// Folders deeper than `depth` are not looked into.
pub open spec fn depth_first_files(
    kids: spec_fn(Seq<char>) -> Seq<(bool, Seq<char>)>,
    steps: Seq<(bool, Seq<char>)>,
    depth: nat,
) -> Seq<Seq<char>>
    decreases depth, steps.len(),
{
    if steps.len() == 0 {
        seq![]
    } else {
        let head = steps[0];
        let here = if head.0 {
            if depth == 0 {
                seq![]
            } else {
                depth_first_files(kids, kids(head.1), (depth - 1) as nat)
            }
        } else {
            seq![head.1]
        };
        here + depth_first_files(kids, steps.drop_first(), depth)
    }
}

/// The folders under the steps go no deeper than `depth`.
pub open spec fn walk_bounded(
    kids: spec_fn(Seq<char>) -> Seq<(bool, Seq<char>)>,
    steps: Seq<(bool, Seq<char>)>,
    depth: nat,
) -> bool
    decreases depth, steps.len(),
{
    if steps.len() == 0 {
        true
    } else {
        let head = steps[0];
        let here = if head.0 {
            if depth == 0 {
                false
            } else {
                walk_bounded(kids, kids(head.1), (depth - 1) as nat)
            }
        } else {
            true
        };
        here && walk_bounded(kids, steps.drop_first(), depth)
    }
}

/// The number of steps that walking the given steps takes.
pub open spec fn walk_length(
    kids: spec_fn(Seq<char>) -> Seq<(bool, Seq<char>)>,
    steps: Seq<(bool, Seq<char>)>,
    depth: nat,
) -> nat
    decreases depth, steps.len(),
{
    if steps.len() == 0 {
        0
    } else {
        let head = steps[0];
        let here: nat = if head.0 {
            if depth == 0 {
                1
            } else {
                1 + walk_length(kids, kids(head.1), (depth - 1) as nat)
            }
        } else {
            1
        };
        here + walk_length(kids, steps.drop_first(), depth)
    }
}

/// Adding a folder to the queue adds its files depth first: where the
/// folders go no deeper than `depth`, walking `steps` and then `rest` adds
/// all the files under `steps`, in depth-first order, before anything of
/// `rest`.
pub proof fn law_folder_walk_depth_first(
    kids: spec_fn(Seq<char>) -> Seq<(bool, Seq<char>)>,
    steps: Seq<(bool, Seq<char>)>,
    rest: Seq<(bool, Seq<char>)>,
    depth: nat,
    fuel: nat,
)
    requires
        walk_bounded(kids, steps, depth),
    ensures
        walk_run(kids, steps + rest, walk_length(kids, steps, depth) + fuel) == depth_first_files(
            kids,
            steps,
            depth,
        ) + walk_run(kids, rest, fuel),
    decreases depth, steps.len(),
{
    if steps.len() == 0 {
        assert(steps + rest =~= rest);
        assert(depth_first_files(kids, steps, depth) + walk_run(kids, rest, fuel) =~= walk_run(kids, rest, fuel));
    } else {
        let head = steps[0];
        let tail = steps.drop_first();
        assert((steps + rest)[0] == head);
        assert((steps + rest).drop_first() =~= tail + rest);
        let n_tail = walk_length(kids, tail, depth);
        if head.0 {
            let sub = kids(head.1);
            let n_sub = walk_length(kids, sub, (depth - 1) as nat);
            law_folder_walk_depth_first(kids, tail, rest, depth, fuel);
            law_folder_walk_depth_first(kids, sub, tail + rest, (depth - 1) as nat, n_tail + fuel);
            assert(sub + (tail + rest) =~= (sub + tail) + rest);
            assert(sub + ((steps + rest).drop_first()) =~= sub + (tail + rest));
            let total = walk_length(kids, steps, depth) + fuel;
            assert(total == 1 + n_sub + n_tail + fuel);
            assert(walk_run(kids, steps + rest, total) == walk_run(kids, sub + (tail + rest), (total - 1) as nat));
            assert(depth_first_files(kids, steps, depth) == depth_first_files(kids, sub, (depth - 1) as nat)
                + depth_first_files(kids, tail, depth));
            assert(depth_first_files(kids, sub, (depth - 1) as nat) + (depth_first_files(kids, tail, depth)
                + walk_run(kids, rest, fuel)) =~= depth_first_files(kids, steps, depth) + walk_run(kids, rest, fuel));
        } else {
            law_folder_walk_depth_first(kids, tail, rest, depth, fuel);
            let total = walk_length(kids, steps, depth) + fuel;
            assert(total == 1 + n_tail + fuel);
            assert(walk_run(kids, steps + rest, total) == seq![head.1] + walk_run(kids, tail + rest, (total - 1) as nat));
            assert(seq![head.1] + (depth_first_files(kids, tail, depth) + walk_run(kids, rest, fuel))
                =~= depth_first_files(kids, steps, depth) + walk_run(kids, rest, fuel));
        }
    }
}

/// Five presses of the art key return to the style one started from, and
/// no fewer do.
pub proof fn law_art_style_cycle(a: ArtStyle)
    ensures
        next_art_style(next_art_style(next_art_style(next_art_style(next_art_style(a))))) == a,
        next_art_style(a) != a,
        next_art_style(next_art_style(a)) != a,
        next_art_style(next_art_style(next_art_style(a))) != a,
        next_art_style(next_art_style(next_art_style(next_art_style(a)))) != a,
{
}

/// The track keys: the next-track key gives the next track and the
/// previous-track key the previous one (unless the key is also bound to
/// something tried before it), and neither answer comes from any other key.
pub proof fn law_track_keys(
    m: UiModel,
    keys: KeyConfig,
    ev: KeyEvent,
    controller: bool,
    track: Option<TrackStatus>,
    now_ms: u64,
)
    ensures
        pressed(ev, keys.next_track) && !pressed(ev, keys.play_pause) ==> player_step(
            m,
            keys,
            ev,
            controller,
            track,
            now_ms,
        ) == Some((m, ActionView::NextTrack)),
        pressed(ev, keys.prev_track) && !pressed(ev, keys.play_pause) && !pressed(ev, keys.next_track)
            ==> player_step(m, keys, ev, controller, track, now_ms) == Some((m, ActionView::PrevTrack)),
        player_step(m, keys, ev, controller, track, now_ms) matches Some((m2, ActionView::NextTrack))
            ==> pressed(ev, keys.next_track) && m2 == m,
        player_step(m, keys, ev, controller, track, now_ms) matches Some((m2, ActionView::PrevTrack))
            ==> pressed(ev, keys.prev_track) && !pressed(ev, keys.next_track) && m2 == m,
{
}

/// The gain keys of the equalizer: in its view, the gain-up key raises the
/// selected band and the gain-down key lowers it (unless the key is also
/// bound to something tried before it); a band is only ever raised by the
/// gain-up keys and lowered by the gain-down keys, and it is always the
/// selected band.
pub proof fn law_eq_gain_keys(m: UiModel, keys: KeyConfig, ev: KeyEvent, controller: bool)
    ensures
        ({
            let earlier = pressed(ev, keys.save_preset) || pressed(ev, keys.delete_preset) || pressed(
                ev,
                keys.nav_left,
            ) || pressed(ev, keys.nav_left_alt) || pressed(ev, keys.nav_right) || pressed(
                ev,
                keys.nav_right_alt,
            );
            let up = pressed(ev, keys.gain_up) || pressed(ev, keys.nav_up_alt);
            let down = pressed(ev, keys.gain_down) || pressed(ev, keys.nav_down_alt);
            &&& m.view_mode == ViewMode::EQ && up && !earlier ==> eq_step(m, keys, ev, controller) == Some(
                (m, ActionView::BandUp(m.eq_selected as usize)),
            )
            &&& m.view_mode == ViewMode::EQ && down && !up && !earlier ==> eq_step(m, keys, ev, controller)
                == Some((m, ActionView::BandDown(m.eq_selected as usize)))
            &&& eq_step(m, keys, ev, controller) matches Some((m2, ActionView::BandUp(b))) ==> up && b
                == m.eq_selected as usize && m2 == m
            &&& eq_step(m, keys, ev, controller) matches Some((m2, ActionView::BandDown(b))) ==> down && !up
                && b == m.eq_selected as usize && m2 == m
        }),
{
}

/// Scrolling the lyrics by hand: the line-down key selects the line after
/// the one scrolling starts from (the last line at most), so the selection
/// never moves up; the line-up key selects the line before it (the first
/// line at least), so it never moves down. The view follows the selection.
pub proof fn law_lyrics_scroll_keys(
    m: UiModel,
    keys: KeyConfig,
    ev: KeyEvent,
    lines: Seq<LyricLine>,
    pos_ms: u64,
    now_ms: u64,
)
    requires
        m.view_mode == ViewMode::Lyrics,
        lines.len() > 0,
        lines.len() <= usize::MAX,
        scroll_origin(m, lines, pos_ms) < lines.len(),
    ensures
        ({
            let o = scroll_origin(m, lines, pos_ms) as int;
            let last = lines.len() - 1;
            let down = pressed(ev, keys.nav_down) || pressed(ev, keys.nav_down_alt);
            let up = pressed(ev, keys.nav_up) || pressed(ev, keys.nav_up_alt);
            let r = lyrics_step(m, keys, ev, Some(lines), pos_ms, now_ms);
            &&& down ==> (r matches Some((m2, ActionView::Done)) && m2.lyrics_selected matches Some(s) && s
                == (if o + 1 <= last { o + 1 } else { last }) && o <= s && m2.lyrics_offset == Some(s))
            &&& up && !down ==> (r matches Some((m2, ActionView::Done)) && m2.lyrics_selected matches Some(s)
                && s == (if o > 0 { o - 1 } else { 0 }) && s <= o && m2.lyrics_offset == Some(s))
        }),
{
}

/// Enter on the playlists tab of the library loads the selected playlist
/// (unless the key is also bound to one of the keys tried before it).
pub proof fn law_enter_loads_selected_playlist(m: UiModel, keys: KeyConfig, ev: KeyEvent)
    requires
        m.view_mode == ViewMode::Library,
        m.library_mode == LibraryMode::Playlists,
        m.library_selected < m.playlists.len(),
        pressed(ev, keys.enter_dir),
        !pressed(ev, keys.tab_next),
        !pressed(ev, keys.tab_prev),
        !pressed(ev, keys.save_playlist),
        !pressed(ev, keys.rename_playlist),
        !pressed(ev, keys.edit_tags),
        !pressed(ev, keys.delete_item),
    ensures
        enter_action(m) == ActionView::LoadPlaylist(m.playlists[m.library_selected as int]),
        library_step(m, keys, ev, false) == Some(
            (m, ActionView::LoadPlaylist(m.playlists[m.library_selected as int])),
        ),
{
    reveal(enter_action);
}

/// The text that a fuzzy search scores for a song: its title, a space, its
/// artist, a space and its path (an absent title or artist as nothing), so
/// a query can match on any of the three.
pub proof fn law_search_text_parts(s: Song)
    ensures
        ({
            let t = match s.title {
                Some(x) => x@,
                None => Seq::<char>::empty(),
            };
            let a = match s.artist {
                Some(x) => x@,
                None => Seq::<char>::empty(),
            };
            let x = search_text(s);
            &&& x.len() == t.len() + a.len() + s.file@.len() + 2
            &&& x.subrange(0, t.len() as int) == t
            &&& x[t.len() as int] == ' '
            &&& x.subrange(t.len() + 1int, t.len() + 1int + a.len()) == a
            &&& x[t.len() + 1int + a.len()] == ' '
            &&& x.subrange(x.len() - s.file@.len(), x.len() as int) == s.file@
        }),
{
    reveal_strlit(" ");
    let t = match s.title {
        Some(x) => x@,
        None => Seq::<char>::empty(),
    };
    let a = match s.artist {
        Some(x) => x@,
        None => Seq::<char>::empty(),
    };
    let x = search_text(s);
    assert(x =~= t + seq![' '] + a + seq![' '] + s.file@);
    assert(x.subrange(0, t.len() as int) =~= t);
    assert(x.subrange(t.len() + 1int, t.len() + 1int + a.len()) =~= a);
    assert(x.subrange(x.len() - s.file@.len(), x.len() as int) =~= s.file@);
}

/// A fuzzy search scores each song by the text that holds its title, its
/// artist and its path.
pub proof fn law_search_scores_whole_text(songs: Seq<Song>, query: Seq<char>, i: int)
    requires
        0 <= i < songs.len(),
    ensures
        search_scores(songs, query).len() == songs.len(),
        search_scores(songs, query)[i] == skim_score(search_text(songs[i]), query),
{
}

/// The volume and seek keys go the right way: volume up never lowers the
/// volume and volume down never raises it (the volume stays as set), and a
/// fresh run of seeks goes five seconds forward for a forward key and five
/// back for a backward key, to a point not before (not after) where the
/// track is. A volume change or a seek comes from no other keys.
pub proof fn law_volume_and_seek_directions(
    m: UiModel,
    keys: KeyConfig,
    ev: KeyEvent,
    controller: bool,
    t: TrackStatus,
    now_ms: u64,
)
    requires
        m.app_volume <= 100,
        t.current_ms <= t.duration_ms,
        m.last_seek_ms is None,
    ensures
        ({
            let r = player_step(m, keys, ev, controller, Some(t), now_ms);
            let earlier = pressed(ev, keys.play_pause) || pressed(ev, keys.next_track) || pressed(
                ev,
                keys.prev_track,
            );
            let vol = pressed(ev, keys.volume_up) || pressed(ev, keys.volume_down);
            let back = pressed(ev, keys.seek_backward) || pressed(ev, keys.nav_left_alt);
            let fwd = pressed(ev, keys.seek_forward) || pressed(ev, keys.nav_right_alt);
            &&& pressed(ev, keys.volume_up) && !earlier ==> (r matches Some((m2, ActionView::SetVolume(v)))
                && v >= m.app_volume && v <= 100 && m2.app_volume == v)
            &&& pressed(ev, keys.volume_down) && !pressed(ev, keys.volume_up) && !earlier ==> (r matches Some(
                (m2, ActionView::SetVolume(v)),
            ) && v <= m.app_volume && m2.app_volume == v)
            &&& r matches Some((_, ActionView::SetVolume(v))) ==> (v > m.app_volume ==> pressed(
                ev,
                keys.volume_up,
            )) && (v < m.app_volume ==> pressed(ev, keys.volume_down) && !pressed(ev, keys.volume_up))
            &&& m.view_mode != ViewMode::EQ && fwd && !back && !earlier && !vol ==> (r matches Some(
                (_, ActionView::Seek { target_ms, offset_secs }),
            ) && offset_secs == 5 && target_ms >= t.current_ms)
            &&& m.view_mode != ViewMode::EQ && back && !earlier && !vol ==> (r matches Some(
                (_, ActionView::Seek { target_ms, offset_secs }),
            ) && offset_secs == -5 && target_ms <= t.current_ms)
            &&& r matches Some((_, ActionView::Seek { offset_secs, .. })) ==> (offset_secs == 5 && fwd) || (
            offset_secs == -5 && back)
        }),
{
}

/// The band-selection keys of the equalizer: left selects the band before
/// (the first at least), right the band after (the last at most).
pub proof fn law_eq_band_select_keys(m: UiModel, keys: KeyConfig, ev: KeyEvent, controller: bool)
    requires
        m.view_mode == ViewMode::EQ,
        !pressed(ev, keys.save_preset),
        !pressed(ev, keys.delete_preset),
    ensures
        ({
            let left = pressed(ev, keys.nav_left) || pressed(ev, keys.nav_left_alt);
            let right = pressed(ev, keys.nav_right) || pressed(ev, keys.nav_right_alt);
            let r = eq_step(m, keys, ev, controller);
            &&& left ==> r == Some(
                (
                    UiModel { eq_selected: if m.eq_selected > 0 { (m.eq_selected - 1) as nat } else { 0 }, ..m },
                    ActionView::Done,
                ),
            )
            &&& right && !left ==> (r matches Some((m2, ActionView::Done)) && m2.eq_selected >= m.eq_selected
                && (m.eq_selected < 9 ==> m2.eq_selected == m.eq_selected + 1))
        }),
{
}

/// Jumping to the selected lyric line: the jump key seeks to that line's
/// time and hands scrolling back to the song.
pub proof fn law_lyrics_jump_to_line(
    m: UiModel,
    keys: KeyConfig,
    ev: KeyEvent,
    lines: Seq<LyricLine>,
    pos_ms: u64,
    now_ms: u64,
    i: usize,
)
    requires
        m.view_mode == ViewMode::Lyrics,
        m.lyrics_selected == Some(i),
        i < lines.len(),
        pressed(ev, keys.seek_to_line),
        !pressed(ev, keys.nav_down),
        !pressed(ev, keys.nav_down_alt),
        !pressed(ev, keys.nav_up),
        !pressed(ev, keys.nav_up_alt),
    ensures
        lyrics_step(m, keys, ev, Some(lines), pos_ms, now_ms) matches Some((m2, a)) && a
            == ActionView::SeekToLine(lines[i as int].timestamp_ms) && m2.lyrics_selected is None
            && m2.lyrics_offset is None,
{
}

/// What Enter opens in each library tab: the selected queue position is
/// played, a selected folder is entered and a selected song played, a song
/// found by search is played, a selected playlist is loaded.
pub proof fn law_enter_opens_selection(m: UiModel)
    ensures
        ({
            let sel = m.library_selected;
            &&& m.library_mode == LibraryMode::Queue ==> enter_action(m) == ActionView::PlayQueuePosition(
                sel as u32,
            )
            &&& m.library_mode == LibraryMode::Playlists && sel < m.playlists.len() ==> enter_action(m)
                == ActionView::LoadPlaylist(m.playlists[sel as int])
            &&& m.library_mode == LibraryMode::Directory && sel < m.library_items.len()
                && m.library_items[sel as int].path is Some ==> {
                let item = m.library_items[sel as int];
                let p = item.path->0@;
                &&& item.item_type == LibraryItemType::Folder ==> enter_action(m) == ActionView::EnterFolder {
                    path: p,
                    name: item.name@,
                }
                &&& item.item_type == LibraryItemType::Song ==> enter_action(m) == ActionView::PlaySong(p)
            }
            &&& m.library_mode == LibraryMode::Search && sel < m.library_items.len()
                && m.library_items[sel as int].path is Some ==> enter_action(m) == ActionView::PlaySong(
                m.library_items[sel as int].path->0@,
            )
        }),
{
    reveal(enter_action);
}

/// A plain lower-case letter matches exactly the key name made of that
/// letter.
proof fn lemma_letter_press(c: char, ev: KeyEvent)
    requires
        'a' <= c <= 'z',
        ev.code == KeyCode::Char(c),
        !ev.modifiers.shift,
    ensures
        forall|name: Seq<char>| #[trigger] key_matches(ev, name) <==> (name.len() == 1 && name[0] == c),
{
    reveal(key_matches);
    reveal_strlit("Space");
    reveal_strlit("Enter");
    reveal_strlit("Backspace");
    reveal_strlit("Esc");
    reveal_strlit("Tab");
    reveal_strlit("BackTab");
    reveal_strlit("Up");
    reveal_strlit("Down");
    reveal_strlit("Left");
    reveal_strlit("Right");
    assert forall|name: Seq<char>| #[trigger] key_matches(ev, name) <==> (name.len() == 1 && name[0] == c) by {
        if name.len() == 1 && name[0] == c {
            assert(name.len() == 1);
            assert(name != "Space"@ && name != "Enter"@ && name != "Backspace"@ && name != "Esc"@);
            assert(name != "Tab"@ && name != "BackTab"@ && name != "Up"@ && name != "Down"@);
            assert(name != "Left"@ && name != "Right"@);
        }
        if key_matches(ev, name) {
            assert(name.len() == 1);
        }
    }
}

/// With the default bindings, in every view and whatever else is on the
/// screen, `n` skips to the next track and `p` goes back to the previous one.
pub proof fn law_default_track_keys(
    m: UiModel,
    keys: KeyConfig,
    ev: KeyEvent,
    controller: bool,
    lyrics: Option<Seq<LyricLine>>,
    track: Option<TrackStatus>,
    now_ms: u64,
)
    requires
        default_bindings(keys),
        !ev.modifiers.shift,
        ev.code == KeyCode::Char('n') || ev.code == KeyCode::Char('p'),
    ensures
        ev.code == KeyCode::Char('n') ==> key_step(m, keys, ev, controller, lyrics, track, now_ms) == Some(
            (m, ActionView::NextTrack),
        ),
        ev.code == KeyCode::Char('p') ==> key_step(m, keys, ev, controller, lyrics, track, now_ms) == Some(
            (m, ActionView::PrevTrack),
        ),
{
    reveal_strlit("+");
    reveal_strlit("-");
    reveal_strlit("/");
    reveal_strlit("0");
    reveal_strlit("1");
    reveal_strlit("2");
    reveal_strlit("3");
    reveal_strlit("4");
    reveal_strlit("?");
    reveal_strlit("A");
    reveal_strlit("B");
    reveal_strlit("BackTab");
    reveal_strlit("Backspace");
    reveal_strlit("D");
    reveal_strlit("Down");
    reveal_strlit("Enter");
    reveal_strlit("Esc");
    reveal_strlit("G");
    reveal_strlit("J");
    reveal_strlit("K");
    reveal_strlit("Left");
    reveal_strlit("R");
    reveal_strlit("Right");
    reveal_strlit("S");
    reveal_strlit("Space");
    reveal_strlit("Tab");
    reveal_strlit("Up");
    reveal_strlit("X");
    reveal_strlit("a");
    reveal_strlit("b");
    reveal_strlit("c");
    reveal_strlit("d");
    reveal_strlit("e");
    reveal_strlit("g");
    reveal_strlit("h");
    reveal_strlit("i");
    reveal_strlit("j");
    reveal_strlit("k");
    reveal_strlit("l");
    reveal_strlit("n");
    reveal_strlit("p");
    reveal_strlit("q");
    reveal_strlit("r");
    reveal_strlit("s");
    reveal_strlit("t");
    reveal_strlit("x");
    reveal_strlit("z");
    let c = if ev.code == KeyCode::Char('n') { 'n' } else { 'p' };
    lemma_letter_press(c, ev);
    assert(!pressed(ev, keys.quit));
    assert(common_step(m, keys, ev, controller) is None);
    assert(view_switch_step(m, keys, ev, controller) is None);
    assert(library_step(m, keys, ev, controller) is None);
    assert(eq_step(m, keys, ev, controller) is None);
    assert(lyrics_step(m, keys, ev, lyrics, reported_position(track), now_ms) is None);
    assert(!pressed(ev, keys.play_pause));
}

/// With the default bindings, in the equalizer view, `k` raises the
/// selected band and `j` lowers it.
pub proof fn law_default_gain_keys(
    m: UiModel,
    keys: KeyConfig,
    ev: KeyEvent,
    controller: bool,
    lyrics: Option<Seq<LyricLine>>,
    track: Option<TrackStatus>,
    now_ms: u64,
)
    requires
        default_bindings(keys),
        m.view_mode == ViewMode::EQ,
        !ev.modifiers.shift,
        ev.code == KeyCode::Char('k') || ev.code == KeyCode::Char('j'),
    ensures
        ev.code == KeyCode::Char('k') ==> key_step(m, keys, ev, controller, lyrics, track, now_ms) == Some(
            (m, ActionView::BandUp(m.eq_selected as usize)),
        ),
        ev.code == KeyCode::Char('j') ==> key_step(m, keys, ev, controller, lyrics, track, now_ms) == Some(
            (m, ActionView::BandDown(m.eq_selected as usize)),
        ),
{
    reveal_strlit("+");
    reveal_strlit("-");
    reveal_strlit("/");
    reveal_strlit("0");
    reveal_strlit("1");
    reveal_strlit("2");
    reveal_strlit("3");
    reveal_strlit("4");
    reveal_strlit("?");
    reveal_strlit("A");
    reveal_strlit("B");
    reveal_strlit("BackTab");
    reveal_strlit("Backspace");
    reveal_strlit("D");
    reveal_strlit("Down");
    reveal_strlit("Enter");
    reveal_strlit("Esc");
    reveal_strlit("G");
    reveal_strlit("J");
    reveal_strlit("K");
    reveal_strlit("Left");
    reveal_strlit("R");
    reveal_strlit("Right");
    reveal_strlit("S");
    reveal_strlit("Space");
    reveal_strlit("Tab");
    reveal_strlit("Up");
    reveal_strlit("X");
    reveal_strlit("a");
    reveal_strlit("b");
    reveal_strlit("c");
    reveal_strlit("d");
    reveal_strlit("e");
    reveal_strlit("g");
    reveal_strlit("h");
    reveal_strlit("i");
    reveal_strlit("j");
    reveal_strlit("k");
    reveal_strlit("l");
    reveal_strlit("n");
    reveal_strlit("p");
    reveal_strlit("q");
    reveal_strlit("r");
    reveal_strlit("s");
    reveal_strlit("t");
    reveal_strlit("x");
    reveal_strlit("z");
    let c = if ev.code == KeyCode::Char('k') { 'k' } else { 'j' };
    lemma_letter_press(c, ev);
    assert(common_step(m, keys, ev, controller) is None);
    assert(view_switch_step(m, keys, ev, controller) is None);
}

/// With the default bindings, in the lyrics view with lines loaded, `j`
/// selects the line after the one scrolling starts from (the last at most)
/// and `k` the line before it (the first at least).
pub proof fn law_default_lyrics_keys(
    m: UiModel,
    keys: KeyConfig,
    ev: KeyEvent,
    controller: bool,
    lines: Seq<LyricLine>,
    track: Option<TrackStatus>,
    now_ms: u64,
)
    requires
        default_bindings(keys),
        m.view_mode == ViewMode::Lyrics,
        lines.len() > 0,
        lines.len() <= usize::MAX,
        scroll_origin(m, lines, reported_position(track)) < lines.len(),
        !ev.modifiers.shift,
        ev.code == KeyCode::Char('j') || ev.code == KeyCode::Char('k'),
    ensures
        ({
            let o = scroll_origin(m, lines, reported_position(track)) as int;
            let last = lines.len() - 1;
            let r = key_step(m, keys, ev, controller, Some(lines), track, now_ms);
            &&& ev.code == KeyCode::Char('j') ==> (r matches Some((m2, ActionView::Done))
                && m2.lyrics_selected == Some((if o + 1 <= last { o + 1 } else { last }) as usize))
            &&& ev.code == KeyCode::Char('k') ==> (r matches Some((m2, ActionView::Done))
                && m2.lyrics_selected == Some((if o > 0 { o - 1 } else { 0 }) as usize))
        }),
{
    reveal_strlit("+");
    reveal_strlit("-");
    reveal_strlit("/");
    reveal_strlit("0");
    reveal_strlit("1");
    reveal_strlit("2");
    reveal_strlit("3");
    reveal_strlit("4");
    reveal_strlit("?");
    reveal_strlit("A");
    reveal_strlit("B");
    reveal_strlit("BackTab");
    reveal_strlit("Backspace");
    reveal_strlit("D");
    reveal_strlit("Down");
    reveal_strlit("Enter");
    reveal_strlit("Esc");
    reveal_strlit("G");
    reveal_strlit("J");
    reveal_strlit("K");
    reveal_strlit("Left");
    reveal_strlit("R");
    reveal_strlit("Right");
    reveal_strlit("S");
    reveal_strlit("Space");
    reveal_strlit("Tab");
    reveal_strlit("Up");
    reveal_strlit("X");
    reveal_strlit("a");
    reveal_strlit("b");
    reveal_strlit("c");
    reveal_strlit("d");
    reveal_strlit("e");
    reveal_strlit("g");
    reveal_strlit("h");
    reveal_strlit("i");
    reveal_strlit("j");
    reveal_strlit("k");
    reveal_strlit("l");
    reveal_strlit("n");
    reveal_strlit("p");
    reveal_strlit("q");
    reveal_strlit("r");
    reveal_strlit("s");
    reveal_strlit("t");
    reveal_strlit("x");
    reveal_strlit("z");
    let c = if ev.code == KeyCode::Char('j') { 'j' } else { 'k' };
    lemma_letter_press(c, ev);
    assert(common_step(m, keys, ev, controller) is None);
    assert(view_switch_step(m, keys, ev, controller) is None);
    law_lyrics_scroll_keys(m, keys, ev, lines, reported_position(track), now_ms);
}

/// The Enter key matches exactly the key name `Enter`.
proof fn lemma_enter_press(ev: KeyEvent)
    requires
        ev.code == KeyCode::Enter,
    ensures
        forall|name: Seq<char>| #[trigger] key_matches(ev, name) <==> (name.len() == 5 && name == "Enter"@),
{
    reveal(key_matches);
    reveal_strlit("Space");
    reveal_strlit("Enter");
    reveal_strlit("Backspace");
    reveal_strlit("Esc");
    reveal_strlit("Tab");
    reveal_strlit("BackTab");
    reveal_strlit("Up");
    reveal_strlit("Down");
    reveal_strlit("Left");
    reveal_strlit("Right");
    assert forall|name: Seq<char>| #[trigger] key_matches(ev, name) <==> (name.len() == 5 && name == "Enter"@) by {
        if name == "Enter"@ {
            assert(name[0] == 'E' && "Space"@[0] == 'S' && "Right"@[0] == 'R');
            assert(name != "Space"@ && name != "Right"@);
        }
    }
}

/// With the default bindings, Enter on the playlists tab of the library
/// loads the selected playlist.
pub proof fn law_default_enter_loads_playlist(
    m: UiModel,
    keys: KeyConfig,
    ev: KeyEvent,
    lyrics: Option<Seq<LyricLine>>,
    track: Option<TrackStatus>,
    now_ms: u64,
)
    requires
        default_bindings(keys),
        m.view_mode == ViewMode::Library,
        m.library_mode == LibraryMode::Playlists,
        m.library_selected < m.playlists.len(),
        ev.code == KeyCode::Enter,
    ensures
        key_step(m, keys, ev, false, lyrics, track, now_ms) == Some(
            (m, ActionView::LoadPlaylist(m.playlists[m.library_selected as int])),
        ),
{
    reveal_strlit("+");
    reveal_strlit("-");
    reveal_strlit("/");
    reveal_strlit("0");
    reveal_strlit("1");
    reveal_strlit("2");
    reveal_strlit("3");
    reveal_strlit("4");
    reveal_strlit("?");
    reveal_strlit("A");
    reveal_strlit("B");
    reveal_strlit("BackTab");
    reveal_strlit("Backspace");
    reveal_strlit("D");
    reveal_strlit("Down");
    reveal_strlit("Enter");
    reveal_strlit("Esc");
    reveal_strlit("G");
    reveal_strlit("J");
    reveal_strlit("K");
    reveal_strlit("Left");
    reveal_strlit("R");
    reveal_strlit("Right");
    reveal_strlit("S");
    reveal_strlit("Space");
    reveal_strlit("Tab");
    reveal_strlit("Up");
    reveal_strlit("X");
    reveal_strlit("a");
    reveal_strlit("b");
    reveal_strlit("c");
    reveal_strlit("d");
    reveal_strlit("e");
    reveal_strlit("g");
    reveal_strlit("h");
    reveal_strlit("i");
    reveal_strlit("j");
    reveal_strlit("k");
    reveal_strlit("l");
    reveal_strlit("n");
    reveal_strlit("p");
    reveal_strlit("q");
    reveal_strlit("r");
    reveal_strlit("s");
    reveal_strlit("t");
    reveal_strlit("x");
    reveal_strlit("z");
    lemma_enter_press(ev);
    assert(common_step(m, keys, ev, false) is None);
    assert(view_switch_step(m, keys, ev, false) is None);
    law_enter_loads_selected_playlist(m, keys, ev);
}

/// Each answer of the playback keys comes from its own key: play/pause from
/// the play key, the shuffle and repeat changes from their keys, the next
/// and previous device from theirs, the art style from the art key; and the
/// play key reports whether the track was playing.
pub proof fn law_player_answers_from_their_keys(
    m: UiModel,
    keys: KeyConfig,
    ev: KeyEvent,
    controller: bool,
    track: Option<TrackStatus>,
    now_ms: u64,
)
    ensures
        ({
            let r = player_step(m, keys, ev, controller, track, now_ms);
            &&& (r matches Some((_, ActionView::PlayPause { was_playing })) ==> pressed(ev, keys.play_pause)
                && was_playing == (track matches Some(t) && t.playing))
            &&& pressed(ev, keys.play_pause) ==> (r matches Some((_, ActionView::PlayPause { .. })))
            &&& (r matches Some((_, ActionView::ToggleDaemonShuffle)) ==> pressed(ev, keys.shuffle) && !controller)
            &&& (r matches Some((m2, ActionView::SetShuffle(on))) ==> pressed(ev, keys.shuffle) && controller && on
                == !m.shuffle && m2.shuffle == on)
            &&& (r matches Some((_, ActionView::SetDaemonRepeat(next))) ==> pressed(ev, keys.repeat) && !controller
                && next == next_repeat(m.repeat))
            &&& (r matches Some((m2, ActionView::SetRepeat(next))) ==> pressed(ev, keys.repeat) && controller && next
                == next_repeat(m.repeat) && m2.repeat == next)
            &&& (r matches Some((_, ActionView::NextDevice)) ==> pressed(ev, keys.device_next))
            &&& (r matches Some((_, ActionView::PrevDevice)) ==> pressed(ev, keys.device_prev) && !pressed(
                ev,
                keys.device_next,
            ))
            &&& (r matches Some((_, ActionView::CycleArt)) ==> pressed(ev, keys.cycle_art))
        }),
{
}

/// Each answer of the equalizer keys comes from its own key, and of a pair
/// of opposite keys the second answers only where the first is not pressed:
/// next and previous preset, preamp up and down, balance right and left;
/// switching the equalizer, resetting it and its levels, and deleting a
/// preset likewise.
pub proof fn law_eq_answers_from_their_keys(m: UiModel, keys: KeyConfig, ev: KeyEvent, controller: bool)
    ensures
        ({
            let r = eq_step(m, keys, ev, controller);
            &&& (r matches Some((_, ActionView::NextPreset)) ==> pressed(ev, keys.tab_next))
            &&& (r matches Some((_, ActionView::PrevPreset)) ==> pressed(ev, keys.tab_prev) && !pressed(
                ev,
                keys.tab_next,
            ))
            &&& (r matches Some((_, ActionView::PreampUp)) ==> pressed(ev, keys.preamp_up))
            &&& (r matches Some((_, ActionView::PreampDown)) ==> pressed(ev, keys.preamp_down) && !pressed(
                ev,
                keys.preamp_up,
            ))
            &&& (r matches Some((_, ActionView::BalanceRight)) ==> pressed(ev, keys.balance_right))
            &&& (r matches Some((_, ActionView::BalanceLeft)) ==> pressed(ev, keys.balance_left) && !pressed(
                ev,
                keys.balance_right,
            ))
            &&& (r matches Some((_, ActionView::ToggleEq)) ==> pressed(ev, keys.toggle_eq))
            &&& (r matches Some((_, ActionView::ResetEq)) ==> pressed(ev, keys.reset_eq))
            &&& (r matches Some((_, ActionView::ResetLevels)) ==> pressed(ev, keys.reset_levels))
            &&& (r matches Some((_, ActionView::DeletePreset)) ==> pressed(ev, keys.delete_preset))
        }),
{
}

/// What the library keys act on is the selected row: a playlist is loaded,
/// a queue position played, an entry added to the queue, a folder entered
/// or a song played only if it is the selected one, and only by the keys
/// that open or add.
pub proof fn law_library_acts_on_selection(m: UiModel, keys: KeyConfig, ev: KeyEvent, controller: bool)
    ensures
        library_step(m, keys, ev, controller) matches Some((_, ActionView::LoadPlaylist(p))) ==> (pressed(
            ev,
            keys.enter_dir,
        ) || pressed(ev, keys.nav_right)) && m.library_mode == LibraryMode::Playlists && m.library_selected
            < m.playlists.len() && p == m.playlists[m.library_selected as int],
        library_step(m, keys, ev, controller) matches Some((_, ActionView::PlayQueuePosition(i))) ==> (pressed(
            ev,
            keys.enter_dir,
        ) || pressed(ev, keys.nav_right)) && m.library_mode == LibraryMode::Queue && i
            == m.library_selected as u32,
        library_step(m, keys, ev, controller) matches Some((_, ActionView::AddToQueue(item))) ==> pressed(
            ev,
            keys.add_to_queue,
        ) && m.library_selected < m.library_items.len() && item == m.library_items[m.library_selected as int],
        library_step(m, keys, ev, controller) matches Some((_, ActionView::EnterFolder { path, name })) ==> (
        pressed(ev, keys.enter_dir) || pressed(ev, keys.nav_right)) && m.library_selected
            < m.library_items.len() && m.library_items[m.library_selected as int].item_type
            == LibraryItemType::Folder && (m.library_items[m.library_selected as int].path matches Some(q)
            && q@ == path) && name == m.library_items[m.library_selected as int].name@,
        library_step(m, keys, ev, controller) matches Some((_, ActionView::PlaySong(p))) ==> (pressed(
            ev,
            keys.enter_dir,
        ) || pressed(ev, keys.nav_right)) && m.library_selected < m.library_items.len() && (
        m.library_items[m.library_selected as int].path matches Some(q) && q@ == p),
{
    reveal(edit_tags_action);
    reveal(enter_action);
    reveal(tab_next_step);
    reveal(tab_prev_step);
    reveal(rename_step);
    reveal(delete_step);
    reveal(search_back_step);
    reveal(dir_back_step);
}

} // verus!
