//! Decisions of the main loop between key presses: the toast message, the
//! extrapolated play position, following the player's volume, gapless
//! albums, lyrics scrolling back to the current line, and when to redraw.
//! Times are milliseconds of a clock that the caller reads.

use vstd::prelude::*;
use crate::text::str_concat;

verus! {

/// How long a toast stays, in milliseconds.
pub const TOAST_MS: u64 = 2000;

/// A short message shown over the interface.
#[derive(Debug, Clone)]
pub struct Toast {
    pub message: String,
    /// When it first appeared.
    pub start_time: u64,
    /// When it goes away.
    pub deadline: u64,
}

/// Shows a message for two seconds. A toast already shown takes the new
/// message and deadline but keeps its start, so that it does not appear
/// anew.
pub fn show_toast(toast: &mut Option<Toast>, message: &str, now: u64)
    requires
        now + TOAST_MS <= u64::MAX,
    ensures
        *final(toast) matches Some(t) && t.message@ == message@ && t.deadline == now + TOAST_MS
            && t.start_time == (match *old(toast) {
                Some(o) => o.start_time,
                None => now,
            }),
{
    let deadline = now + TOAST_MS;
    match toast {
        Some(current) => {
            current.message = message.to_owned();
            current.deadline = deadline;
        },
        None => {
            *toast = Some(Toast { message: message.to_owned(), start_time: now, deadline });
        },
    }
}

/// A tick of the clock: a toast past its deadline goes away.
pub fn on_tick(toast: &mut Option<Toast>, now: u64)
    ensures
        match *old(toast) {
            Some(t) => if now > t.deadline {
                *final(toast) is None
            } else {
                *final(toast) == *old(toast)
            },
            None => *final(toast) is None,
        },
{
    let expired = match toast {
        Some(t) => now > t.deadline,
        None => false,
    };
    if expired {
        *toast = None;
    }
}

/// The play position now: while playing, the last reported position plus
/// the time since the report, at most the length; else the reported one.
pub open spec fn position_now(position_ms: u64, duration_ms: u64, playing: bool, since_report: Option<u64>) -> u64 {
    match since_report {
        Some(e) => if playing {
            if position_ms + e < duration_ms {
                (position_ms + e) as u64
            } else {
                duration_ms
            }
        } else {
            position_ms
        },
        None => position_ms,
    }
}

/// The play position now (see `position_now`); 0 without a track.
pub fn get_current_position_ms(track: Option<(u64, u64, bool)>, since_report: Option<u64>) -> (r: u64)
    requires
        match (track, since_report) {
            (Some((p, d, pl)), Some(e)) => pl ==> p + e <= u64::MAX,
            _ => true,
        },
    ensures
        r == (match track {
            Some((p, d, pl)) => position_now(p, d, pl, since_report),
            None => 0,
        }),
{
    match track {
        Some((p, d, playing)) => {
            if playing {
                match since_report {
                    Some(e) => {
                        let t = p + e;
                        if t < d {
                            t
                        } else {
                            d
                        }
                    },
                    None => p,
                }
            } else {
                p
            }
        },
        None => 0,
    }
}

/// The volume to take over from the player's report: none right after a
/// volume key (within a second), none where the music daemon reports 0 while
/// the interface is not at 0 (which it does when it has no mixer), and none
/// where the two differ by at most one; else the reported volume, at most
/// 100.
pub open spec fn synced_volume(app_volume: u8, is_daemon: bool, reported: Option<u32>, recent_volume_key: bool) -> Option<u8> {
    let daemon_bug = is_daemon && (match reported {
        Some(v) => v,
        None => 0,
    }) == 0 && app_volume > 0;
    if recent_volume_key || daemon_bug {
        None
    } else {
        match reported {
            Some(v) => {
                let nv: u8 = if (v as u8) < 100 { v as u8 } else { 100u8 };
                let diff = app_volume - nv;
                if diff > 1 || diff < -1 {
                    Some(nv)
                } else {
                    None
                }
            },
            None => None,
        }
    }
}

/// The volume to take over from the player's report (see `synced_volume`).
pub fn sync_volume(app_volume: u8, is_daemon: bool, reported: Option<u32>, recent_volume_key: bool) -> (r: Option<u8>)
    ensures
        r == synced_volume(app_volume, is_daemon, reported, recent_volume_key),
{
    let rv: u32 = match reported {
        Some(v) => v,
        None => 0,
    };
    let daemon_bug = is_daemon && rv == 0 && app_volume > 0;
    if recent_volume_key || daemon_bug {
        return None;
    }
    match reported {
        Some(v) => {
            let b: u8 = v as u8;
            let nv: u8 = if b < 100 { b } else { 100 };
            let diff: i16 = app_volume as i16 - nv as i16;
            if diff > 1 || diff < -1 {
                Some(nv)
            } else {
                None
            }
        },
        None => None,
    }
}

/// Gapless playback: the new track is from the album of the previous one,
/// both albums being known.
pub fn is_gapless(album: &str, last_album: &str) -> (r: bool)
    ensures
        r == (album@.len() > 0 && last_album@.len() > 0 && album@ == last_album@),
{
    let a = crate::text::chars_of(album);
    let b = crate::text::chars_of(last_album);
    a.len() > 0 && b.len() > 0 && crate::text::seq_eq(&a, &b)
}

/// What identifies a track for the lyrics: its name, then its artist.
pub fn track_id(name: &str, artist: &str) -> (r: String)
    ensures
        r@ == name@ + artist@,
{
    str_concat(name, artist)
}

/// A clock tick asks for a redraw: always while the visualizer shows, the
/// lyrics scroll back or a toast shows; else every thirtieth tick while a
/// track is known.
pub fn redraw_on_tick(visualizer: bool, animating_lyrics: bool, toast: bool, has_track: bool, tick_count: u64) -> (r: bool)
    ensures
        r == (visualizer || animating_lyrics || toast || (has_track && tick_count % 30 == 0)),
{
    visualizer || animating_lyrics || toast || (has_track && tick_count % 30 == 0)
}

/// One step of a scroll position towards `target`: nearer by one, or `None`
/// once there (or where there is no scroll position).
pub open spec fn step_towards(cur: Option<usize>, target: usize) -> (Option<usize>, bool) {
    match cur {
        Some(c) => if c < target {
            (Some((c + 1) as usize), false)
        } else if c > target {
            (Some((c - 1) as usize), false)
        } else {
            (Some(c), true)
        },
        None => (None, true),
    }
}

/// The lyrics scrolling back to the current line, one tick of 16 ms: the
/// ticks add up, and each time 50 ms have gathered, the view position and
/// the selection move one line towards the current line; when both are
/// there, scrolling ends and both are cleared.
pub open spec fn scroll_back_step(accum_ms: u64, offset: Option<usize>, selected: Option<usize>, target: usize) -> (u64, Option<usize>, Option<usize>) {
    let acc = accum_ms + 16;
    if acc >= 50 {
        let (o, done_o) = step_towards(offset, target);
        let (s, done_s) = step_towards(selected, target);
        if done_o && done_s {
            (0, None, None)
        } else {
            (0, o, s)
        }
    } else {
        (acc as u64, offset, selected)
    }
}

fn step_one(cur: Option<usize>, target: usize) -> (r: (Option<usize>, bool))
    ensures
        r == step_towards(cur, target),
{
    match cur {
        Some(c) => if c < target {
            (Some(c + 1), false)
        } else if c > target {
            (Some(c - 1), false)
        } else {
            (Some(c), true)
        },
        None => (None, true),
    }
}

/// One tick of lyrics scrolling back (see `scroll_back_step`).
pub fn scroll_back_tick(accum_ms: u64, offset: Option<usize>, selected: Option<usize>, target: usize) -> (r: (u64, Option<usize>, Option<usize>))
    ensures
        r == scroll_back_step(accum_ms, offset, selected, target),
        r.0 < 50,
{
    if accum_ms >= 34 {
        let (o, done_o) = step_one(offset, target);
        let (s, done_s) = step_one(selected, target);
        if done_o && done_s {
            (0, None, None)
        } else {
            (0, o, s)
        }
    } else {
        (accum_ms + 16, offset, selected)
    }
}

} // verus!
