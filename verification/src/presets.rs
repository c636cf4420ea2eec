//! Choosing among equalizer presets by name and position. The presets' band
//! levels stay with the caller; these functions decide which preset is
//! selected, and which ones are kept, added or removed.

use vstd::prelude::*;
use crate::audio::{find_position, position_of};
use crate::mpd::string_views;

verus! {

/// The preset selected at start: the one last used, found by name, else the
/// first.
pub fn initial_preset(names: &Vec<String>, last_name: &str) -> (r: usize)
    ensures
        r == (match position_of(string_views(names@), last_name@, 0) {
            Some(i) => i as usize,
            None => 0,
        }),
{
    match find_position(names, last_name) {
        Some(i) => i,
        None => 0,
    }
}

/// The next preset, after the last the first.
pub fn next_preset(selected: usize, count: usize) -> (r: usize)
    requires
        count > 0,
        selected < usize::MAX,
    ensures
        r == (selected + 1) % (count as int),
        r < count,
{
    (selected + 1) % count
}

/// The previous preset, before the first the last.
pub fn prev_preset(selected: usize, count: usize) -> (r: usize)
    requires
        count > 0,
    ensures
        r == (if selected == 0 { count - 1 } else { selected - 1 }),
{
    if selected == 0 {
        count - 1
    } else {
        selected - 1
    }
}

/// The name of the selected preset, or "Unknown" where none is.
pub fn get_preset_name(names: &Vec<String>, selected: usize) -> (r: String)
    ensures
        r@ == (if selected < names.len() { names@[selected as int]@ } else { "Unknown"@ }),
{
    if selected < names.len() {
        names[selected].clone()
    } else {
        "Unknown".to_owned()
    }
}

/// Hand-adjusted bands are kept in the preset named "Custom": the position
/// to select, and whether a "Custom" preset must first be put in front (where
/// there is none).
pub fn mark_custom(names: &Vec<String>) -> (r: (usize, bool))
    ensures
        r == (match position_of(string_views(names@), "Custom"@, 0) {
            Some(i) => (i as usize, false),
            None => (0usize, true),
        }),
{
    match find_position(names, "Custom") {
        Some(i) => (i, false),
        None => (0, true),
    }
}

/// Why a preset cannot be deleted.
pub open spec fn delete_refusal(names: Seq<Seq<char>>, selected: int, builtin: Seq<Seq<char>>) -> Option<Seq<char>> {
    if selected >= names.len() {
        Some("No preset selected"@)
    } else if builtin.contains(names[selected]) {
        Some("Cannot delete built-in preset"@)
    } else {
        None
    }
}

/// Deletes the selected preset unless it is one of the built-in ones: the
/// position to remove and the selection after it (the same position, or the
/// new last one where the selection ran past the end).
pub fn delete_preset(names: &Vec<String>, selected: usize, builtin: &Vec<String>) -> (r: Result<(usize, usize), String>)
    ensures
        match delete_refusal(string_views(names@), selected as int, string_views(builtin@)) {
            Some(msg) => r matches Err(e) && e@ == msg,
            None => r matches Ok((removed, next)) && removed == selected && next == (
                if selected >= names.len() - 1 {
                    if names.len() >= 2 { names.len() - 2 } else { 0 }
                } else {
                    selected as int
                }),
        },
{
    if selected >= names.len() {
        return Err("No preset selected".to_owned());
    }
    let found = find_position(builtin, names[selected].as_str());
    proof {
        let sv = string_views(builtin@);
        let x = names@[selected as int]@;
        assert(string_views(names@)[selected as int] == x);
        lemma_position_contains(sv, x, 0);
    }
    if found.is_some() {
        return Err("Cannot delete built-in preset".to_owned());
    }
    let remaining = names.len() - 1;
    let next = if selected >= remaining {
        if remaining >= 1 { remaining - 1 } else { 0 }
    } else {
        selected
    };
    Ok((selected, next))
}

/// A first position is found from `i` on exactly where the entry occurs
/// from `i` on.
proof fn lemma_position_contains(v: Seq<Seq<char>>, x: Seq<char>, i: nat)
    requires
        i <= v.len(),
    ensures
        (position_of(v, x, i) is Some) == (exists|k: int| i <= k < v.len() && v[k] == x),
    decreases v.len() - i,
{
    if i < v.len() {
        lemma_position_contains(v, x, i + 1);
        if v[i as int] != x {
            if exists|k: int| i <= k < v.len() && v[k] == x {
                let k = choose|k: int| i <= k < v.len() && v[k] == x;
                assert(i + 1 <= k);
            }
        }
    }
}

/// The presets that are saved: those whose name is not a built-in one, as
/// positions in order.
pub open spec fn user_presets(names: Seq<Seq<char>>, builtin: Seq<Seq<char>>) -> Seq<int>
    decreases names.len(),
{
    if names.len() == 0 {
        seq![]
    } else {
        let rest = user_presets(names.drop_last(), builtin);
        if builtin.contains(names.last()) {
            rest
        } else {
            rest.push(names.len() - 1)
        }
    }
}

/// The positions of the presets to save (see `user_presets`).
pub fn saved_presets(names: &Vec<String>, builtin: &Vec<String>) -> (r: Vec<usize>)
    ensures
        r@.len() == user_presets(string_views(names@), string_views(builtin@)).len(),
        forall|k: int| 0 <= k < r@.len() ==> r@[k] as int == #[trigger] user_presets(string_views(names@), string_views(builtin@))[k],
{
    let ghost nv = string_views(names@);
    let ghost bv = string_views(builtin@);
    let mut out: Vec<usize> = Vec::new();
    let mut i: usize = 0;
    while i < names.len()
        invariant
            i <= names.len(),
            nv == string_views(names@),
            bv == string_views(builtin@),
            out@.len() == user_presets(nv.take(i as int), bv).len(),
            forall|k: int| 0 <= k < out@.len() ==> out@[k] as int == #[trigger] user_presets(nv.take(i as int), bv)[k],
        decreases names.len() - i,
    {
        assert(nv.take(i + 1).drop_last() =~= nv.take(i as int));
        assert(nv.take(i + 1).last() == nv[i as int]);
        assert(nv[i as int] == names@[i as int]@);
        let found = find_position(builtin, names[i].as_str());
        proof {
            lemma_position_contains(bv, nv[i as int], 0);
        }
        if found.is_none() {
            out.push(i);
        }
        i = i + 1;
    }
    assert(nv.take(names.len() as int) =~= nv);
    out
}

/// Resetting the equalizer: the position of the "Custom" preset, whose
/// bands go flat too, and of the "Flat" preset, which becomes the selection.
pub fn reset_eq(names: &Vec<String>) -> (r: (Option<usize>, Option<usize>))
    ensures
        match position_of(string_views(names@), "Custom"@, 0) {
            Some(i) => r.0 == Some(i as usize),
            None => r.0 is None,
        },
        match position_of(string_views(names@), "Flat"@, 0) {
            Some(i) => r.1 == Some(i as usize),
            None => r.1 is None,
        },
{
    (find_position(names, "Custom"), find_position(names, "Flat"))
}

/// The names of the built-in presets, in the order in which they are
/// offered.
pub open spec fn builtin_names() -> Seq<Seq<char>> {
    seq![
        "Flat"@,
        "Acoustic"@,
        "Bass Booster"@,
        "Bass Reducer"@,
        "Classical"@,
        "Dance"@,
        "Deep"@,
        "Electronic"@,
        "Hip-Hop"@,
        "Jazz"@,
        "Late Night"@,
        "Latin"@,
        "Loudness"@,
        "Lounge"@,
        "Piano"@,
        "Pop"@,
        "R&B"@,
        "Rock"@,
        "Small Speakers"@,
        "Spoken Word"@,
    ]
}

/// The names of the built-in presets (see `builtin_names`); these cannot be
/// deleted and are not saved between runs.
pub fn builtin_preset_names() -> (r: Vec<String>)
    ensures
        string_views(r@) == builtin_names(),
{
    let mut v: Vec<String> = Vec::new();
    v.push("Flat".to_owned());
    v.push("Acoustic".to_owned());
    v.push("Bass Booster".to_owned());
    v.push("Bass Reducer".to_owned());
    v.push("Classical".to_owned());
    v.push("Dance".to_owned());
    v.push("Deep".to_owned());
    v.push("Electronic".to_owned());
    v.push("Hip-Hop".to_owned());
    v.push("Jazz".to_owned());
    v.push("Late Night".to_owned());
    v.push("Latin".to_owned());
    v.push("Loudness".to_owned());
    v.push("Lounge".to_owned());
    v.push("Piano".to_owned());
    v.push("Pop".to_owned());
    v.push("R&B".to_owned());
    v.push("Rock".to_owned());
    v.push("Small Speakers".to_owned());
    v.push("Spoken Word".to_owned());
    assert(string_views(v@) =~= builtin_names());
    v
}

} // verus!

