//! Choosing album art among the answers of the iTunes search service.

use vstd::prelude::*;
use crate::text::{
    before_first, trim, lowercase, to_lowercase, chars_of, prefix_before, trimmed, contains, has_sub,
    seq_eq, replace, replace_all, string_of, str_concat,
};
use crate::mpd::opt_view;

verus! {

/// A name reduced for comparing: lower case (see `cleaned_lower`).
pub open spec fn cleaned(s: Seq<char>) -> Seq<char> {
    cleaned_lower(lowercase(s))
}

/// A lower-case name reduced for comparing: cut at the first `(`, `[` and
/// `feat`, trimmed.
pub open spec fn cleaned_lower(s: Seq<char>) -> Seq<char> {
    trim(before_first(before_first(before_first(s, "("@), "["@), "feat"@))
}

/// A name reduced for comparing (see `cleaned`).
pub fn clean_string(s: &str) -> (r: Vec<char>)
    ensures
        r@ == cleaned(s@),
{
    clean_lowered(to_lowercase(s).as_str())
}

/// A lower-case name reduced for comparing (see `cleaned_lower`).
pub fn clean_lowered(lower: &str) -> (r: Vec<char>)
    ensures
        r@ == cleaned_lower(lower@),
{
    let lower = chars_of(lower);
    let t = prefix_before(&lower, &chars_of("("));
    let t = prefix_before(&t, &chars_of("["));
    let t = prefix_before(&t, &chars_of("feat"));
    trimmed(&t)
}

/// The search term: the cleaned artist and album, separated by a space.
pub fn search_term(artist: &str, album: &str) -> (r: String)
    ensures
        r@ == cleaned(artist@) + " "@ + cleaned(album@),
{
    let a = string_of(&clean_string(artist));
    let b = string_of(&clean_string(album));
    let head = str_concat(a.as_str(), " ");
    str_concat(head.as_str(), b.as_str())
}

/// One album that the search service found.
#[derive(Debug, Clone)]
pub struct ItunesResult {
    /// Address of a 100×100 cover.
    pub artwork_url: String,
    pub collection_name: Option<String>,
    pub artist_name: Option<String>,
}

/// One name contains the other.
pub open spec fn related(a: Seq<char>, b: Seq<char>) -> bool {
    contains(a, b) || contains(b, a)
}

/// An album by the artist searched for (an album without an artist counts).
pub open spec fn by_artist(r: ItunesResult, artist: Seq<char>) -> bool {
    match r.artist_name {
        Some(n) => related(cleaned(n@), cleaned(artist)),
        None => true,
    }
}

/// An album whose name fits the album searched for.
pub open spec fn fits_album(r: ItunesResult, album: Seq<char>) -> bool {
    match r.collection_name {
        Some(n) => cleaned(n@) == cleaned(album) || related(cleaned(n@), cleaned(album)),
        None => false,
    }
}

/// The first result from index `i` on that is by the artist and fits the
/// album.
pub open spec fn first_fitting(rs: Seq<ItunesResult>, artist: Seq<char>, album: Seq<char>, i: nat) -> Option<nat>
    decreases rs.len() - i,
{
    if i >= rs.len() {
        None
    } else if by_artist(rs[i as int], artist) && fits_album(rs[i as int], album) {
        Some(i)
    } else {
        first_fitting(rs, artist, album, i + 1)
    }
}

/// The first result from index `i` on that is by the artist.
pub open spec fn first_by_artist(rs: Seq<ItunesResult>, artist: Seq<char>, i: nat) -> Option<nat>
    decreases rs.len() - i,
{
    if i >= rs.len() {
        None
    } else if by_artist(rs[i as int], artist) {
        Some(i)
    } else {
        first_by_artist(rs, artist, i + 1)
    }
}

/// The cover chosen among the results: the first album by the artist that
/// fits the album, else the first album by the artist; its address is
/// changed to ask for 600×600. `None` where no result is by the artist.
pub open spec fn chosen_cover(rs: Seq<ItunesResult>, artist: Seq<char>, album: Seq<char>) -> Option<Seq<char>> {
    let pick = match first_fitting(rs, artist, album, 0) {
        Some(i) => Some(i),
        None => first_by_artist(rs, artist, 0),
    };
    match pick {
        Some(i) => Some(replace(rs[i as int].artwork_url@, "100x100bb"@, "600x600bb"@)),
        None => None,
    }
}

fn related_exec(a: &Vec<char>, b: &Vec<char>) -> (r: bool)
    ensures
        r == related(a@, b@),
{
    has_sub(a, b) || has_sub(b, a)
}

fn is_by_artist(r: &ItunesResult, artist: &Vec<char>, artist_str: &str) -> (res: bool)
    requires
        artist@ == cleaned(artist_str@),
    ensures
        res == by_artist(*r, artist_str@),
{
    match &r.artist_name {
        Some(n) => related_exec(&clean_string(n.as_str()), artist),
        None => true,
    }
}

fn fits(r: &ItunesResult, album: &Vec<char>, album_str: &str) -> (res: bool)
    requires
        album@ == cleaned(album_str@),
    ensures
        res == fits_album(*r, album_str@),
{
    match &r.collection_name {
        Some(n) => {
            let c = clean_string(n.as_str());
            seq_eq(&c, album) || related_exec(&c, album)
        },
        None => false,
    }
}

/// The cover address to use from one answer of the search service (see
/// `chosen_cover`); `None` sends the search on to the next country.
pub fn pick_artwork(artist: &str, album: &str, results: &Vec<ItunesResult>) -> (r: Option<String>)
    ensures
        opt_view(r) == chosen_cover(results@, artist@, album@),
{
    let ca = clean_string(artist);
    let cal = clean_string(album);
    let mut fitting: Option<usize> = None;
    let mut first: Option<usize> = None;
    let mut i: usize = results.len();
    while i > 0
        invariant
            i <= results.len(),
            ca@ == cleaned(artist@),
            cal@ == cleaned(album@),
            match fitting {
                Some(k) => first_fitting(results@, artist@, album@, i as nat) == Some(k as nat),
                None => first_fitting(results@, artist@, album@, i as nat) is None,
            },
            match first {
                Some(k) => first_by_artist(results@, artist@, i as nat) == Some(k as nat),
                None => first_by_artist(results@, artist@, i as nat) is None,
            },
            fitting matches Some(k) ==> k < results.len(),
            first matches Some(k) ==> k < results.len(),
        decreases i,
    {
        i = i - 1;
        let r = &results[i];
        if is_by_artist(r, &ca, artist) {
            first = Some(i);
            if fits(r, &cal, album) {
                fitting = Some(i);
            }
        }
    }
    let pick = match fitting {
        Some(k) => Some(k),
        None => first,
    };
    match pick {
        Some(k) => {
            let url = chars_of(results[k].artwork_url.as_str());
            let from = chars_of("100x100bb");
            proof {
                reveal_strlit("100x100bb");
                assert(from@.len() > 0);
            }
            let big = replace_all(&url, &from, &chars_of("600x600bb"));
            Some(string_of(&big))
        },
        None => None,
    }
}

} // verus!
