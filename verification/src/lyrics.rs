//! Synchronised lyrics: the LRC line format and choosing among search results.

use vstd::prelude::*;
use vstd::wrapping::u64_specs;
use crate::text::{lowercase, to_lowercase, before_first, replace, prefix_before, replace_all, all_digits, digits_value, split, parse_unsigned, find, starts_with, trim, lines, views, unsigned_digits, is_digit, lemma_find_from, split_on, parse_uint, find_in, has_prefix, slice_of, trimmed, string_of, chars_of, lines_of, lemma_split_nonempty};

verus! {

/// One timed line of lyrics.
#[derive(Debug, Clone, PartialEq)]
pub struct LyricLine {
    pub timestamp_ms: u64,
    pub text: String,
}

} // verus!

verus! {

/// The first line, from index `i` on, that starts after `pos_ms`.
pub open spec fn first_after(lines: Seq<LyricLine>, pos_ms: u64, i: nat) -> Option<nat>
    decreases lines.len() - i,
{
    if i >= lines.len() {
        None
    } else if lines[i as int].timestamp_ms > pos_ms {
        Some(i)
    } else {
        first_after(lines, pos_ms, i + 1)
    }
}

/// The line being sung at `pos_ms`: the one before the first line that starts
/// later (the first line if that is the first line), or the last line if none
/// starts later (0 when there are no lines).
pub open spec fn current_line(lines: Seq<LyricLine>, pos_ms: u64) -> nat {
    match first_after(lines, pos_ms, 0) {
        Some(i) => if i > 0 {
            (i - 1) as nat
        } else {
            0
        },
        None => if lines.len() > 0 {
            (lines.len() - 1) as nat
        } else {
            0
        },
    }
}

/// The index of the line being sung at `pos_ms`.
pub fn current_line_index(lines: &Vec<LyricLine>, pos_ms: u64) -> (r: usize)
    ensures
        r == current_line(lines@, pos_ms),
{
    let mut i: usize = 0;
    while i < lines.len()
        invariant
            i <= lines.len(),
            first_after(lines@, pos_ms, 0) == first_after(lines@, pos_ms, i as nat),
        decreases lines.len() - i,
    {
        if lines[i].timestamp_ms > pos_ms {
            return if i > 0 { i - 1 } else { 0 };
        }
        i = i + 1;
    }
    if lines.len() > 0 { lines.len() - 1 } else { 0 }
}

} // verus!

verus! {

/// The result of looking for the lyrics of a track.
#[derive(Debug)]
pub enum LyricsFetchResult {
    Found(Vec<LyricLine>),
    Instrumental,
    NoLyrics,
}

/// What a lyrics service answers about one track.
#[derive(Debug, Clone)]
pub struct LyricsRecord {
    /// Lyrics with `[mm:ss.xx]` time tags.
    pub synced_lyrics: Option<String>,
    pub plain_lyrics: Option<String>,
    pub instrumental: bool,
}

/// A search hit, with whether its duration is within three seconds of the track's.
#[derive(Debug, Clone)]
pub struct LyricsCandidate {
    pub record: LyricsRecord,
    pub duration_matches: bool,
}

/// A parsed line: its time and its text.
pub open spec fn line_view(l: LyricLine) -> (u64, Seq<char>) {
    (l.timestamp_ms, l.text@)
}

pub open spec fn lines_view(v: Seq<LyricLine>) -> Seq<(u64, Seq<char>)> {
    Seq::new(v.len(), |i: int| line_view(v[i]))
}

/// The time, in milliseconds, of an LRC time tag `mm:ss`, `mm:ss.xx` or
/// `mm:ss.xxx`: two fraction digits are hundredths, otherwise the fraction is
/// read as milliseconds. The sum is taken modulo 2^64.
pub open spec fn timestamp_ms(ts: Seq<char>) -> Option<u64> {
    let parts = split(ts, seq![':']);
    if parts.len() != 2 {
        None
    } else {
        match parse_unsigned(parts[0], u64::MAX as nat) {
            None => None,
            Some(min) => {
                let sp = split(parts[1], seq!['.']);
                match parse_unsigned(sp[0], u64::MAX as nat) {
                    None => None,
                    Some(sec) => {
                        let frac: Option<nat> = if sp.len() > 1 {
                            match parse_unsigned(sp[1], u64::MAX as nat) {
                                Some(f) => Some(
                                    if sp[1].len() == 2 {
                                        f * 10
                                    } else {
                                        f
                                    },
                                ),
                                None => None,
                            }
                        } else {
                            Some(0)
                        };
                        match frac {
                            None => None,
                            Some(ms) => Some(
                                u64_specs::wrapping_add(
                                    u64_specs::wrapping_add(
                                        u64_specs::wrapping_mul(min as u64, 60000),
                                        u64_specs::wrapping_mul(sec as u64, 1000),
                                    ),
                                    ms as u64,
                                ),
                            ),
                        }
                    },
                }
            },
        }
    }
}

/// One line of LRC text: `[time]text`, the text trimmed; lines without a
/// readable time tag at their start give nothing.
pub open spec fn lrc_line(line: Seq<char>) -> Option<(u64, Seq<char>)> {
    match find(line, seq![']']) {
        Some(idx) => if starts_with(line, seq!['[']) {
            match timestamp_ms(line.subrange(1, idx as int)) {
                Some(ms) => Some((ms, trim(line.skip(idx + 1 as int)))),
                None => None,
            }
        } else {
            None
        },
        None => None,
    }
}

/// The timed lines of the given lines of text, in order.
pub open spec fn lrc_lines(ls: Seq<Seq<char>>) -> Seq<(u64, Seq<char>)>
    decreases ls.len(),
{
    if ls.len() == 0 {
        seq![]
    } else {
        let rest = lrc_lines(ls.drop_last());
        match lrc_line(ls.last()) {
            Some(l) => rest.push(l),
            None => rest,
        }
    }
}

/// The timed lines of an LRC text.
pub open spec fn parse_lrc(text: Seq<char>) -> Seq<(u64, Seq<char>)> {
    lrc_lines(lines(text))
}

/// The lyrics that a service record stands for: instrumental, or the lines of
/// the synced lyrics (else of the plain lyrics), or nothing when there are no
/// timed lines.
pub open spec fn record_result(r: LyricsRecord) -> Option<Option<Seq<(u64, Seq<char>)>>> {
    if r.instrumental {
        Some(None)
    } else {
        let raw = match r.synced_lyrics {
            Some(s) => Some(s@),
            None => match r.plain_lyrics {
                Some(p) => Some(p@),
                None => None,
            },
        };
        match raw {
            None => None,
            Some(t) => if parse_lrc(t).len() == 0 {
                None
            } else {
                Some(Some(parse_lrc(t)))
            },
        }
    }
}

/// `res` is what `record_result` describes: `None` for nothing,
/// `Some(None)` for instrumental, `Some(Some(lines))` for found lines.
pub open spec fn result_is(res: LyricsFetchResult, expected: Option<Option<Seq<(u64, Seq<char>)>>>) -> bool {
    match expected {
        None => res is NoLyrics,
        Some(None) => res is Instrumental,
        Some(Some(ls)) => res matches LyricsFetchResult::Found(v) && lines_view(v@) == ls,
    }
}

/// The time of an LRC time tag.
pub fn parse_timestamp(ts: &Vec<char>) -> (r: Option<u64>)
    ensures
        r == timestamp_ms(ts@),
{
    let colon = vec![':'];
    assert(colon@ =~= seq![':']);
    let parts = split_on(ts, &colon);
    if parts.len() != 2 {
        return None;
    }
    let min = match parse_uint(&parts[0], u64::MAX) {
        Some(m) => m,
        None => return None,
    };
    let dot = vec!['.'];
    assert(dot@ =~= seq!['.']);
    let sp = split_on(&parts[1], &dot);
    proof {
        lemma_split_nonempty(parts@[1]@, dot@);
    }
    let sec = match parse_uint(&sp[0], u64::MAX) {
        Some(s) => s,
        None => return None,
    };
    let ms: u64 = if sp.len() > 1 {
        match parse_uint(&sp[1], u64::MAX) {
            Some(f) => {
                if sp[1].len() == 2 {
                    proof {
                        lemma_two_digits(sp@[1]@);
                    }
                    f * 10
                } else {
                    f
                }
            },
            None => return None,
        }
    } else {
        0
    };
    Some(min.wrapping_mul(60000).wrapping_add(sec.wrapping_mul(1000)).wrapping_add(ms))
}


proof fn lemma_two_digits(s: Seq<char>)
    requires
        s.len() == 2,
        parse_unsigned(s, u64::MAX as nat) is Some,
    ensures
        parse_unsigned(s, u64::MAX as nat)->0 <= 99,
{
    let d = unsigned_digits(s);
    assert(d.len() <= 2);
    assert(all_digits(d));
    if d.len() == 2 {
        let d1 = d.drop_last();
        assert(d1.drop_last() =~= Seq::<char>::empty());
        assert(is_digit(d[0]) && is_digit(d[1]));
        assert(d1.last() == d[0]);
        assert(digits_value(d1) == digits_value(d1.drop_last()) * 10 + ((d1.last() as u32) - ('0' as u32)) as nat);
        assert(digits_value(d1) <= 9);
        assert(digits_value(d) == digits_value(d1) * 10 + ((d.last() as u32) - ('0' as u32)) as nat);
    } else {
        assert(d.drop_last() =~= Seq::<char>::empty());
        assert(is_digit(d[0]));
        assert(digits_value(d) == digits_value(d.drop_last()) * 10 + ((d.last() as u32) - ('0' as u32)) as nat);
    }
}

/// The timed line of one line of LRC text, if it has one.
pub fn parse_lrc_line(line: &Vec<char>) -> (r: Option<LyricLine>)
    ensures
        match r {
            Some(l) => lrc_line(line@) == Some(line_view(l)),
            None => lrc_line(line@) is None,
        },
{
    let close = vec![']'];
    assert(close@ =~= seq![']']);
    let open = vec!['['];
    assert(open@ =~= seq!['[']);
    proof {
        lemma_find_from(line@, close@, 0);
    }
    match find_in(line, &close, 0) {
        Some(idx) => {
            if has_prefix(line, &open) {
                let ts = slice_of(line, 1, idx);
                match parse_timestamp(&ts) {
                    Some(ms) => {
                        assert(idx + 1 <= line.len());
                        let rest = slice_of(line, idx + 1, line.len());
                        assert(rest@ =~= line@.skip(idx + 1));
                        let text = trimmed(&rest);
                        Some(LyricLine { timestamp_ms: ms, text: string_of(&text) })
                    },
                    None => None,
                }
            } else {
                None
            }
        },
        None => None,
    }
}

/// The timed lines of an LRC text, in order; lines without a time tag are skipped.
pub fn parse_lrc_text(text: &str) -> (r: Vec<LyricLine>)
    ensures
        lines_view(r@) == parse_lrc(text@),
{
    let chars = chars_of(text);
    let ls = lines_of(&chars);
    let mut out: Vec<LyricLine> = Vec::new();
    let mut i: usize = 0;
    while i < ls.len()
        invariant
            i <= ls.len(),
            views(ls@) == lines(text@),
            lines_view(out@) == lrc_lines(views(ls@).take(i as int)),
        decreases ls.len() - i,
    {
        let ghost before = lines_view(out@);
        assert(views(ls@).take(i + 1).drop_last() =~= views(ls@).take(i as int));
        assert(views(ls@).take(i + 1).last() == ls@[i as int]@);
        match parse_lrc_line(&ls[i]) {
            Some(l) => {
                out.push(l);
                assert(lines_view(out@) =~= before.push(line_view(l)));
            },
            None => {},
        }
        i = i + 1;
    }
    assert(views(ls@).take(ls.len() as int) =~= views(ls@));
    out
}

/// The lyrics that a service record stands for (instrumental, found lines, or none).
pub fn parse_record(data: &LyricsRecord) -> (r: LyricsFetchResult)
    ensures
        result_is(r, record_result(*data)),
{
    if data.instrumental {
        return LyricsFetchResult::Instrumental;
    }
    let raw = match &data.synced_lyrics {
        Some(s) => s,
        None => match &data.plain_lyrics {
            Some(p) => p,
            None => return LyricsFetchResult::NoLyrics,
        },
    };
    let lines = parse_lrc_text(raw.as_str());
    if lines.len() == 0 {
        LyricsFetchResult::NoLyrics
    } else {
        LyricsFetchResult::Found(lines)
    }
}

/// The first search hit with synced lyrics and a matching duration, if any.
pub open spec fn first_synced(c: Seq<LyricsCandidate>, i: nat) -> Option<nat>
    decreases c.len() - i,
{
    if i >= c.len() {
        None
    } else if c[i as int].record.synced_lyrics is Some && c[i as int].duration_matches {
        Some(i)
    } else {
        first_synced(c, i + 1)
    }
}

/// Some search hit is instrumental and has a matching duration.
pub open spec fn any_instrumental(c: Seq<LyricsCandidate>) -> bool {
    exists|i: int| 0 <= i < c.len() && #[trigger] c[i].record.instrumental && c[i].duration_matches
}

/// What a list of search hits gives: the first hit with synced lyrics and a
/// matching duration, else instrumental if a hit with a matching duration is
/// instrumental, else nothing.
pub open spec fn search_result(c: Seq<LyricsCandidate>) -> Option<Option<Seq<(u64, Seq<char>)>>> {
    match first_synced(c, 0) {
        Some(i) => record_result(c[i as int].record),
        None => if any_instrumental(c) {
            Some(None)
        } else {
            None
        },
    }
}

/// Chooses among search hits.
pub fn select_search_result(results: &Vec<LyricsCandidate>) -> (r: LyricsFetchResult)
    ensures
        result_is(r, search_result(results@)),
{
    let mut i: usize = 0;
    while i < results.len()
        invariant
            i <= results.len(),
            first_synced(results@, 0) == first_synced(results@, i as nat),
        decreases results.len() - i,
    {
        if results[i].record.synced_lyrics.is_some() && results[i].duration_matches {
            return parse_record(&results[i].record);
        }
        i = i + 1;
    }
    assert(first_synced(results@, results.len() as nat) is None);
    let mut j: usize = 0;
    while j < results.len()
        invariant
            j <= results.len(),
            first_synced(results@, 0) is None,
            forall|k: int| 0 <= k < j ==> !(#[trigger] results@[k].record.instrumental
                && results@[k].duration_matches),
        decreases results.len() - j,
    {
        if results[j].record.instrumental && results[j].duration_matches {
            assert(results@[j as int].record.instrumental && results@[j as int].duration_matches);
            return LyricsFetchResult::Instrumental;
        }
        j = j + 1;
    }
    LyricsFetchResult::NoLyrics
}

} // verus!

verus! {

/// `s` without the text inside round or square brackets (the brackets go too;
/// a closing bracket ends the bracketed part whatever opened it).
pub open spec fn strip_brackets(s: Seq<char>, inside: bool) -> Seq<char>
    decreases s.len(),
{
    if s.len() == 0 {
        seq![]
    } else {
        let c = s[0];
        let rest = s.drop_first();
        if c == '(' || c == '[' {
            strip_brackets(rest, true)
        } else if c == ')' || c == ']' {
            strip_brackets(rest, false)
        } else if !inside {
            seq![c] + strip_brackets(rest, inside)
        } else {
            strip_brackets(rest, inside)
        }
    }
}

/// The phrases that `clean_title` removes, in the order in which it removes them.
pub open spec fn title_noise() -> Seq<Seq<char>> {
    seq![
        "remastered"@,
        "remaster"@,
        "studio version"@,
        "stereo mix"@,
        "mono mix"@,
        "single version"@,
        "original mix"@,
    ]
}

/// `s` with each phrase, in turn, removed everywhere.
pub open spec fn remove_all(s: Seq<char>, phrases: Seq<Seq<char>>) -> Seq<char>
    decreases phrases.len(),
{
    if phrases.len() == 0 {
        s
    } else {
        remove_all(replace(s, phrases[0], seq![]), phrases.drop_first())
    }
}

/// A title reduced for searching: lower case (see `reduced_title`).
pub open spec fn cleaned_title(title: Seq<char>) -> Seq<char> {
    reduced_title(lowercase(title))
}

/// A lower-case title reduced for searching: cut before "feat.", "(feat"
/// and "with", the noise phrases removed, bracketed parts removed, trimmed.
pub open spec fn reduced_title(t: Seq<char>) -> Seq<char> {
    let t = before_first(t, "feat."@);
    let t = before_first(t, "(feat"@);
    let t = before_first(t, "with"@);
    trim(strip_brackets(remove_all(t, title_noise()), false))
}

/// The first of several artists, in lower case (see `first_artist`).
pub open spec fn cleaned_artist(artist: Seq<char>) -> Seq<char> {
    first_artist(lowercase(artist))
}

/// The first of several artists named in a lower-case text: cut before
/// ",", "&", " feat.", " ft." and " featuring", trimmed.
pub open spec fn first_artist(t: Seq<char>) -> Seq<char> {
    let t = before_first(t, ","@);
    let t = before_first(t, "&"@);
    let t = before_first(t, " feat."@);
    let t = before_first(t, " ft."@);
    trim(before_first(t, " featuring"@))
}

fn strip_brackets_exec(s: &Vec<char>) -> (r: Vec<char>)
    ensures
        r@ == strip_brackets(s@, false),
{
    let mut out: Vec<char> = Vec::new();
    let mut inside = false;
    let mut i: usize = 0;
    assert(s@.skip(0) =~= s@);
    while i < s.len()
        invariant
            i <= s.len(),
            strip_brackets(s@, false) == out@ + strip_brackets(s@.skip(i as int), inside),
        decreases s.len() - i,
    {
        let c = s[i];
        assert(s@.skip(i as int).drop_first() =~= s@.skip(i + 1));
        assert(s@.skip(i as int)[0] == c);
        if c == '(' || c == '[' {
            inside = true;
        } else if c == ')' || c == ']' {
            inside = false;
        } else if !inside {
            out.push(c);
            assert(out@ + strip_brackets(s@.skip(i + 1), inside) =~= out@.drop_last() + (seq![c]
                + strip_brackets(s@.skip(i + 1), inside)));
        }
        i = i + 1;
    }
    assert(strip_brackets(s@.skip(i as int), inside) =~= Seq::<char>::empty());
    assert(out@ + Seq::<char>::empty() =~= out@);
    out
}

fn chars_lit(s: &str) -> (r: Vec<char>)
    ensures
        r@ == s@,
{
    chars_of(s)
}

/// A title reduced for searching.
pub fn clean_title(title: &str) -> (r: String)
    ensures
        r@ == cleaned_title(title@),
{
    let lower = to_lowercase(title);
    reduce_title(lower.as_str())
}

/// A lower-case title reduced for searching (see `reduced_title`).
pub fn reduce_title(lower: &str) -> (r: String)
    ensures
        r@ == reduced_title(lower@),
{
    let t = chars_of(lower);
    let t = prefix_before(&t, &chars_lit("feat."));
    let t = prefix_before(&t, &chars_lit("(feat"));
    let t = prefix_before(&t, &chars_lit("with"));
    let ghost start = t@;
    let empty: Vec<char> = Vec::new();
    let noise = vec![
        chars_lit("remastered"),
        chars_lit("remaster"),
        chars_lit("studio version"),
        chars_lit("stereo mix"),
        chars_lit("mono mix"),
        chars_lit("single version"),
        chars_lit("original mix"),
    ];
    assert(views(noise@) =~= title_noise());
    proof {
        reveal_strlit("remastered");
        reveal_strlit("remaster");
        reveal_strlit("studio version");
        reveal_strlit("stereo mix");
        reveal_strlit("mono mix");
        reveal_strlit("single version");
        reveal_strlit("original mix");
    }
    let mut t = t;
    let mut k: usize = 0;
    assert(title_noise().skip(0) =~= title_noise());
    while k < noise.len()
        invariant
            k <= noise.len(),
            views(noise@) == title_noise(),
            forall|j: int| 0 <= j < noise.len() ==> (#[trigger] noise@[j]).len() > 0,
            empty@ == Seq::<char>::empty(),
            remove_all(start, title_noise()) == remove_all(t@, title_noise().skip(k as int)),
        decreases noise.len() - k,
    {
        assert(title_noise().skip(k as int).drop_first() =~= title_noise().skip(k + 1));
        assert(title_noise().skip(k as int)[0] == noise@[k as int]@);
        t = replace_all(&t, &noise[k], &empty);
        k = k + 1;
    }
    assert(title_noise().skip(7) =~= Seq::<Seq<char>>::empty());
    let b = strip_brackets_exec(&t);
    string_of(&trimmed(&b))
}

/// The first of several artists.
pub fn clean_artist(artist: &str) -> (r: String)
    ensures
        r@ == cleaned_artist(artist@),
{
    let lower = to_lowercase(artist);
    primary_artist(lower.as_str())
}

/// The first of several artists named in a lower-case text (see
/// `first_artist`).
pub fn primary_artist(lower: &str) -> (r: String)
    ensures
        r@ == first_artist(lower@),
{
    let t = chars_of(lower);
    let t = prefix_before(&t, &chars_lit(","));
    let t = prefix_before(&t, &chars_lit("&"));
    let t = prefix_before(&t, &chars_lit(" feat."));
    let t = prefix_before(&t, &chars_lit(" ft."));
    let t = prefix_before(&t, &chars_lit(" featuring"));
    string_of(&trimmed(&t))
}

} // verus!

verus! {

/// The next step of a lyrics lookup.
#[derive(Debug)]
pub enum LyricsNext {
    /// The lookup ends with this result; found lines are worth caching.
    Finish(LyricsFetchResult),
    /// Search the service for this artist and title.
    Search { artist: String, title: String },
}

/// After the exact lookup (`None` when the service did not answer with
/// success): its lyrics or instrumental mark end the lookup; otherwise search
/// with the artist as given and the cleaned title.
pub fn after_exact_lookup(reply: Option<&LyricsRecord>, artist: &str, title: &str) -> (r: LyricsNext)
    ensures
        match reply {
            Some(rec) => record_result(*rec) is Some ==> (r matches LyricsNext::Finish(res)
                && result_is(res, record_result(*rec))),
            None => true,
        },
        (reply is None || record_result(*reply->0) is None) ==> (r matches LyricsNext::Search {
            artist: a,
            title: t,
        } && a@ == artist@ && t@ == cleaned_title(title@)),
{
    if let Some(rec) = reply {
        let res = parse_record(rec);
        match res {
            LyricsFetchResult::NoLyrics => {},
            _ => {
                return LyricsNext::Finish(res);
            },
        }
    }
    LyricsNext::Search { artist: artist.to_owned(), title: clean_title(title) }
}

/// After the search with the artist as given: its result ends the lookup,
/// unless it found nothing and the first of several artists differs from the
/// artist as given (in lower case); then search again with that artist.
pub fn after_title_search(result: LyricsFetchResult, artist: &str, title: &str) -> (r: LyricsNext)
    ensures
        !(result is NoLyrics) ==> r == LyricsNext::Finish(result),
        result is NoLyrics ==> if cleaned_artist(artist@) != lowercase(artist@) {
            r matches LyricsNext::Search { artist: a, title: t } && a@ == cleaned_artist(artist@)
                && t@ == cleaned_title(title@)
        } else {
            r matches LyricsNext::Finish(res) && res is NoLyrics
        },
{
    match result {
        LyricsFetchResult::NoLyrics => {
            let primary = clean_artist(artist);
            let lower = to_lowercase(artist);
            if primary != lower {
                LyricsNext::Search { artist: primary, title: clean_title(title) }
            } else {
                LyricsNext::Finish(LyricsFetchResult::NoLyrics)
            }
        },
        _ => LyricsNext::Finish(result),
    }
}

/// The name of the file that keeps a track's lyrics: artist and title with
/// `/` turned into `_`, joined by `_`, with `.json` after.
pub open spec fn cache_name(artist: Seq<char>, title: Seq<char>) -> Seq<char> {
    replace(artist, "/"@, "_"@) + "_"@ + replace(title, "/"@, "_"@) + ".json"@
}

/// The name of the file that keeps a track's lyrics (see `cache_name`).
pub fn cache_file_name(artist: &str, title: &str) -> (r: String)
    ensures
        r@ == cache_name(artist@, title@),
{
    let slash = chars_of("/");
    let under = chars_of("_");
    proof {
        reveal_strlit("/");
        assert(slash@.len() == 1);
    }
    let a = string_of(&replace_all(&chars_of(artist), &slash, &under));
    let t = string_of(&replace_all(&chars_of(title), &slash, &under));
    let head = crate::text::str_concat(a.as_str(), "_");
    let both = crate::text::str_concat(head.as_str(), t.as_str());
    crate::text::str_concat(both.as_str(), ".json")
}

} // verus!
