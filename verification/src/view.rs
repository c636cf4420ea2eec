//! What the screen shows, as numbers and text: where a list view starts, the
//! time labels, and which lyric line goes on which row.

use vstd::prelude::*;
use crate::text::{uppercase, to_uppercase, chars_of, seq_eq, str_eq, string_of};
use crate::mpd::opt_view;

verus! {

/// The first entry shown of a list of `list_len` entries in a view of
/// `content_h` rows, with entry `selected` highlighted: the selection stays
/// in the middle of the view, except that the view does not run past the end
/// of the list.
pub open spec fn scroll_start_spec(selected: nat, content_h: nat, list_len: nat) -> nat {
    let a: int = selected - content_h / 2;
    let b: int = list_len - content_h;
    let a: nat = if a < 0 { 0 } else { a as nat };
    let b: nat = if b < 0 { 0 } else { b as nat };
    if a < b {
        a
    } else {
        b
    }
}

/// The first entry shown of a list view (see `scroll_start_spec`). Where the
/// selection is in the list, it is in view, and a list at least as long as
/// the view fills it.
pub fn scroll_start(selected: usize, content_h: usize, list_len: usize) -> (r: usize)
    ensures
        r == scroll_start_spec(selected as nat, content_h as nat, list_len as nat),
        selected < list_len && content_h > 0 ==> r <= selected && selected < r + content_h,
        content_h <= list_len ==> list_len - r >= content_h,
{
    let a = selected.saturating_sub(content_h / 2);
    let b = list_len.saturating_sub(content_h);
    if a < b {
        a
    } else {
        b
    }
}

/// The character of a decimal digit.
pub open spec fn digit_char(d: nat) -> char {
    if d == 0 {
        '0'
    } else if d == 1 {
        '1'
    } else if d == 2 {
        '2'
    } else if d == 3 {
        '3'
    } else if d == 4 {
        '4'
    } else if d == 5 {
        '5'
    } else if d == 6 {
        '6'
    } else if d == 7 {
        '7'
    } else if d == 8 {
        '8'
    } else {
        '9'
    }
}

/// `n` in decimal, without leading zeros (`format!("{}", n)`).
pub open spec fn decimal(n: nat) -> Seq<char>
    decreases n,
{
    if n < 10 {
        seq![digit_char(n)]
    } else {
        decimal(n / 10).push(digit_char(n % 10))
    }
}

/// `n` in decimal, at least two digits (`format!("{:02}", n)`).
pub open spec fn pad2(n: nat) -> Seq<char> {
    if n < 10 {
        seq!['0'] + decimal(n)
    } else {
        decimal(n)
    }
}

fn digit(d: u64) -> (c: char)
    requires
        d < 10,
    ensures
        c == digit_char(d as nat),
{
    if d == 0 {
        '0'
    } else if d == 1 {
        '1'
    } else if d == 2 {
        '2'
    } else if d == 3 {
        '3'
    } else if d == 4 {
        '4'
    } else if d == 5 {
        '5'
    } else if d == 6 {
        '6'
    } else if d == 7 {
        '7'
    } else if d == 8 {
        '8'
    } else {
        '9'
    }
}

/// `n` in decimal.
pub fn decimal_chars(n: u64) -> (r: Vec<char>)
    ensures
        r@ == decimal(n as nat),
    decreases n,
{
    if n < 10 {
        let mut v: Vec<char> = Vec::new();
        v.push(digit(n));
        v
    } else {
        let mut v = decimal_chars(n / 10);
        v.push(digit(n % 10));
        v
    }
}

/// `n` in decimal, at least two digits.
fn pad2_chars(n: u64) -> (r: Vec<char>)
    ensures
        r@ == pad2(n as nat),
{
    let d = decimal_chars(n);
    if n < 10 {
        let mut v: Vec<char> = Vec::new();
        v.push('0');
        v.push(d[0]);
        assert(v@ =~= seq!['0'] + d@);
        v
    } else {
        d
    }
}

fn append(v: &mut Vec<char>, w: &Vec<char>)
    ensures
        final(v)@ == old(v)@ + w@,
{
    let mut i: usize = 0;
    let ghost start = v@;
    while i < w.len()
        invariant
            i <= w.len(),
            v@ == start + w@.take(i as int),
        decreases w.len() - i,
    {
        v.push(w[i]);
        i = i + 1;
        assert(v@ =~= start + w@.take(i as int));
    }
    assert(w@.take(w.len() as int) =~= w@);
}

/// A time as minutes and seconds, two digits each at least: `MM:SS`.
pub open spec fn clock(ms: nat) -> Seq<char> {
    pad2(ms / 60000) + seq![':'] + pad2((ms % 60000) / 1000)
}

/// The progress label: position and length, `MM:SS / MM:SS`.
pub fn time_label(position_ms: u64, duration_ms: u64) -> (r: String)
    ensures
        r@ == clock(position_ms as nat) + seq![' ', '/', ' '] + clock(duration_ms as nat),
{
    let mut v = pad2_chars(position_ms / 60000);
    v.push(':');
    append(&mut v, &pad2_chars((position_ms % 60000) / 1000));
    v.push(' ');
    v.push('/');
    v.push(' ');
    append(&mut v, &pad2_chars(duration_ms / 60000));
    v.push(':');
    append(&mut v, &pad2_chars((duration_ms % 60000) / 1000));
    assert(v@ =~= clock(position_ms as nat) + seq![' ', '/', ' '] + clock(duration_ms as nat));
    crate::text::string_of(&v)
}

/// The length shown in a list row: minutes (no padding) and two-digit
/// seconds, `M:SS`.
pub fn duration_label(duration_ms: u64) -> (r: String)
    ensures
        r@ == decimal((duration_ms / 1000) as nat / 60) + seq![':'] + pad2((duration_ms / 1000) as nat % 60),
{
    let s = duration_ms / 1000;
    let mut v = decimal_chars(s / 60);
    v.push(':');
    append(&mut v, &pad2_chars(s % 60));
    crate::text::string_of(&v)
}

/// The lyric line on row `row` of a lyrics view of `height` rows centred on
/// line `center`, and its distance from the middle row: only rows at most
/// six from the middle show a line, and only where there is one.
pub open spec fn lyric_row_spec(row: int, height: int, center: int, len: int) -> Option<(nat, nat)> {
    let half = height / 2;
    let dist = if row >= half { row - half } else { half - row };
    let target = center - half + row;
    if dist <= 6 && 0 <= target < len {
        Some((target as nat, dist as nat))
    } else {
        None
    }
}

/// The lyric line shown on a row, and its distance from the middle row.
pub fn lyric_row(row: usize, height: usize, center: usize, len: usize) -> (r: Option<(usize, usize)>)
    requires
        row < height,
    ensures
        match lyric_row_spec(row as int, height as int, center as int, len as int) {
            Some((t, d)) => r == Some((t as usize, d as usize)),
            None => r is None,
        },
{
    let half = height / 2;
    let dist = if row >= half { row - half } else { half - row };
    if dist > 6 {
        return None;
    }
    if (center as u128) + (row as u128) < (half as u128) {
        return None;
    }
    let wide: u128 = center as u128 + row as u128 - half as u128;
    if wide >= len as u128 {
        return None;
    }
    Some((wide as usize, dist))
}

/// How the screen is divided.
#[derive(Debug, Clone, Copy, PartialEq, Eq, Structural)]
pub enum PanelLayout {
    /// Player and panel side by side.
    Horizontal,
    /// Player above the panel.
    Vertical,
    /// The player alone.
    PlayerOnly,
}

/// The division of the screen: side by side on a screen at least 90 columns
/// wide outside tmux, else stacked where the screen has at least 30 rows;
/// the player alone on a lower screen or when the panel is not wanted.
pub open spec fn layout_of(width: u16, height: u16, in_tmux: bool, show_panel: bool) -> PanelLayout {
    if !show_panel {
        PanelLayout::PlayerOnly
    } else if !in_tmux && width >= 90 {
        PanelLayout::Horizontal
    } else if height < 30 {
        PanelLayout::PlayerOnly
    } else {
        PanelLayout::Vertical
    }
}

/// The division of the screen (see `layout_of`).
pub fn panel_layout(width: u16, height: u16, in_tmux: bool, show_panel: bool) -> (r: PanelLayout)
    ensures
        r == layout_of(width, height, in_tmux, show_panel),
{
    if !show_panel {
        PanelLayout::PlayerOnly
    } else if !in_tmux && width >= 90 {
        PanelLayout::Horizontal
    } else if height < 30 {
        PanelLayout::PlayerOnly
    } else {
        PanelLayout::Vertical
    }
}

/// The quality mark shown beside the track.
#[derive(Debug, Clone, Copy, PartialEq, Eq, Structural)]
pub enum QualityBadge {
    HiRes,
    Cd,
    Lossy,
    Lossless,
}

pub open spec fn is_lossless_name(u: Seq<char>) -> bool {
    u == "FLAC"@ || u == "ALAC"@ || u == "WAV"@ || u == "AIFF"@ || u == "APE"@ || u == "DSD"@
}

pub open spec fn is_lossy_name(u: Seq<char>) -> bool {
    u == "MP3"@ || u == "AAC"@ || u == "OGG"@ || u == "OPUS"@ || u == "M4A"@ || u == "WMA"@
}

/// The quality mark: high resolution for 24 bits or more or a rate above
/// 44.1 kHz; CD for a lossless codec at 16 bits; else lossy or lossless by
/// the codec's name in upper case; none otherwise.
pub open spec fn quality_of(codec: Option<Seq<char>>, bit_depth: Option<u8>, sample_rate: Option<u32>) -> Option<QualityBadge> {
    quality_of_upper(
        match codec {
            Some(c) => Some(uppercase(c)),
            None => None,
        },
        bit_depth,
        sample_rate,
    )
}

/// The quality mark, the codec's name being in upper case already.
pub open spec fn quality_of_upper(codec: Option<Seq<char>>, bit_depth: Option<u8>, sample_rate: Option<u32>) -> Option<QualityBadge> {
    let hires = (match bit_depth {
        Some(b) => b >= 24,
        None => false,
    }) || (match sample_rate {
        Some(r) => r > 44100,
        None => false,
    });
    let lossless = match codec {
        Some(c) => is_lossless_name(c),
        None => false,
    };
    let lossy = match codec {
        Some(c) => is_lossy_name(c),
        None => false,
    };
    if hires {
        Some(QualityBadge::HiRes)
    } else if lossless && bit_depth == Some(16u8) {
        Some(QualityBadge::Cd)
    } else if lossy {
        Some(QualityBadge::Lossy)
    } else if lossless {
        Some(QualityBadge::Lossless)
    } else {
        None
    }
}

fn one_of(u: &str, names: &Vec<&str>) -> (r: bool)
    ensures
        r == exists|k: int| 0 <= k < names.len() && u@ == names@[k]@,
{
    let mut i: usize = 0;
    while i < names.len()
        invariant
            i <= names.len(),
            forall|k: int| 0 <= k < i ==> u@ != names@[k]@,
        decreases names.len() - i,
    {
        if str_eq(u, names[i]) {
            return true;
        }
        i = i + 1;
    }
    false
}

/// The quality mark of a track (see `quality_of`).
pub fn quality_badge(codec: Option<&str>, bit_depth: Option<u8>, sample_rate: Option<u32>) -> (r: Option<QualityBadge>)
    ensures
        r == quality_of(match codec {
            Some(c) => Some(c@),
            None => None,
        }, bit_depth, sample_rate),
{
    match codec {
        Some(c) => {
            let u = to_uppercase(c);
            quality_badge_upper(Some(u.as_str()), bit_depth, sample_rate)
        },
        None => quality_badge_upper(None, bit_depth, sample_rate),
    }
}

/// The quality mark of a track whose codec name is in upper case (see
/// `quality_of_upper`).
pub fn quality_badge_upper(codec: Option<&str>, bit_depth: Option<u8>, sample_rate: Option<u32>) -> (r: Option<QualityBadge>)
    ensures
        r == quality_of_upper(match codec {
            Some(c) => Some(c@),
            None => None,
        }, bit_depth, sample_rate),
{
    let hires = (match bit_depth {
        Some(b) => b >= 24,
        None => false,
    }) || (match sample_rate {
        Some(r) => r > 44100,
        None => false,
    });
    let (lossless, lossy) = match codec {
        Some(u) => {
            let lossless_names = vec!["FLAC", "ALAC", "WAV", "AIFF", "APE", "DSD"];
            let lossy_names = vec!["MP3", "AAC", "OGG", "OPUS", "M4A", "WMA"];
            let a = one_of(u, &lossless_names);
            let b = one_of(u, &lossy_names);
            proof {
                let ln = lossless_names@;
                if a {
                    let k = choose|k: int| 0 <= k < ln.len() && u@ == ln[k]@;
                    assert(0 <= k < 6);
                }
                if is_lossless_name(u@) {
                    if u@ == "FLAC"@ { assert(u@ == ln[0]@); }
                    if u@ == "ALAC"@ { assert(u@ == ln[1]@); }
                    if u@ == "WAV"@ { assert(u@ == ln[2]@); }
                    if u@ == "AIFF"@ { assert(u@ == ln[3]@); }
                    if u@ == "APE"@ { assert(u@ == ln[4]@); }
                    if u@ == "DSD"@ { assert(u@ == ln[5]@); }
                }
                let yn = lossy_names@;
                if b {
                    let k = choose|k: int| 0 <= k < yn.len() && u@ == yn[k]@;
                    assert(0 <= k < 6);
                }
                if is_lossy_name(u@) {
                    if u@ == "MP3"@ { assert(u@ == yn[0]@); }
                    if u@ == "AAC"@ { assert(u@ == yn[1]@); }
                    if u@ == "OGG"@ { assert(u@ == yn[2]@); }
                    if u@ == "OPUS"@ { assert(u@ == yn[3]@); }
                    if u@ == "M4A"@ { assert(u@ == yn[4]@); }
                    if u@ == "WMA"@ { assert(u@ == yn[5]@); }
                }
            }
            (a, b)
        },
        None => (false, false),
    };
    if hires {
        Some(QualityBadge::HiRes)
    } else if lossless && bit_depth == Some(16u8) {
        Some(QualityBadge::Cd)
    } else if lossy {
        Some(QualityBadge::Lossy)
    } else if lossless {
        Some(QualityBadge::Lossless)
    } else {
        None
    }
}

/// The format detail beside the codec: bits and kilohertz (`24bit/96kHz`),
/// or kilohertz alone without a bit depth, then the bit rate where it is
/// above 0 (` 320kbps`).
pub open spec fn format_detail_text(bit_depth: Option<u8>, sample_rate: Option<u32>, bitrate: Option<u32>) -> Seq<char> {
    (match (bit_depth, sample_rate) {
        (Some(d), Some(r)) => decimal(d as nat) + "bit/"@ + decimal((r / 1000) as nat) + "kHz"@,
        (None, Some(r)) => decimal((r / 1000) as nat) + "kHz"@,
        _ => seq![],
    }) + (match bitrate {
        Some(k) => if k > 0 {
            " "@ + decimal(k as nat) + "kbps"@
        } else {
            seq![]
        },
        None => seq![],
    })
}

/// The format detail beside the codec (see `format_detail_text`).
pub fn format_detail(bit_depth: Option<u8>, sample_rate: Option<u32>, bitrate: Option<u32>) -> (r: String)
    ensures
        r@ == format_detail_text(bit_depth, sample_rate, bitrate),
{
    let mut v: Vec<char> = Vec::new();
    match (bit_depth, sample_rate) {
        (Some(d), Some(r)) => {
            append(&mut v, &decimal_chars(d as u64));
            append(&mut v, &chars_of("bit/"));
            append(&mut v, &decimal_chars((r / 1000) as u64));
            append(&mut v, &chars_of("kHz"));
        },
        (None, Some(r)) => {
            append(&mut v, &decimal_chars((r / 1000) as u64));
            append(&mut v, &chars_of("kHz"));
        },
        _ => {},
    }
    match bitrate {
        Some(k) => {
            if k > 0 {
                append(&mut v, &chars_of(" "));
                append(&mut v, &decimal_chars(k as u64));
                append(&mut v, &chars_of("kbps"));
            }
        },
        None => {},
    }
    string_of(&v)
}

/// The number of bytes that a character takes in UTF-8.
pub open spec fn utf8_len(c: char) -> nat {
    if (c as u32) < 0x80 {
        1
    } else if (c as u32) < 0x800 {
        2
    } else if (c as u32) < 0x10000 {
        3
    } else {
        4
    }
}

/// The number of bytes that a text takes in UTF-8.
pub open spec fn utf8_bytes(s: Seq<char>) -> nat
    decreases s.len(),
{
    if s.len() == 0 {
        0
    } else {
        utf8_bytes(s.drop_last()) + utf8_len(s.last())
    }
}

/// The longest start of a text that takes at most `n` bytes.
pub open spec fn within_bytes(s: Seq<char>, n: nat) -> Seq<char>
    decreases s.len(),
{
    if utf8_bytes(s) <= n || s.len() == 0 {
        s
    } else {
        within_bytes(s.drop_last(), n)
    }
}

/// A name shortened to its column: unchanged where it takes at most `max`
/// bytes, else the start that takes at most `max - 1` bytes (none for a
/// limit of zero) followed by `…`.
pub open spec fn fit_name(s: Seq<char>, max: nat) -> Seq<char> {
    if utf8_bytes(s) <= max {
        s
    } else {
        within_bytes(s, if max > 0 { (max - 1) as nat } else { 0 }) + seq!['…']
    }
}

fn char_bytes(c: char) -> (r: u128)
    ensures
        r == utf8_len(c),
{
    let u = c as u32;
    if u < 0x80 {
        1
    } else if u < 0x800 {
        2
    } else if u < 0x10000 {
        3
    } else {
        4
    }
}

/// Shortens a name to the width of its column, counted in bytes as the
/// text is stored (see `fit_name`); it is cut between characters, never
/// inside one.
pub fn fit_name_to(s: &str, max: usize) -> (r: String)
    ensures
        r@ == fit_name(s@, max as nat),
{
    let v = chars_of(s);
    let ghost sv = v@;
    let mut k: usize = 0;
    let mut total: u128 = 0;
    assert(sv.take(0) =~= Seq::<char>::empty());
    while k < v.len()
        invariant
            k <= v.len(),
            sv == v@,
            total == utf8_bytes(sv.take(k as int)),
            total <= 4 * k,
            v.len() <= usize::MAX,
        decreases v.len() - k,
    {
        assert(sv.take(k + 1).drop_last() =~= sv.take(k as int));
        let b = char_bytes(v[k]);
        total = total + b;
        k = k + 1;
    }
    assert(sv.take(k as int) =~= sv);
    if total <= max as u128 {
        return string_of(&v);
    }
    let limit: u128 = if max > 0 { (max - 1) as u128 } else { 0 };
    let mut n: usize = v.len();
    while total > limit && n > 0
        invariant
            n <= v.len(),
            sv == v@,
            total == utf8_bytes(sv.take(n as int)),
            within_bytes(sv, limit as nat) == within_bytes(sv.take(n as int), limit as nat),
        decreases n,
    {
        assert(sv.take(n as int).drop_last() =~= sv.take(n - 1));
        let b = char_bytes(v[n - 1]);
        n = n - 1;
        total = total - b;
    }
    assert(within_bytes(sv.take(n as int), limit as nat) == sv.take(n as int));
    let mut kept = crate::text::slice_of(&v, 0, n);
    kept.push('…');
    assert(kept@ =~= within_bytes(sv, limit as nat) + seq!['…']);
    string_of(&kept)
}

} // verus!
