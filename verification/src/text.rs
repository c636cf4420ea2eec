//! Character-level text operations used by the parsers of the library.
//!
//! Every operation works on the `Seq<char>` view of a string and is specified
//! by a short recursive spec function; the executable versions are proved
//! against those specifications.

use vstd::prelude::*;

verus! {

// ───────────────────────── specifications ─────────────────────────

/// The Unicode `White_Space` property.
pub open spec fn is_ws(c: char) -> bool {
    let u = c as u32;
    ||| 0x9 <= u && u <= 0xD
    ||| u == 0x20
    ||| u == 0x85
    ||| u == 0xA0
    ||| u == 0x1680
    ||| 0x2000 <= u && u <= 0x200A
    ||| u == 0x2028
    ||| u == 0x2029
    ||| u == 0x202F
    ||| u == 0x205F
    ||| u == 0x3000
}

/// `s` with its leading white space removed.
pub open spec fn trim_start(s: Seq<char>) -> Seq<char>
    decreases s.len(),
{
    if s.len() > 0 && is_ws(s[0]) {
        trim_start(s.drop_first())
    } else {
        s
    }
}

/// `s` with its trailing white space removed.
pub open spec fn trim_end(s: Seq<char>) -> Seq<char>
    decreases s.len(),
{
    if s.len() > 0 && is_ws(s.last()) {
        trim_end(s.drop_last())
    } else {
        s
    }
}

/// `s` with white space removed at both ends (`str::trim`).
pub open spec fn trim(s: Seq<char>) -> Seq<char> {
    trim_end(trim_start(s))
}

/// `p` occurs in `s` at position `i`.
pub open spec fn match_at(s: Seq<char>, p: Seq<char>, i: int) -> bool {
    0 <= i && i + p.len() <= s.len() && s.subrange(i, i + p.len()) == p
}

/// `s` begins with `p`.
pub open spec fn starts_with(s: Seq<char>, p: Seq<char>) -> bool {
    match_at(s, p, 0)
}

/// `s` ends with `p`.
pub open spec fn ends_with(s: Seq<char>, p: Seq<char>) -> bool {
    match_at(s, p, s.len() - p.len())
}

/// The first position at or after `i` where `p` occurs in `s`.
pub open spec fn find_from(s: Seq<char>, p: Seq<char>, i: nat) -> Option<nat>
    decreases s.len() - i,
{
    if i + p.len() > s.len() {
        None
    } else if match_at(s, p, i as int) {
        Some(i)
    } else if i >= s.len() {
        None
    } else {
        find_from(s, p, i + 1)
    }
}

/// What `find_from` gives is a match, the first one from `i` on.
pub proof fn lemma_find_from(s: Seq<char>, p: Seq<char>, i: nat)
    ensures
        find_from(s, p, i) matches Some(j) ==> i <= j && j + p.len() <= s.len() && match_at(
            s,
            p,
            j as int,
        ) && forall|k: int| i <= k < j ==> !match_at(s, p, k),
        find_from(s, p, i) is None ==> forall|k: int| i <= k ==> !match_at(s, p, k),
    decreases s.len() - i,
{
    if i + p.len() > s.len() {
    } else if match_at(s, p, i as int) {
    } else if i >= s.len() {
        assert(p.len() == 0);
        assert(s.subrange(i as int, i as int) =~= p);
    } else {
        lemma_find_from(s, p, i + 1);
    }
}

/// The first position where `p` occurs in `s` (`str::find`).
pub open spec fn find(s: Seq<char>, p: Seq<char>) -> Option<nat> {
    find_from(s, p, 0)
}

/// `p` occurs somewhere in `s` (`str::contains`).
pub open spec fn contains(s: Seq<char>, p: Seq<char>) -> bool {
    find(s, p) is Some
}

/// The pieces of `s` between the non-overlapping occurrences of a non-empty
/// pattern `p`, scanned from the left (`str::split`).
pub open spec fn split(s: Seq<char>, p: Seq<char>) -> Seq<Seq<char>>
    decreases s.len(),
    when p.len() > 0
{
    proof {
        lemma_find_from(s, p, 0);
    }
    match find(s, p) {
        Some(i) => seq![s.take(i as int)] + split(s.skip((i + p.len()) as int), p),
        None => seq![s],
    }
}

/// `split` always gives at least one piece.
pub proof fn lemma_split_nonempty(s: Seq<char>, p: Seq<char>)
    requires
        p.len() > 0,
    ensures
        split(s, p).len() >= 1,
{
    lemma_find_from(s, p, 0);
}

/// The part of `s` before the first occurrence of `p`, or all of `s`.
pub open spec fn before_first(s: Seq<char>, p: Seq<char>) -> Seq<char> {
    match find(s, p) {
        Some(i) => s.take(i as int),
        None => s,
    }
}

/// The pieces joined with `sep` between consecutive ones.
pub open spec fn join(pieces: Seq<Seq<char>>, sep: Seq<char>) -> Seq<char>
    decreases pieces.len(),
{
    if pieces.len() == 0 {
        seq![]
    } else if pieces.len() == 1 {
        pieces[0]
    } else {
        pieces[0] + sep + join(pieces.drop_first(), sep)
    }
}

/// Every non-overlapping occurrence of `from` replaced by `to` (`str::replace`).
pub open spec fn replace(s: Seq<char>, from: Seq<char>, to: Seq<char>) -> Seq<char> {
    join(split(s, from), to)
}

/// `s` with every leading repetition of `p` removed (`str::trim_start_matches`).
pub open spec fn strip_all_prefix(s: Seq<char>, p: Seq<char>) -> Seq<char>
    decreases s.len(),
    when p.len() > 0
{
    if starts_with(s, p) {
        strip_all_prefix(s.skip(p.len() as int), p)
    } else {
        s
    }
}

/// One line without its terminator: a `'\r'` directly before the `'\n'` goes too.
pub open spec fn strip_cr(s: Seq<char>) -> Seq<char> {
    if s.len() > 0 && s.last() == '\r' {
        s.drop_last()
    } else {
        s
    }
}

/// The lines of `s` (`str::lines`): split at `'\n'`, a final line ending is
/// optional, and a `'\r'` before a `'\n'` belongs to the line ending.
pub open spec fn lines(s: Seq<char>) -> Seq<Seq<char>>
    decreases s.len(),
{
    if s.len() == 0 {
        seq![]
    } else {
        proof {
            lemma_find_from(s, seq!['\n'], 0);
        }
        match find(s, seq!['\n']) {
            Some(i) => seq![strip_cr(s.take(i as int))] + lines(s.skip(i + 1 as int)),
            None => seq![s],
        }
    }
}

pub open spec fn is_digit(c: char) -> bool {
    '0' <= c && c <= '9'
}

pub open spec fn all_digits(s: Seq<char>) -> bool {
    forall|i: int| 0 <= i < s.len() ==> is_digit(#[trigger] s[i])
}

/// The number written in decimal by the digits `s`.
pub open spec fn digits_value(s: Seq<char>) -> nat
    decreases s.len(),
{
    if s.len() == 0 {
        0
    } else {
        digits_value(s.drop_last()) * 10 + ((s.last() as u32) - ('0' as u32)) as nat
    }
}

/// The digits of an unsigned integer literal: an optional `'+'` is dropped.
pub open spec fn unsigned_digits(s: Seq<char>) -> Seq<char> {
    if s.len() > 0 && s[0] == '+' {
        s.drop_first()
    } else {
        s
    }
}

/// What `str::parse` gives for an unsigned integer type whose largest value is
/// `max`: one or more decimal digits after an optional `'+'`, in range.
pub open spec fn parse_unsigned(s: Seq<char>, max: nat) -> Option<nat> {
    let d = unsigned_digits(s);
    if d.len() > 0 && all_digits(d) && digits_value(d) <= max {
        Some(digits_value(d))
    } else {
        None
    }
}

/// ASCII upper-case letters are mapped to lower case, every other character is kept.
pub open spec fn ascii_lower(c: char) -> char {
    if 'A' <= c && c <= 'Z' {
        ((c as u32) + 32) as char
    } else {
        c
    }
}

pub open spec fn is_ascii_upper(c: char) -> bool {
    'A' <= c && c <= 'Z'
}

/// The character sequences held by a vector of character vectors.
pub open spec fn views(v: Seq<Vec<char>>) -> Seq<Seq<char>> {
    Seq::new(v.len(), |i: int| v[i]@)
}

// ───────────────────────── conversions ─────────────────────────

/// The characters of a string slice, in order.
pub fn chars_of(s: &str) -> (v: Vec<char>)
    ensures
        v@ == s@,
{
    let mut v: Vec<char> = Vec::new();
    for c in it: s.chars()
        invariant
            v@ == it.history(),
    {
        v.push(c);
    }
    v
}

/// Appends one character to a `String` (`String::push`).
#[verifier::external_body]
pub(crate) fn push_char(s: &mut String, c: char)
    ensures
        final(s)@ == old(s)@.push(c),
{
    s.push(c);
}

/// Removes the last character of a `String` (`String::pop`), which std
/// documents as returning it, or `None` for an empty string.
#[verifier::external_body]
pub(crate) fn pop_char(s: &mut String) -> (r: Option<char>)
    ensures
        old(s)@.len() == 0 ==> r is None && final(s)@ == old(s)@,
        old(s)@.len() > 0 ==> r == Some(old(s)@.last()) && final(s)@ == old(s)@.drop_last(),
{
    s.pop()
}

/// A `String` holding the given characters.
pub fn string_of(v: &Vec<char>) -> (s: String)
    ensures
        s@ == v@,
{
    let mut s = String::new();
    let mut i: usize = 0;
    while i < v.len()
        invariant
            i <= v.len(),
            s@ == v@.take(i as int),
        decreases v.len() - i,
    {
        push_char(&mut s, v[i]);
        i = i + 1;
        assert(s@ == v@.take(i as int));
    }
    assert(v@.take(v.len() as int) == v@);
    s
}

/// Two string slices hold the same characters.
pub fn str_eq(a: &str, b: &str) -> (r: bool)
    ensures
        r == (a@ == b@),
{
    let x = chars_of(a);
    let y = chars_of(b);
    seq_eq(&x, &y)
}

/// Two character vectors are equal.
pub fn seq_eq(x: &Vec<char>, y: &Vec<char>) -> (r: bool)
    ensures
        r == (x@ == y@),
{
    if x.len() != y.len() {
        return false;
    }
    let mut i: usize = 0;
    while i < x.len()
        invariant
            x.len() == y.len(),
            i <= x.len(),
            x@.take(i as int) == y@.take(i as int),
        decreases x.len() - i,
    {
        if x[i] != y[i] {
            assert(x@[i as int] != y@[i as int]);
            return false;
        }
        assert(x@.take(i + 1) == x@.take(i as int).push(x@[i as int]));
        assert(y@.take(i + 1) == y@.take(i as int).push(y@[i as int]));
        i = i + 1;
    }
    assert(x@ == x@.take(x.len() as int));
    assert(y@ == y@.take(y.len() as int));
    true
}

/// The characters `v[from..to]`.
pub fn slice_of(v: &Vec<char>, from: usize, to: usize) -> (r: Vec<char>)
    requires
        from <= to <= v.len(),
    ensures
        r@ == v@.subrange(from as int, to as int),
{
    let mut r: Vec<char> = Vec::new();
    let mut i: usize = from;
    while i < to
        invariant
            from <= i <= to <= v.len(),
            r@ == v@.subrange(from as int, i as int),
        decreases to - i,
    {
        r.push(v[i]);
        i = i + 1;
    }
    r
}

/// The concatenation of two character vectors.
pub fn concat(a: &Vec<char>, b: &Vec<char>) -> (r: Vec<char>)
    ensures
        r@ == a@ + b@,
{
    let mut r = slice_of(a, 0, a.len());
    let mut i: usize = 0;
    while i < b.len()
        invariant
            i <= b.len(),
            r@ == a@ + b@.take(i as int),
        decreases b.len() - i,
    {
        r.push(b[i]);
        i = i + 1;
        assert(r@ == a@ + b@.take(i as int));
    }
    assert(b@.take(b.len() as int) == b@);
    r
}


/// The concatenation of two strings.
pub fn str_concat(a: &str, b: &str) -> (r: String)
    ensures
        r@ == a@ + b@,
{
    let x = chars_of(a);
    let y = chars_of(b);
    string_of(&concat(&x, &y))
}

/// The lower-case form of a string (`str::to_lowercase`), whose mapping is
/// given by Unicode's case tables.
pub uninterp spec fn lowercase(s: Seq<char>) -> Seq<char>;

/// The upper-case form of a string (`str::to_uppercase`).
pub uninterp spec fn uppercase(s: Seq<char>) -> Seq<char>;

/// Calls `str::to_lowercase`; its result is named `lowercase` of the input.
#[verifier::external_body]
pub(crate) fn to_lowercase(s: &str) -> (r: String)
    ensures
        r@ == lowercase(s@),
{
    s.to_lowercase()
}

/// Calls `str::to_uppercase`; its result is named `uppercase` of the input.
#[verifier::external_body]
pub(crate) fn to_uppercase(s: &str) -> (r: String)
    ensures
        r@ == uppercase(s@),
{
    s.to_uppercase()
}

// ───────────────────────── searching ─────────────────────────

/// `p` occurs in `s` at `i`.
pub fn matches_at(s: &Vec<char>, p: &Vec<char>, i: usize) -> (r: bool)
    requires
        i + p.len() <= s.len(),
    ensures
        r == match_at(s@, p@, i as int),
{
    let mut j: usize = 0;
    while j < p.len()
        invariant
            i + p.len() <= s.len(),
            j <= p.len(),
            s@.subrange(i as int, i + j) == p@.take(j as int),
        decreases p.len() - j,
    {
        if s[i + j] != p[j] {
            assert(s@.subrange(i as int, i + p.len())[j as int] != p@[j as int]);
            return false;
        }
        assert(s@.subrange(i as int, i + j + 1) == s@.subrange(i as int, i + j).push(s@[i + j]));
        assert(p@.take(j + 1) == p@.take(j as int).push(p@[j as int]));
        j = j + 1;
    }
    assert(p@.take(p.len() as int) == p@);
    true
}

/// The first position at or after `from` where `p` occurs in `s`.
pub fn find_in(s: &Vec<char>, p: &Vec<char>, from: usize) -> (r: Option<usize>)
    ensures
        r matches Some(j) ==> find_from(s@, p@, from as nat) == Some(j as nat),
        r is None ==> find_from(s@, p@, from as nat) is None,
{
    let mut i: usize = from;
    loop
        invariant
            from <= i,
            find_from(s@, p@, from as nat) == find_from(s@, p@, i as nat),
        decreases s.len() + 1 - i,
    {
        if i > s.len() || p.len() > s.len() - i {
            return None;
        }
        if matches_at(s, p, i) {
            return Some(i);
        }
        if i >= s.len() {
            return None;
        }
        i = i + 1;
    }
}

/// `s` begins with `p`.
pub fn has_prefix(s: &Vec<char>, p: &Vec<char>) -> (r: bool)
    ensures
        r == starts_with(s@, p@),
{
    if p.len() > s.len() {
        false
    } else {
        matches_at(s, p, 0)
    }
}

/// `s` ends with `p`.
pub fn has_suffix(s: &Vec<char>, p: &Vec<char>) -> (r: bool)
    ensures
        r == ends_with(s@, p@),
{
    if p.len() > s.len() {
        false
    } else {
        matches_at(s, p, s.len() - p.len())
    }
}

/// `p` occurs in `s`.
pub fn has_sub(s: &Vec<char>, p: &Vec<char>) -> (r: bool)
    ensures
        r == contains(s@, p@),
{
    find_in(s, p, 0).is_some()
}

// ───────────────────────── splitting ─────────────────────────

/// The pieces of `s` between the occurrences of `p`.
pub fn split_on(s: &Vec<char>, p: &Vec<char>) -> (r: Vec<Vec<char>>)
    requires
        p.len() > 0,
    ensures
        views(r@) == split(s@, p@),
{
    let mut pieces: Vec<Vec<char>> = Vec::new();
    let mut rest = slice_of(s, 0, s.len());
    assert(rest@ == s@);
    loop
        invariant
            p.len() > 0,
            split(s@, p@) == views(pieces@) + split(rest@, p@),
        decreases rest.len(),
    {
        proof {
            lemma_find_from(rest@, p@, 0);
        }
        match find_in(&rest, p, 0) {
            Some(i) => {
                let head = slice_of(&rest, 0, i);
                let tail = slice_of(&rest, i + p.len(), rest.len());
                let ghost old_pieces = views(pieces@);
                pieces.push(head);
                assert(views(pieces@) =~= old_pieces.push(head@));
                assert(split(rest@, p@) == seq![head@] + split(tail@, p@));
                rest = tail;
            },
            None => {
                let ghost old_pieces = views(pieces@);
                let ghost last = rest@;
                assert(split(rest@, p@) == seq![last]);
                pieces.push(rest);
                assert(views(pieces@) =~= old_pieces.push(last));
                return pieces;
            },
        }
    }
}

/// The part of `s` before the first occurrence of `p`, or all of `s`.
pub fn prefix_before(s: &Vec<char>, p: &Vec<char>) -> (r: Vec<char>)
    ensures
        r@ == before_first(s@, p@),
{
    proof {
        lemma_find_from(s@, p@, 0);
    }
    match find_in(s, p, 0) {
        Some(i) => slice_of(s, 0, i),
        None => slice_of(s, 0, s.len()),
    }
}

/// The pieces joined with `sep`.
pub fn join_with(pieces: &Vec<Vec<char>>, sep: &Vec<char>) -> (r: Vec<char>)
    ensures
        r@ == join(views(pieces@), sep@),
{
    let n = pieces.len();
    if n == 0 {
        return Vec::new();
    }
    let ghost dv = views(pieces@);
    let mut r = slice_of(&pieces[n - 1], 0, pieces[n - 1].len());
    let mut k: usize = n - 1;
    assert(dv.subrange(n - 1, n as int) =~= seq![dv[n - 1]]);
    while k > 0
        invariant
            0 <= k < n == pieces.len(),
            dv == views(pieces@),
            r@ == join(dv.subrange(k as int, n as int), sep@),
        decreases k,
    {
        let piece = &pieces[k - 1];
        let with_sep = concat(piece, sep);
        r = concat(&with_sep, &r);
        assert(dv.subrange(k - 1, n as int).drop_first() =~= dv.subrange(k as int, n as int));
        assert(dv.subrange(k - 1, n as int)[0] == piece@);
        k = k - 1;
    }
    assert(dv.subrange(0, n as int) =~= dv);
    r
}

/// Every occurrence of `from` in `s` replaced by `to`.
pub fn replace_all(s: &Vec<char>, from: &Vec<char>, to: &Vec<char>) -> (r: Vec<char>)
    requires
        from.len() > 0,
    ensures
        r@ == replace(s@, from@, to@),
{
    let pieces = split_on(s, from);
    join_with(&pieces, to)
}

/// `s` with every leading repetition of `p` removed.
pub fn strip_prefixes(s: &Vec<char>, p: &Vec<char>) -> (r: Vec<char>)
    requires
        p.len() > 0,
    ensures
        r@ == strip_all_prefix(s@, p@),
{
    let mut rest = slice_of(s, 0, s.len());
    assert(rest@ =~= s@);
    while has_prefix(&rest, p)
        invariant
            p.len() > 0,
            strip_all_prefix(s@, p@) == strip_all_prefix(rest@, p@),
        decreases rest.len(),
    {
        rest = slice_of(&rest, p.len(), rest.len());
    }
    rest
}

/// The lines of `s`.
pub fn lines_of(s: &Vec<char>) -> (r: Vec<Vec<char>>)
    ensures
        views(r@) == lines(s@),
{
    let mut out: Vec<Vec<char>> = Vec::new();
    let mut rest = slice_of(s, 0, s.len());
    let nl = vec!['\n'];
    assert(nl@ == seq!['\n']);
    assert(rest@ == s@);
    while rest.len() > 0
        invariant
            nl@ == seq!['\n'],
            lines(s@) == views(out@) + lines(rest@),
        decreases rest.len(),
    {
        proof {
            lemma_find_from(rest@, nl@, 0);
        }
        let ghost old_out = views(out@);
        match find_in(&rest, &nl, 0) {
            Some(i) => {
                let mut line = slice_of(&rest, 0, i);
                if line.len() > 0 && line[line.len() - 1] == '\r' {
                    line = slice_of(&line, 0, line.len() - 1);
                }
                assert(line@ == strip_cr(rest@.take(i as int)));
                let tail = slice_of(&rest, i + 1, rest.len());
                out.push(line);
                assert(views(out@) =~= old_out.push(line@));
                assert(lines(rest@) == seq![line@] + lines(tail@));
                rest = tail;
            },
            None => {
                let whole = slice_of(&rest, 0, rest.len());
                assert(whole@ =~= rest@);
                assert(lines(rest@) == seq![whole@]);
                out.push(whole);
                assert(views(out@) =~= old_out.push(whole@));
                rest = Vec::new();
                assert(lines(rest@) == Seq::<Seq<char>>::empty());
            },
        }
    }
    assert(lines(rest@) == Seq::<Seq<char>>::empty());
    out
}


// ───────────────────────── trimming ─────────────────────────

/// `c` has the Unicode `White_Space` property (`char::is_whitespace`).
pub fn is_whitespace(c: char) -> (r: bool)
    ensures
        r == is_ws(c),
{
    let u = c as u32;
    (0x9 <= u && u <= 0xD) || u == 0x20 || u == 0x85 || u == 0xA0 || u == 0x1680 || (0x2000 <= u
        && u <= 0x200A) || u == 0x2028 || u == 0x2029 || u == 0x202F || u == 0x205F || u == 0x3000
}

/// `s` with white space removed at both ends.
pub fn trimmed(s: &Vec<char>) -> (r: Vec<char>)
    ensures
        r@ == trim(s@),
{
    let mut start: usize = 0;
    assert(s@.skip(0) =~= s@);
    while start < s.len() && is_whitespace(s[start])
        invariant
            start <= s.len(),
            trim_start(s@) == trim_start(s@.skip(start as int)),
        decreases s.len() - start,
    {
        assert(s@.skip(start as int).drop_first() =~= s@.skip(start + 1));
        start = start + 1;
    }
    assert(trim_start(s@.skip(start as int)) == s@.skip(start as int));
    let mut end: usize = s.len();
    let ghost t = s@.skip(start as int);
    assert(t.take(t.len() as int) =~= t);
    while end > start && is_whitespace(s[end - 1])
        invariant
            start <= end <= s.len(),
            t == s@.skip(start as int),
            trim_end(t) == trim_end(t.take(end - start)),
        decreases end,
    {
        assert(t.take(end - start).drop_last() =~= t.take(end - start - 1));
        end = end - 1;
    }
    assert(trim_end(t.take(end - start)) == t.take(end - start));
    let r = slice_of(s, start, end);
    assert(r@ =~= t.take(end - start));
    r
}

/// The string `s` trimmed (`str::trim`), as characters.
pub fn trim_str(s: &str) -> (r: Vec<char>)
    ensures
        r@ == trim(s@),
{
    let v = chars_of(s);
    trimmed(&v)
}

// ───────────────────────── numbers ─────────────────────────

proof fn lemma_digits_value_grows(d: Seq<char>, k: int)
    requires
        0 <= k <= d.len(),
        all_digits(d),
    ensures
        digits_value(d.take(k)) <= digits_value(d),
    decreases d.len() - k,
{
    if k < d.len() {
        lemma_digits_value_grows(d, k + 1);
        assert(d.take(k + 1).drop_last() =~= d.take(k));
        assert(is_digit(d[k]));
    }
    assert(d.take(d.len() as int) =~= d);
}

/// The unsigned integer written in `s`, if it is one no larger than `max`
/// (`str::parse` for `u16`, `u32` and `u64`).
pub fn parse_uint(s: &Vec<char>, max: u64) -> (r: Option<u64>)
    requires
        max >= 9,
    ensures
        r matches Some(v) ==> parse_unsigned(s@, max as nat) == Some(v as nat),
        r is None ==> parse_unsigned(s@, max as nat) is None,
{
    let start: usize = if s.len() > 0 && s[0] == '+' { 1 } else { 0 };
    let ghost d = unsigned_digits(s@);
    assert(d =~= s@.skip(start as int));
    if start >= s.len() {
        return None;
    }
    let mut acc: u64 = 0;
    let mut i: usize = start;
    while i < s.len()
        invariant
            start <= i <= s.len(),
            d == s@.skip(start as int),
            d == unsigned_digits(s@),
            max >= 9,
            all_digits(d.take(i - start)),
            acc as nat == digits_value(d.take(i - start)),
            acc <= max,
        decreases s.len() - i,
    {
        let c = s[i];
        if c < '0' || c > '9' {
            assert(!is_digit(d[i - start]));
            assert(!all_digits(d));
            return None;
        }
        let dv = (c as u32 - '0' as u32) as u64;
        assert(d.take(i - start + 1).drop_last() =~= d.take(i - start));
        assert(d.take(i - start + 1).last() == c);
        assert(digits_value(d.take(i - start + 1)) == acc * 10 + dv);
        if acc > (max - dv) / 10 {
            proof {
                assert(acc * 10 + dv > max) by (nonlinear_arith)
                    requires
                        acc > (max - dv) / 10,
                        dv <= 9,
                        max >= 9,
                ;
                if all_digits(d) {
                    lemma_digits_value_grows(d, i - start + 1);
                }
            }
            return None;
        }
        assert(acc * 10 + dv <= max) by (nonlinear_arith)
            requires
                acc <= (max - dv) / 10,
                dv <= 9,
                max >= 9,
        ;
        acc = acc * 10 + dv;
        i = i + 1;
    }
    assert(d.take(i - start) =~= d);
    Some(acc)
}

} // verus!
