//! Orders on text: code-point lexicographic order, sorted sets of strings,
//! and a stable sort expressed through sort keys.

use vstd::prelude::*;
use crate::text::views;

verus! {

/// `a` comes before `b` in code-point lexicographic order (the order of
/// `str`, since UTF-8 keeps the order of code points).
pub open spec fn seq_lt(a: Seq<char>, b: Seq<char>) -> bool
    decreases a.len(),
{
    if a.len() == 0 {
        b.len() > 0
    } else if b.len() == 0 {
        false
    } else if a[0] != b[0] {
        a[0] < b[0]
    } else {
        seq_lt(a.drop_first(), b.drop_first())
    }
}

pub proof fn lemma_lt_irreflexive(a: Seq<char>)
    ensures
        !seq_lt(a, a),
    decreases a.len(),
{
    if a.len() > 0 {
        lemma_lt_irreflexive(a.drop_first());
    }
}

pub proof fn lemma_lt_transitive(a: Seq<char>, b: Seq<char>, c: Seq<char>)
    requires
        seq_lt(a, b),
        seq_lt(b, c),
    ensures
        seq_lt(a, c),
    decreases a.len(),
{
    if a.len() > 0 && b.len() > 0 && c.len() > 0 {
        if a[0] == b[0] && b[0] == c[0] {
            lemma_lt_transitive(a.drop_first(), b.drop_first(), c.drop_first());
        }
    }
}

pub proof fn lemma_lt_total(a: Seq<char>, b: Seq<char>)
    ensures
        a == b || seq_lt(a, b) || seq_lt(b, a),
    decreases a.len(),
{
    if a.len() > 0 && b.len() > 0 {
        if a[0] == b[0] {
            lemma_lt_total(a.drop_first(), b.drop_first());
            if a.drop_first() == b.drop_first() {
                assert(a =~= seq![a[0]] + a.drop_first());
                assert(b =~= seq![b[0]] + b.drop_first());
            }
        }
    } else if a.len() == 0 && b.len() == 0 {
        assert(a =~= b);
    }
}

pub proof fn lemma_lt_asymmetric(a: Seq<char>, b: Seq<char>)
    requires
        seq_lt(a, b),
    ensures
        !seq_lt(b, a),
    decreases a.len(),
{
    if a.len() > 0 && b.len() > 0 && a[0] == b[0] {
        lemma_lt_asymmetric(a.drop_first(), b.drop_first());
    }
}

/// Result of comparing two strings.
#[derive(Debug, Clone, Copy, PartialEq, Eq, Structural)]
pub enum Cmp {
    Less,
    Equal,
    Greater,
}

/// Compares two character sequences in code-point lexicographic order.
pub fn compare_chars(a: &Vec<char>, b: &Vec<char>) -> (r: Cmp)
    ensures
        r == Cmp::Less <==> seq_lt(a@, b@),
        r == Cmp::Equal <==> a@ == b@,
        r == Cmp::Greater <==> seq_lt(b@, a@),
{
    proof {
        lemma_lt_total(a@, b@);
        if seq_lt(a@, b@) {
            lemma_lt_asymmetric(a@, b@);
        }
        lemma_lt_irreflexive(a@);
        assert(a@.skip(0) =~= a@);
        assert(b@.skip(0) =~= b@);
    }
    let mut i: usize = 0;
    while i < a.len() && i < b.len()
        invariant
            i <= a.len(),
            i <= b.len(),
            a@.take(i as int) == b@.take(i as int),
            seq_lt(a@, b@) == seq_lt(a@.skip(i as int), b@.skip(i as int)),
            seq_lt(b@, a@) == seq_lt(b@.skip(i as int), a@.skip(i as int)),
        decreases a.len() - i,
    {
        let x = a[i];
        let y = b[i];
        if x != y {
            assert(a@.skip(i as int)[0] == x);
            assert(b@.skip(i as int)[0] == y);
            if x < y {
                return Cmp::Less;
            } else {
                return Cmp::Greater;
            }
        }
        assert(a@.skip(i as int).drop_first() =~= a@.skip(i + 1));
        assert(b@.skip(i as int).drop_first() =~= b@.skip(i + 1));
        assert(a@.take(i + 1) =~= a@.take(i as int).push(x));
        assert(b@.take(i + 1) =~= b@.take(i as int).push(y));
        i = i + 1;
    }
    if i == a.len() && i == b.len() {
        assert(a@ =~= a@.take(i as int));
        assert(b@ =~= b@.take(i as int));
        Cmp::Equal
    } else if i == a.len() {
        assert(a@.skip(i as int).len() == 0);
        Cmp::Less
    } else {
        assert(b@.skip(i as int).len() == 0);
        Cmp::Greater
    }
}

/// Every entry comes strictly before the next ones.
pub open spec fn strictly_sorted(s: Seq<Seq<char>>) -> bool {
    forall|i: int, j: int| 0 <= i < j < s.len() ==> seq_lt(#[trigger] s[i], #[trigger] s[j])
}

/// Inserts `x` into a strictly sorted vector unless it is there already.
pub fn insert_unique(v: &mut Vec<Vec<char>>, x: Vec<char>)
    requires
        strictly_sorted(views(old(v)@)),
    ensures
        strictly_sorted(views(final(v)@)),
        views(final(v)@).to_set() == views(old(v)@).to_set().insert(x@),
{
    let ghost old_v = views(v@);
    let mut p: usize = 0;
    while p < v.len() && compare_chars(&v[p], &x) == Cmp::Less
        invariant
            p <= v.len(),
            views(v@) == old_v,
            strictly_sorted(old_v),
            forall|k: int| 0 <= k < p ==> seq_lt(#[trigger] old_v[k], x@),
        decreases v.len() - p,
    {
        p = p + 1;
    }
    if p < v.len() && compare_chars(&v[p], &x) == Cmp::Equal {
        assert(old_v.to_set().insert(x@) =~= old_v.to_set()) by {
            assert(old_v.contains(old_v[p as int]));
        }
        return;
    }
    proof {
        if p < v.len() {
            lemma_lt_total(old_v[p as int], x@);
        }
    }
    let ghost xv = x@;
    assert(p < old_v.len() ==> seq_lt(xv, old_v[p as int]));
    assert forall|j: int| p <= j < old_v.len() implies seq_lt(xv, #[trigger] old_v[j]) by {
        if j > p {
            lemma_lt_transitive(xv, old_v[p as int], old_v[j]);
        }
    }
    v.insert(p, x);
    let ghost nv = views(v@);
    assert(nv =~= old_v.insert(p as int, xv));
    assert forall|i: int, j: int| 0 <= i < j < nv.len() implies seq_lt(#[trigger] nv[i], #[trigger] nv[j]) by {
        if j == p {
        } else if i == p {
            assert(seq_lt(xv, old_v[j - 1]));
        } else if i < p && j > p {
            assert(seq_lt(xv, old_v[j - 1]));
            lemma_lt_transitive(old_v[i], xv, old_v[j - 1]);
        }
    }
    assert(nv.to_set() =~= old_v.to_set().insert(xv)) by {
        assert forall|e: Seq<char>| nv.to_set().contains(e) <==> old_v.to_set().insert(xv).contains(e) by {
            if nv.contains(e) {
                let k = choose|k: int| 0 <= k < nv.len() && nv[k] == e;
                if k < p {
                    assert(old_v[k] == e);
                } else if k > p {
                    assert(old_v[k - 1] == e);
                }
            }
            if old_v.contains(e) {
                let k = choose|k: int| 0 <= k < old_v.len() && old_v[k] == e;
                if k < p {
                    assert(nv[k] == e);
                } else {
                    assert(nv[k + 1] == e);
                }
            }
            if e == xv {
                assert(nv[p as int] == e);
            }
        }
    }
}

/// Entry `a` comes before entry `b` in a stable sort by rank, then key: a
/// lower rank first, then the key that comes first, then the earlier entry.
pub open spec fn key_before(ranks: Seq<u8>, keys: Seq<Seq<char>>, a: int, b: int) -> bool {
    ||| ranks[a] < ranks[b]
    ||| (ranks[a] == ranks[b] && seq_lt(keys[a], keys[b]))
    ||| (ranks[a] == ranks[b] && keys[a] == keys[b] && a < b)
}

/// `p` lists each of `0..n` once.
pub open spec fn is_permutation(p: Seq<usize>, n: nat) -> bool {
    &&& p.len() == n
    &&& forall|k: int| 0 <= k < n ==> #[trigger] p[k] < n
    &&& forall|a: int, b: int| 0 <= a < b < n ==> #[trigger] p[a] != #[trigger] p[b]
}

/// The entries listed in `p` come in the order of `key_before`.
pub open spec fn ordered_by_keys(p: Seq<usize>, ranks: Seq<u8>, keys: Seq<Seq<char>>) -> bool {
    forall|a: int, b: int| 0 <= a < b < p.len() ==> key_before(ranks, keys, #[trigger] p[a] as int, #[trigger] p[b] as int)
}

proof fn lemma_key_before_transitive(ranks: Seq<u8>, keys: Seq<Seq<char>>, a: int, b: int, c: int)
    requires
        key_before(ranks, keys, a, b),
        key_before(ranks, keys, b, c),
    ensures
        key_before(ranks, keys, a, c),
{
    if ranks[a] == ranks[b] && ranks[b] == ranks[c] {
        if seq_lt(keys[a], keys[b]) && seq_lt(keys[b], keys[c]) {
            lemma_lt_transitive(keys[a], keys[b], keys[c]);
        }
    }
}

/// Entry `j` goes before the later entry `i`.
fn goes_before(ranks: &Vec<u8>, keys: &Vec<Vec<char>>, j: usize, i: usize) -> (r: bool)
    requires
        ranks.len() == keys.len(),
        j < i < ranks.len(),
    ensures
        r == key_before(ranks@, views(keys@), j as int, i as int),
{
    proof {
        lemma_lt_total(keys@[i as int]@, keys@[j as int]@);
        if seq_lt(keys@[j as int]@, keys@[i as int]@) {
            lemma_lt_asymmetric(keys@[j as int]@, keys@[i as int]@);
        }
    }
    ranks[j] < ranks[i] || (ranks[j] == ranks[i] && compare_chars(&keys[i], &keys[j]) != Cmp::Less)
}

/// The order of a stable sort of entries by rank, then key (`sort_by` with
/// a comparison of the ranks, then of the keys): the positions of the
/// entries, first to last.
pub fn stable_order(ranks: &Vec<u8>, keys: &Vec<Vec<char>>) -> (p: Vec<usize>)
    requires
        ranks.len() == keys.len(),
    ensures
        is_permutation(p@, ranks.len() as nat),
        ordered_by_keys(p@, ranks@, views(keys@)),
{
    let ghost kv = views(keys@);
    let mut p: Vec<usize> = Vec::new();
    let mut i: usize = 0;
    while i < ranks.len()
        invariant
            ranks.len() == keys.len(),
            kv == views(keys@),
            i <= ranks.len(),
            p.len() == i,
            forall|k: int| 0 <= k < i ==> #[trigger] p@[k] < i,
            forall|a: int, b: int| 0 <= a < b < i ==> #[trigger] p@[a] != #[trigger] p@[b],
            ordered_by_keys(p@, ranks@, kv),
        decreases ranks.len() - i,
    {
        let mut pos: usize = 0;
        while pos < p.len() && goes_before(ranks, keys, p[pos], i)
            invariant
                ranks.len() == keys.len(),
                kv == views(keys@),
                i < ranks.len(),
                p.len() == i,
                pos <= p.len(),
                forall|k: int| 0 <= k < i ==> #[trigger] p@[k] < i,
                forall|k: int| 0 <= k < pos ==> key_before(ranks@, kv, #[trigger] p@[k] as int, i as int),
            decreases p.len() - pos,
        {
            pos = pos + 1;
        }
        let ghost old_p = p@;
        proof {
            if pos < i {
                let j = old_p[pos as int] as int;
                lemma_lt_total(kv[i as int], kv[j]);
                assert(key_before(ranks@, kv, i as int, j));
                assert forall|k: int| pos <= k < i implies key_before(ranks@, kv, i as int, #[trigger] old_p[k] as int) by {
                    if k > pos {
                        lemma_key_before_transitive(ranks@, kv, i as int, j, old_p[k] as int);
                    }
                }
            }
        }
        p.insert(pos, i);
        assert(p@ =~= old_p.insert(pos as int, i));
        assert forall|a: int, b: int| 0 <= a < b < p.len() implies key_before(ranks@, kv, #[trigger] p@[a] as int, #[trigger] p@[b] as int) by {
            if a < pos && b > pos {
                lemma_key_before_transitive(ranks@, kv, old_p[a] as int, i as int, old_p[b - 1] as int);
            } else if a < pos && b == pos {
            } else if a == pos {
            } else if b < pos {
                assert(key_before(ranks@, kv, old_p[a] as int, old_p[b] as int));
            } else {
                assert(key_before(ranks@, kv, old_p[a - 1] as int, old_p[b - 1] as int));
            }
        }
        i = i + 1;
    }
    p
}

/// Entry `a` comes before entry `b` when sorting by score, highest first,
/// equal scores keeping their order.
pub open spec fn score_before(scores: Seq<i64>, a: int, b: int) -> bool {
    scores[a] > scores[b] || (scores[a] == scores[b] && a < b)
}

/// The entries listed in `p` come highest score first, ties in order.
pub open spec fn ordered_by_score(p: Seq<usize>, scores: Seq<i64>) -> bool {
    forall|a: int, b: int| 0 <= a < b < p.len() ==> score_before(scores, #[trigger] p[a] as int, #[trigger] p[b] as int)
}

/// The order of a stable sort of entries by score, highest first (`sort_by`
/// comparing the second score with the first): the positions of the
/// entries, first to last.
pub fn order_by_score(scores: &Vec<i64>) -> (p: Vec<usize>)
    ensures
        is_permutation(p@, scores.len() as nat),
        ordered_by_score(p@, scores@),
{
    let mut p: Vec<usize> = Vec::new();
    let mut i: usize = 0;
    while i < scores.len()
        invariant
            i <= scores.len(),
            p.len() == i,
            forall|k: int| 0 <= k < i ==> #[trigger] p@[k] < i,
            forall|a: int, b: int| 0 <= a < b < i ==> #[trigger] p@[a] != #[trigger] p@[b],
            ordered_by_score(p@, scores@),
        decreases scores.len() - i,
    {
        let mut pos: usize = 0;
        while pos < p.len() && scores[p[pos]] >= scores[i]
            invariant
                i < scores.len(),
                p.len() == i,
                pos <= p.len(),
                forall|k: int| 0 <= k < i ==> #[trigger] p@[k] < i,
                forall|k: int| 0 <= k < pos ==> score_before(scores@, #[trigger] p@[k] as int, i as int),
            decreases p.len() - pos,
        {
            pos = pos + 1;
        }
        let ghost old_p = p@;
        proof {
            if pos < i {
                assert forall|k: int| pos <= k < i implies score_before(scores@, i as int, #[trigger] old_p[k] as int) by {
                    if k > pos {
                        assert(score_before(scores@, old_p[pos as int] as int, old_p[k] as int));
                    }
                }
            }
        }
        p.insert(pos, i);
        assert(p@ =~= old_p.insert(pos as int, i));
        assert forall|a: int, b: int| 0 <= a < b < p.len() implies score_before(scores@, #[trigger] p@[a] as int, #[trigger] p@[b] as int) by {
            if a < pos && b > pos {
                assert(score_before(scores@, old_p[a] as int, i as int));
                assert(score_before(scores@, i as int, old_p[b - 1] as int));
            } else if b < pos {
                assert(score_before(scores@, old_p[a] as int, old_p[b] as int));
            } else if a > pos {
                assert(score_before(scores@, old_p[a - 1] as int, old_p[b - 1] as int));
            }
        }
        i = i + 1;
    }
    p
}

} // verus!
