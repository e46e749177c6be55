//! The order of strings, and lists of strings kept in that order without
//! repeats: how the service types found by a wildcard search are held.

use vstd::prelude::*;

verus! {

/// `a` and `b` agree on their first `k` characters, and there `a` ends
/// while `b` goes on, or `a` has the smaller character.
pub open spec fn precedes_at(a: Seq<char>, b: Seq<char>, k: int) -> bool {
    &&& 0 <= k <= a.len()
    &&& k < b.len()
    &&& a.subrange(0, k) == b.subrange(0, k)
    &&& (k == a.len() || a[k] < b[k])
}

/// Whether `a` comes strictly before `b` in the order of strings, which
/// goes by the characters' code points from the front.
pub open spec fn text_lt(a: Seq<char>, b: Seq<char>) -> bool {
    exists|k: int| precedes_at(a, b, k)
}

/// What the strings of `v` say, in their order.
pub open spec fn texts(v: Seq<String>) -> Seq<Seq<char>> {
    Seq::new(v.len(), |i: int| v[i]@)
}

/// Every string of `s` comes strictly before all that follow it.
pub open spec fn strictly_sorted(s: Seq<Seq<char>>) -> bool {
    forall|i: int, j: int| 0 <= i < j < s.len() ==> text_lt(#[trigger] s[i], #[trigger] s[j])
}

/// `p` parts `s` into the strings that come before `x` and the rest.
pub open spec fn is_rank(s: Seq<Seq<char>>, x: Seq<char>, p: int) -> bool {
    &&& 0 <= p <= s.len()
    &&& forall|i: int| 0 <= i < p ==> text_lt(#[trigger] s[i], x)
    &&& forall|i: int| p <= i < s.len() ==> !text_lt(#[trigger] s[i], x)
}

/// The place of `x` in the sorted list `s`: how many of its strings come
/// before `x`.
pub open spec fn rank(s: Seq<Seq<char>>, x: Seq<char>) -> int {
    choose|p: int| is_rank(s, x, p)
}

/// The sorted list `s` with `x` put in its place, unless `s` holds it
/// already.
pub open spec fn with_text(s: Seq<Seq<char>>, x: Seq<char>) -> Seq<Seq<char>> {
    if s.contains(x) {
        s
    } else {
        s.insert(rank(s, x), x)
    }
}

/// Texts with the same first `k` characters agree at every place before `k`.
proof fn lemma_agree_before(a: Seq<char>, b: Seq<char>, k: int, i: int)
    requires
        0 <= i < k <= a.len(),
        k <= b.len(),
        a.subrange(0, k) == b.subrange(0, k),
    ensures
        a[i] == b[i],
{
    assert(a.subrange(0, k)[i] == a[i]);
    assert(b.subrange(0, k)[i] == b[i]);
}

/// Two texts that agree up to `i` and differ there are ordered by their
/// characters at `i`.
pub proof fn lemma_decided_at(a: Seq<char>, b: Seq<char>, i: int)
    requires
        0 <= i < a.len(),
        i < b.len(),
        a.subrange(0, i) == b.subrange(0, i),
        a[i] != b[i],
    ensures
        text_lt(a, b) == (a[i] < b[i]),
{
    if a[i] < b[i] {
        assert(precedes_at(a, b, i));
    }
    if text_lt(a, b) {
        let k = choose|k: int| precedes_at(a, b, k);
        if k < i {
            lemma_agree_before(a, b, i, k);
        } else if k > i {
            lemma_agree_before(a, b, k, i);
        }
    }
}

/// Where one text ends and the two agreed so far, the shorter comes first.
pub proof fn lemma_decided_by_length(a: Seq<char>, b: Seq<char>, i: int)
    requires
        0 <= i <= a.len(),
        i <= b.len(),
        i == a.len() || i == b.len(),
        a.subrange(0, i) == b.subrange(0, i),
    ensures
        text_lt(a, b) == (a.len() < b.len()),
{
    if a.len() < b.len() {
        assert(precedes_at(a, b, i));
    }
    if text_lt(a, b) {
        let k = choose|k: int| precedes_at(a, b, k);
        if k < i {
            lemma_agree_before(a, b, i, k);
        }
    }
}

/// No text comes before itself.
pub proof fn lemma_text_lt_irreflexive(a: Seq<char>)
    ensures
        !text_lt(a, a),
{
    lemma_decided_by_length(a, a, a.len() as int);
}

/// The order of strings is transitive.
pub proof fn lemma_text_lt_transitive(a: Seq<char>, b: Seq<char>, c: Seq<char>)
    requires
        text_lt(a, b),
        text_lt(b, c),
    ensures
        text_lt(a, c),
{
    let k1 = choose|k: int| precedes_at(a, b, k);
    let k2 = choose|k: int| precedes_at(b, c, k);
    let k = if k1 <= k2 {
        k1
    } else {
        k2
    };
    assert(a.subrange(0, k) =~= c.subrange(0, k)) by {
        assert forall|i: int| 0 <= i < k implies a[i] == c[i] by {
            lemma_agree_before(a, b, k1, i);
            lemma_agree_before(b, c, k2, i);
        }
    }
    if k1 < k2 {
        lemma_agree_before(b, c, k2, k1);
    } else if k2 < k1 {
        lemma_agree_before(a, b, k1, k2);
    }
    assert(precedes_at(a, c, k));
}

proof fn lemma_total_from(a: Seq<char>, b: Seq<char>, i: int)
    requires
        0 <= i <= a.len(),
        i <= b.len(),
        a.subrange(0, i) == b.subrange(0, i),
        a != b,
    ensures
        text_lt(a, b) || text_lt(b, a),
    decreases a.len() - i,
{
    if i == a.len() || i == b.len() {
        lemma_decided_by_length(a, b, i);
        lemma_decided_by_length(b, a, i);
        if a.len() == b.len() {
            assert(a.subrange(0, i) =~= a);
            assert(b.subrange(0, i) =~= b);
        }
    } else if a[i] != b[i] {
        lemma_decided_at(a, b, i);
        lemma_decided_at(b, a, i);
    } else {
        assert(a.subrange(0, i + 1) =~= b.subrange(0, i + 1)) by {
            assert forall|j: int| 0 <= j < i + 1 implies a[j] == b[j] by {
                if j < i {
                    lemma_agree_before(a, b, i, j);
                }
            }
        }
        lemma_total_from(a, b, i + 1);
    }
}

/// Of two different texts one comes before the other.
pub proof fn lemma_text_lt_total(a: Seq<char>, b: Seq<char>)
    requires
        a != b,
    ensures
        text_lt(a, b) || text_lt(b, a),
{
    assert(a.subrange(0, 0) =~= b.subrange(0, 0));
    lemma_total_from(a, b, 0);
}

/// Whether `a` comes strictly before `b` in the order of strings.
pub fn text_before(a: &str, b: &str) -> (before: bool)
    ensures
        before == text_lt(a@, b@),
{
    let la: usize = a.unicode_len();
    let lb: usize = b.unicode_len();
    let mut i: usize = 0;
    while i < la && i < lb
        invariant
            la == a@.len(),
            lb == b@.len(),
            i <= la,
            i <= lb,
            a@.subrange(0, i as int) =~= b@.subrange(0, i as int),
        decreases la - i,
    {
        let x: char = a.get_char(i);
        let y: char = b.get_char(i);
        if x != y {
            proof {
                lemma_decided_at(a@, b@, i as int);
            }
            return (x as u32) < (y as u32);
        }
        proof {
            assert forall|j: int| 0 <= j < i + 1 implies a@[j] == b@[j] by {
                if j < i {
                    lemma_agree_before(a@, b@, i as int, j);
                }
            }
        }
        i = i + 1;
    }
    proof {
        lemma_decided_by_length(a@, b@, i as int);
    }
    la < lb
}

/// A sorted list has one place for `x`.
pub proof fn lemma_rank_unique(s: Seq<Seq<char>>, x: Seq<char>, p: int, q: int)
    requires
        is_rank(s, x, p),
        is_rank(s, x, q),
    ensures
        p == q,
{
    if p < q {
        assert(text_lt(s[p], x));
    } else if q < p {
        assert(text_lt(s[q], x));
    }
}

/// Putting a text into a sorted list leaves the list sorted, and adds `x`
/// to what it holds and nothing else.
pub proof fn lemma_with_text(s: Seq<Seq<char>>, x: Seq<char>)
    requires
        strictly_sorted(s),
    ensures
        strictly_sorted(with_text(s, x)),
        forall|y: Seq<char>| with_text(s, x).contains(y) <==> (s.contains(y) || y == x),
        s.contains(x) ==> with_text(s, x) == s,
        !s.contains(x) ==> with_text(s, x).len() == s.len() + 1,
{
    let t = with_text(s, x);
    if s.contains(x) {
    } else {
        let p = lemma_rank_exists(s, x);
        lemma_rank_unique(s, x, p, rank(s, x));
        assert forall|i: int, j: int| 0 <= i < j < t.len() implies text_lt(
            #[trigger] t[i],
            #[trigger] t[j],
        ) by {
            if j == p {
                assert(t[i] == s[i]);
            } else if i == p {
                assert(t[j] == s[j - 1]);
                assert(!text_lt(s[j - 1], x));
                assert(s.contains(s[j - 1]));
                lemma_text_lt_total(s[j - 1], x);
            } else {
                let oi = if i < p {
                    i
                } else {
                    i - 1
                };
                let oj = if j < p {
                    j
                } else {
                    j - 1
                };
                assert(t[i] == s[oi]);
                assert(t[j] == s[oj]);
            }
        }
        assert forall|y: Seq<char>| t.contains(y) <==> (s.contains(y) || y == x) by {
            if t.contains(y) {
                let i = choose|i: int| 0 <= i < t.len() && t[i] == y;
                if i < p {
                    assert(s[i] == y);
                } else if i > p {
                    assert(s[i - 1] == y);
                }
            }
            if s.contains(y) {
                let i = choose|i: int| 0 <= i < s.len() && s[i] == y;
                if i < p {
                    assert(t[i] == y);
                } else {
                    assert(t[i + 1] == y);
                }
            }
            if y == x {
                assert(t[p] == y);
            }
        }
    }
}

/// In a sorted list the strings before `x` come first: a place for `x`
/// exists.
pub proof fn lemma_rank_exists(s: Seq<Seq<char>>, x: Seq<char>) -> (p: int)
    requires
        strictly_sorted(s),
    ensures
        is_rank(s, x, p),
        p == rank(s, x),
{
    let p = lemma_rank_from(s, x, 0);
    lemma_rank_unique(s, x, p, rank(s, x));
    p
}

proof fn lemma_rank_from(s: Seq<Seq<char>>, x: Seq<char>, from: int) -> (p: int)
    requires
        strictly_sorted(s),
        0 <= from <= s.len(),
        forall|i: int| 0 <= i < from ==> text_lt(#[trigger] s[i], x),
    ensures
        is_rank(s, x, p),
    decreases s.len() - from,
{
    if from == s.len() {
        from
    } else if text_lt(s[from], x) {
        lemma_rank_from(s, x, from + 1)
    } else {
        lemma_rank_here(s, x, from);
        from
    }
}

/// Where the strings before `p` come before `x` and the one at `p` does
/// not, `p` is the place of `x`.
pub proof fn lemma_rank_here(s: Seq<Seq<char>>, x: Seq<char>, p: int)
    requires
        strictly_sorted(s),
        0 <= p <= s.len(),
        forall|i: int| 0 <= i < p ==> text_lt(#[trigger] s[i], x),
        p < s.len() ==> !text_lt(s[p], x),
    ensures
        is_rank(s, x, p),
        rank(s, x) == p,
{
    assert forall|i: int| p <= i < s.len() implies !text_lt(#[trigger] s[i], x) by {
        if i > p && text_lt(s[i], x) {
            lemma_text_lt_transitive(s[p], s[i], x);
        }
    }
    assert(is_rank(s, x, p));
    lemma_rank_unique(s, x, p, rank(s, x));
}

/// Puts `x` into the sorted list at its place, unless the list holds the
/// same text already.
pub fn insert_text(list: &mut Vec<String>, x: String)
    requires
        strictly_sorted(texts(old(list)@)),
    ensures
        texts(final(list)@) == with_text(texts(old(list)@), x@),
        strictly_sorted(texts(final(list)@)),
{
    let ghost before = texts(list@);
    let mut p: usize = 0;
    while p < list.len() && text_before(list[p].as_str(), x.as_str())
        invariant
            p <= list.len(),
            texts(list@) == before,
            forall|i: int| 0 <= i < p ==> text_lt(#[trigger] before[i], x@),
        decreases list.len() - p,
    {
        p = p + 1;
    }
    proof {
        lemma_rank_here(before, x@, p as int);
        lemma_with_text(before, x@);
    }
    if p < list.len() && list[p] == x {
        assert(before[p as int] == x@);
        return ;
    }
    proof {
        assert forall|i: int| 0 <= i < before.len() implies before[i] != x@ by {
            lemma_text_lt_irreflexive(x@);
            if i < p {
                assert(text_lt(before[i], x@));
            } else if i == p {
                assert(before[i] == list@[i]@);
            } else {
                assert(text_lt(before[p as int], before[i]));
                assert(!text_lt(before[p as int], x@));
            }
        }
    }
    list.insert(p, x);
    assert(texts(list@) =~= before.insert(p as int, x@));
}

} // verus!
