//! Stable sorting of positions: both the search ranking and the downloads
//! library list the positions `0..n` of their items ordered by a strict weak
//! order on the items, ties kept in their input order.

use vstd::prelude::*;

verus! {

/// `lt` orders the positions `0..n` as a strict weak order: nothing comes
/// before itself, and what comes before `b` comes before everything that
/// does not come before `b` (which gives transitivity too).
pub open spec fn is_weak_order(n: int, lt: spec_fn(int, int) -> bool) -> bool {
    &&& forall|a: int| 0 <= a < n ==> !#[trigger] lt(a, a)
    &&& forall|a: int, b: int, c: int|
        0 <= a < n && 0 <= b < n && 0 <= c < n && #[trigger] lt(a, b) && (lt(b, c) || !lt(c, b))
            ==> #[trigger] lt(a, c)
}

/// Position `a` goes before position `b`: it is smaller, or they tie and
/// `a` came first.
pub open spec fn stably_before(lt: spec_fn(int, int) -> bool, a: int, b: int) -> bool {
    lt(a, b) || (!lt(b, a) && a < b)
}

/// `p` lists every position of `0..n` once, ordered by `lt`, ties in their
/// input order.
pub open spec fn is_stable_sort(n: int, lt: spec_fn(int, int) -> bool, p: Seq<int>) -> bool {
    &&& p.len() == n
    &&& forall|k: int| 0 <= k < p.len() ==> 0 <= #[trigger] p[k] < n
    &&& forall|j: int| 0 <= j < n ==> #[trigger] p.contains(j)
    &&& forall|k: int, l: int|
        0 <= k < l < p.len() ==> stably_before(lt, #[trigger] p[k], #[trigger] p[l])
}

/// The stable sort of `0..n` by `lt` (there is exactly one; see
/// `lemma_stable_sort_unique`).
pub open spec fn stable_sort(n: int, lt: spec_fn(int, int) -> bool) -> Seq<int> {
    choose|p: Seq<int>| is_stable_sort(n, lt, p)
}

proof fn lemma_sorts_agree_upto(n: int, lt: spec_fn(int, int) -> bool, p: Seq<int>, q: Seq<int>, m: int)
    requires
        is_weak_order(n, lt),
        is_stable_sort(n, lt, p),
        is_stable_sort(n, lt, q),
        0 <= m < p.len(),
    ensures
        forall|j: int| 0 <= j <= m ==> p[j] == q[j],
    decreases m,
{
    if m > 0 {
        lemma_sorts_agree_upto(n, lt, p, q, m - 1);
    }
    assert(q.contains(p[m]));
    let k = choose|k: int| 0 <= k < q.len() && q[k] == p[m];
    assert(p.contains(q[m]));
    let l = choose|l: int| 0 <= l < p.len() && p[l] == q[m];
    if p[m] != q[m] {
        assert(!lt(p[m], p[m]) && !lt(q[m], q[m]));
        if k < m {
            assert(q[k] == p[k]);
            assert(stably_before(lt, p[k], p[m]));
        }
        if l < m {
            assert(q[l] == p[l]);
            assert(stably_before(lt, q[l], q[m]));
        }
        assert(k != m && l != m);
        assert(stably_before(lt, q[m], q[k]));
        assert(stably_before(lt, p[m], p[l]));
        if lt(p[m], q[m]) && lt(q[m], p[m]) {
            assert(lt(p[m], p[m]));
        }
    }
}

/// Two stable sorts by the same weak order are the same.
pub proof fn lemma_stable_sort_unique(n: int, lt: spec_fn(int, int) -> bool, p: Seq<int>, q: Seq<int>)
    requires
        is_weak_order(n, lt),
        is_stable_sort(n, lt, p),
        is_stable_sort(n, lt, q),
    ensures
        p == q,
{
    if p.len() > 0 {
        lemma_sorts_agree_upto(n, lt, p, q, p.len() - 1);
    }
    assert(p =~= q);
}

/// The first position at or after `k` in `p` whose item `x` comes strictly
/// before (or the end of `p`).
pub open spec fn first_above(lt: spec_fn(int, int) -> bool, p: Seq<int>, x: int, k: int) -> int
    decreases p.len() - k,
{
    if k >= p.len() || lt(x, p[k]) {
        k
    } else {
        first_above(lt, p, x, k + 1)
    }
}

proof fn lemma_first_above(lt: spec_fn(int, int) -> bool, p: Seq<int>, x: int, k: int)
    requires
        0 <= k <= p.len(),
    ensures
        k <= first_above(lt, p, x, k) <= p.len(),
        forall|j: int| k <= j < first_above(lt, p, x, k) ==> !lt(x, p[j]),
        first_above(lt, p, x, k) < p.len() ==> lt(x, p[first_above(lt, p, x, k)]),
    decreases p.len() - k,
{
    if !(k >= p.len() || lt(x, p[k])) {
        lemma_first_above(lt, p, x, k + 1);
    }
}

/// `p`, a stable sort of `0..m`, with `m` put in front of the first item
/// that it comes before, is a stable sort of `0..m + 1`.
proof fn lemma_insert_last(n: int, lt: spec_fn(int, int) -> bool, p: Seq<int>, m: int, c: int)
    requires
        is_weak_order(n, lt),
        0 <= m < n,
        is_stable_sort(m, lt, p),
        0 <= c <= p.len(),
        forall|j: int| 0 <= j < c ==> !lt(m, #[trigger] p[j]),
        c < p.len() ==> lt(m, p[c]),
    ensures
        is_stable_sort(m + 1, lt, p.insert(c, m)),
{
    let q = p.insert(c, m);
    assert forall|k: int| 0 <= k < q.len() implies 0 <= #[trigger] q[k] < m + 1 by {
        if k < c {
            assert(q[k] == p[k]);
        } else if k > c {
            assert(q[k] == p[k - 1]);
        }
    }
    assert forall|j: int| 0 <= j < m + 1 implies #[trigger] q.contains(j) by {
        if j == m {
            assert(q[c] == m);
        } else {
            assert(p.contains(j));
            let k = choose|k: int| 0 <= k < p.len() && p[k] == j;
            if k < c {
                assert(q[k] == p[k]);
            } else {
                assert(q[k + 1] == p[k]);
            }
        }
    }
    assert forall|k: int, l: int| 0 <= k < l < q.len() implies stably_before(
        lt,
        #[trigger] q[k],
        #[trigger] q[l],
    ) by {
        if k < c && l < c {
            assert(q[k] == p[k] && q[l] == p[l]);
        } else if k < c && l == c {
            assert(q[k] == p[k]);
            assert(!lt(m, p[k]));
            assert(p[k] < m);
        } else if k < c && l > c {
            assert(q[k] == p[k] && q[l] == p[l - 1]);
        } else if k == c {
            assert(q[l] == p[l - 1]);
            let g = p[c];
            assert(lt(m, g));
            if l - 1 > c {
                let h = p[l - 1];
                assert(stably_before(lt, g, h));
                assert(lt(g, h) || !lt(h, g));
                assert(lt(m, h));
            }
        } else {
            assert(q[k] == p[k - 1] && q[l] == p[l - 1]);
        }
    }
}

proof fn lemma_stable_sort_exists_upto(n: int, lt: spec_fn(int, int) -> bool, m: int)
    requires
        is_weak_order(n, lt),
        0 <= m <= n,
    ensures
        is_stable_sort(m, lt, stable_sort(m, lt)),
    decreases m,
{
    if m == 0 {
        assert(is_stable_sort(0, lt, Seq::<int>::empty()));
    } else {
        lemma_stable_sort_exists_upto(n, lt, m - 1);
        let p = stable_sort(m - 1, lt);
        lemma_first_above(lt, p, m - 1, 0);
        let c = first_above(lt, p, m - 1, 0);
        lemma_insert_last(n, lt, p, m - 1, c);
    }
}

/// Every weak order on `0..n` has a stable sort.
pub proof fn lemma_stable_sort_exists(n: int, lt: spec_fn(int, int) -> bool)
    requires
        is_weak_order(n, lt),
        0 <= n,
    ensures
        is_stable_sort(n, lt, stable_sort(n, lt)),
{
    lemma_stable_sort_exists_upto(n, lt, n);
}

/// The positions `0..n` stably sorted by `lt`, which `before` computes.
pub fn stable_sort_positions<F: Fn(usize, usize) -> bool>(
    n: usize,
    before: F,
    Ghost(lt): Ghost<spec_fn(int, int) -> bool>,
) -> (p: Vec<usize>)
    requires
        is_weak_order(n as int, lt),
        forall|a: usize, b: usize| a < n && b < n ==> #[trigger] before.requires((a, b)),
        forall|a: usize, b: usize, r: bool|
            a < n && b < n && #[trigger] before.ensures((a, b), r) ==> r == lt(a as int, b as int),
    ensures
        is_stable_sort(n as int, lt, p@.map_values(|i: usize| i as int)),
{
    let mut p: Vec<usize> = Vec::new();
    let mut i: usize = 0;
    while i < n
        invariant
            is_weak_order(n as int, lt),
            forall|a: usize, b: usize| a < n && b < n ==> #[trigger] before.requires((a, b)),
            forall|a: usize, b: usize, r: bool|
                a < n && b < n && #[trigger] before.ensures((a, b), r) ==> r == lt(a as int, b as int),
            i <= n,
            is_stable_sort(i as int, lt, p@.map_values(|j: usize| j as int)),
        decreases n - i,
    {
        let ghost pv = p@.map_values(|j: usize| j as int);
        proof {
            assert forall|k: int| 0 <= k < p@.len() implies #[trigger] p@[k] < i by {
                assert(pv[k] == p@[k] as int);
            }
        }
        let mut pos: usize = 0;
        while pos < p.len() && !before(i, p[pos])
            invariant
                forall|a: usize, b: usize| a < n && b < n ==> #[trigger] before.requires((a, b)),
                forall|a: usize, b: usize, r: bool|
                    a < n && b < n && #[trigger] before.ensures((a, b), r) ==> r == lt(
                        a as int,
                        b as int,
                    ),
                i < n,
                pos <= p@.len(),
                forall|k: int| 0 <= k < p@.len() ==> #[trigger] p@[k] < i,
                pv == p@.map_values(|j: usize| j as int),
                is_stable_sort(i as int, lt, pv),
                forall|k: int| 0 <= k < pos ==> !lt(i as int, #[trigger] pv[k]),
            decreases p@.len() - pos,
        {
            assert(pv[pos as int] == p@[pos as int] as int);
            pos = pos + 1;
        }
        proof {
            if pos < p.len() {
                assert(pv[pos as int] == p@[pos as int] as int);
            }
            lemma_insert_last(n as int, lt, pv, i as int, pos as int);
        }
        let ghost old_p = p@;
        p.insert(pos, i);
        proof {
            assert(p@.map_values(|j: usize| j as int) =~= pv.insert(pos as int, i as int));
        }
        i = i + 1;
    }
    p
}

} // verus!
