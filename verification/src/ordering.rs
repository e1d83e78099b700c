//! Lexicographic sort keys and a stable sort over them.
//!
//! Every ordering the views use (sorting debt items, sorting location groups,
//! ranking search matches) is expressed as a `SortKey`: two integer parts and
//! two text parts compared lexicographically in a fixed order. Text parts are
//! sequences of character ranks, so that file paths can be compared by path
//! component (the separator ranks below every other character).
use vstd::prelude::*;

verus! {

/// A lexicographic sort key: `a`, then `b`, then `c`, then `d`, then `e`.
#[derive(Debug)]
pub struct SortKey {
    pub a: i128,
    pub b: Vec<u32>,
    pub c: i128,
    pub d: Vec<u32>,
    pub e: i128,
}

/// Mathematical value of a sort key.
pub type KeyView = (int, Seq<u32>, int, Seq<u32>, int);

impl View for SortKey {
    type V = KeyView;

    open spec fn view(&self) -> KeyView {
        (self.a as int, self.b@, self.c as int, self.d@, self.e as int)
    }
}

/// Lexicographic strict order on rank sequences (a proper prefix comes first).
pub open spec fn seq_lt(x: Seq<u32>, y: Seq<u32>) -> bool
    decreases x.len(),
{
    if x.len() == 0 {
        y.len() > 0
    } else if y.len() == 0 {
        false
    } else if x[0] < y[0] {
        true
    } else if x[0] > y[0] {
        false
    } else {
        seq_lt(x.drop_first(), y.drop_first())
    }
}

/// Strict lexicographic order on sort keys.
pub open spec fn key_lt(x: KeyView, y: KeyView) -> bool {
    ||| x.0 < y.0
    ||| x.0 == y.0 && seq_lt(x.1, y.1)
    ||| x.0 == y.0 && x.1 == y.1 && x.2 < y.2
    ||| x.0 == y.0 && x.1 == y.1 && x.2 == y.2 && seq_lt(x.3, y.3)
    ||| x.0 == y.0 && x.1 == y.1 && x.2 == y.2 && x.3 == y.3 && x.4 < y.4
}

/// Non-strict order on sort keys.
pub open spec fn key_le(x: KeyView, y: KeyView) -> bool {
    key_lt(x, y) || x == y
}

/// Order on (key, original position) pairs: by key, ties by position.
pub open spec fn pair_lt(keys: Seq<KeyView>, p: int, q: int) -> bool {
    key_lt(keys[p], keys[q]) || (keys[p] == keys[q] && p < q)
}

/// `perm` lists every position of `keys` exactly once, ordered by key with
/// equal keys kept in their original order: the result of a stable sort.
pub open spec fn is_stable_sorted(keys: Seq<KeyView>, perm: Seq<int>) -> bool {
    &&& perm.len() == keys.len()
    &&& forall|m: int| 0 <= m < perm.len() ==> 0 <= #[trigger] perm[m] < keys.len()
    &&& forall|p: int| 0 <= p < keys.len() ==> #[trigger] perm.contains(p)
    &&& forall|m1: int, m2: int|
        0 <= m1 < m2 < perm.len() ==> pair_lt(keys, #[trigger] perm[m1], #[trigger] perm[m2])
}

/// The stable sort order of `keys` (unique by `lemma_stable_sorted_unique`).
pub open spec fn stable_order(keys: Seq<KeyView>) -> Seq<int> {
    choose|perm: Seq<int>| is_stable_sorted(keys, perm)
}

/// Rearranges `s` by the positions listed in `perm`.
pub open spec fn permute<T>(s: Seq<T>, perm: Seq<int>) -> Seq<T> {
    Seq::new(perm.len(), |m: int| s[perm[m]])
}

/// `s` stably sorted by the keys given for its positions.
pub open spec fn sorted_by_keys<T>(s: Seq<T>, keys: Seq<KeyView>) -> Seq<T> {
    permute(s, stable_order(keys))
}

pub proof fn lemma_seq_lt_irrefl(x: Seq<u32>)
    ensures
        !seq_lt(x, x),
    decreases x.len(),
{
    if x.len() > 0 {
        lemma_seq_lt_irrefl(x.drop_first());
    }
}

pub proof fn lemma_seq_lt_trans(x: Seq<u32>, y: Seq<u32>, z: Seq<u32>)
    requires
        seq_lt(x, y),
        seq_lt(y, z),
    ensures
        seq_lt(x, z),
    decreases x.len(),
{
    if x.len() > 0 && y.len() > 0 && z.len() > 0 {
        if x[0] == y[0] && y[0] == z[0] {
            lemma_seq_lt_trans(x.drop_first(), y.drop_first(), z.drop_first());
        }
    }
}

pub proof fn lemma_seq_lt_total(x: Seq<u32>, y: Seq<u32>)
    ensures
        seq_lt(x, y) || seq_lt(y, x) || x == y,
    decreases x.len(),
{
    if x.len() > 0 && y.len() > 0 && x[0] == y[0] {
        lemma_seq_lt_total(x.drop_first(), y.drop_first());
        if x.drop_first() == y.drop_first() {
            assert(x =~= seq![x[0]] + x.drop_first());
            assert(y =~= seq![y[0]] + y.drop_first());
        }
    } else if x.len() == 0 && y.len() == 0 {
        assert(x =~= y);
    }
}

pub proof fn lemma_seq_lt_asym(x: Seq<u32>, y: Seq<u32>)
    requires
        seq_lt(x, y),
    ensures
        !seq_lt(y, x),
{
    if seq_lt(y, x) {
        lemma_seq_lt_trans(x, y, x);
        lemma_seq_lt_irrefl(x);
    }
}

/// `key_lt` is a strict total order.
pub proof fn lemma_key_order()
    ensures
        forall|x: KeyView| !key_lt(x, x),
        forall|x: KeyView, y: KeyView, z: KeyView|
            #![trigger key_lt(x, y), key_lt(y, z)]
            key_lt(x, y) && key_lt(y, z) ==> key_lt(x, z),
        forall|x: KeyView, y: KeyView| #[trigger] key_lt(x, y) || key_lt(y, x) || x == y,
{
    assert forall|x: KeyView| !key_lt(x, x) by {
        lemma_seq_lt_irrefl(x.1);
        lemma_seq_lt_irrefl(x.3);
    }
    assert forall|x: KeyView, y: KeyView, z: KeyView|
        #![trigger key_lt(x, y), key_lt(y, z)]
        key_lt(x, y) && key_lt(y, z) implies key_lt(x, z) by {
        if seq_lt(x.1, y.1) && seq_lt(y.1, z.1) {
            lemma_seq_lt_trans(x.1, y.1, z.1);
        }
        if seq_lt(x.3, y.3) && seq_lt(y.3, z.3) {
            lemma_seq_lt_trans(x.3, y.3, z.3);
        }
    }
    assert forall|x: KeyView, y: KeyView| #[trigger] key_lt(x, y) || key_lt(y, x) || x == y by {
        lemma_seq_lt_total(x.1, y.1);
        lemma_seq_lt_total(x.3, y.3);
    }
}

/// There is at most one stable sort order of a key sequence.
pub proof fn lemma_stable_sorted_unique(keys: Seq<KeyView>, p1: Seq<int>, p2: Seq<int>)
    requires
        is_stable_sorted(keys, p1),
        is_stable_sorted(keys, p2),
    ensures
        p1 == p2,
{
    lemma_key_order();
    assert forall|i: int| 0 <= i < p1.len() implies p1[i] == p2[i] by {
        lemma_unique_at(keys, p1, p2, i);
    }
    assert(p1 =~= p2);
}

/// In a stable order of the first `n` positions, the entries that come before
/// position `n` form a prefix of length `j`.
proof fn lemma_split_point(keys: Seq<KeyView>, perm: Seq<int>, n: int, k: int) -> (j: int)
    requires
        0 <= k <= perm.len(),
        0 <= n < keys.len(),
        forall|m: int| 0 <= m < perm.len() ==> 0 <= #[trigger] perm[m] < n,
        forall|m1: int, m2: int|
            0 <= m1 < m2 < perm.len() ==> pair_lt(keys, #[trigger] perm[m1], #[trigger] perm[m2]),
    ensures
        0 <= j <= k,
        forall|m: int| 0 <= m < j ==> pair_lt(keys, #[trigger] perm[m], n),
        forall|m: int| j <= m < k ==> !pair_lt(keys, #[trigger] perm[m], n),
    decreases k,
{
    lemma_key_order();
    if k == 0 {
        0
    } else {
        let j0 = lemma_split_point(keys, perm, n, k - 1);
        if pair_lt(keys, perm[k - 1], n) {
            if j0 < k - 1 {
                assert(pair_lt(keys, perm[j0], perm[k - 1]));
                assert(!pair_lt(keys, perm[j0], n));
                assert(false);
            }
            k
        } else {
            j0
        }
    }
}

/// Every key sequence has a stable sort order.
pub proof fn lemma_stable_order_exists(keys: Seq<KeyView>)
    ensures
        is_stable_sorted(keys, stable_order(keys)),
{
    let perm = lemma_stable_sorted_witness(keys);
    assert(is_stable_sorted(keys, perm));
}

/// A stable sort by keys lists each original element once, by the stable
/// order of positions, with keys never decreasing along the result.
pub proof fn lemma_sorted_by_keys_ordered<T>(s: Seq<T>, keys: Seq<KeyView>)
    requires
        keys.len() == s.len(),
    ensures
        sorted_by_keys(s, keys).len() == s.len(),
        forall|m: int|
            0 <= m < s.len() ==> 0 <= #[trigger] stable_order(keys)[m] < s.len() && sorted_by_keys(s, keys)[m]
                == s[stable_order(keys)[m]],
        forall|i: int, j: int|
            0 <= i < j < s.len() ==> key_le(
                keys[#[trigger] stable_order(keys)[i]],
                keys[#[trigger] stable_order(keys)[j]],
            ),
        forall|p: int| 0 <= p < s.len() ==> #[trigger] stable_order(keys).contains(p),
        forall|i: int, j: int|
            0 <= i < j < s.len() && keys[#[trigger] stable_order(keys)[i]] == keys[#[trigger] stable_order(keys)[j]]
                ==> stable_order(keys)[i] < stable_order(keys)[j],
{
    lemma_stable_order_exists(keys);
    lemma_key_order();
    let perm = stable_order(keys);
    assert forall|i: int, j: int| 0 <= i < j < s.len() implies key_le(
        keys[#[trigger] perm[i]],
        keys[#[trigger] perm[j]],
    ) by {
        assert(pair_lt(keys, perm[i], perm[j]));
    }
}

/// Keys in order compare in order on their first part.
pub proof fn lemma_key_le_first(x: KeyView, y: KeyView)
    requires
        key_le(x, y),
    ensures
        x.0 <= y.0,
        x.0 == y.0 ==> !seq_lt(y.1, x.1),
        x.0 == y.0 && x.1 == y.1 ==> x.2 <= y.2,
        x.0 == y.0 && x.1 == y.1 && x.2 == y.2 ==> !seq_lt(y.3, x.3),
        x.0 == y.0 && x.1 == y.1 && x.2 == y.2 && x.3 == y.3 ==> x.4 <= y.4,
{
    lemma_seq_lt_irrefl(x.1);
    lemma_seq_lt_irrefl(x.3);
    if seq_lt(x.1, y.1) {
        lemma_seq_lt_asym(x.1, y.1);
    }
    if seq_lt(x.3, y.3) {
        lemma_seq_lt_asym(x.3, y.3);
    }
}

proof fn lemma_stable_sorted_witness(keys: Seq<KeyView>) -> (perm: Seq<int>)
    ensures
        is_stable_sorted(keys, perm),
    decreases keys.len(),
{
    lemma_key_order();
    if keys.len() == 0 {
        let e = Seq::<int>::empty();
        assert(is_stable_sorted(keys, e));
        e
    } else {
        let n = keys.len() - 1;
        let front = keys.drop_last();
        let p = lemma_stable_sorted_witness(front);
        assert forall|m1: int, m2: int| 0 <= m1 < m2 < p.len() implies pair_lt(keys, #[trigger] p[m1], #[trigger] p[m2]) by {
            assert(pair_lt(front, p[m1], p[m2]));
        }
        let j = lemma_split_point(keys, p, n, p.len() as int);
        let q = p.insert(j, n);
        assert forall|m: int| 0 <= m < q.len() implies 0 <= #[trigger] q[m] < keys.len() by {
            if m < j {
                assert(q[m] == p[m]);
            } else if m > j {
                assert(q[m] == p[m - 1]);
            }
        }
        assert forall|x: int| 0 <= x < keys.len() implies #[trigger] q.contains(x) by {
            if x == n {
                assert(q[j] == n);
            } else {
                assert(p.contains(x));
                let m = choose|m: int| 0 <= m < p.len() && p[m] == x;
                if m < j {
                    assert(q[m] == x);
                } else {
                    assert(q[m + 1] == x);
                }
            }
        }
        assert forall|m1: int, m2: int| 0 <= m1 < m2 < q.len() implies pair_lt(keys, #[trigger] q[m1], #[trigger] q[m2]) by {
            if m1 == j {
                let y = p[m2 - 1];
                assert(q[m2] == y);
                assert(!pair_lt(keys, y, n));
                assert(0 <= y < n);
                assert(key_lt(keys[n], keys[y]) || key_lt(keys[y], keys[n]) || keys[n] == keys[y]);
            } else if m2 == j {
                assert(q[m1] == p[m1]);
            } else {
                let a = if m1 < j { m1 } else { m1 - 1 };
                let b = if m2 < j { m2 } else { m2 - 1 };
                assert(q[m1] == p[a]);
                assert(q[m2] == p[b]);
            }
        }
        q
    }
}

proof fn lemma_unique_at(keys: Seq<KeyView>, p1: Seq<int>, p2: Seq<int>, i: int)
    requires
        is_stable_sorted(keys, p1),
        is_stable_sorted(keys, p2),
        0 <= i < p1.len(),
    ensures
        p1[i] == p2[i],
    decreases i,
{
    lemma_key_order();
    if i > 0 {
        lemma_unique_at(keys, p1, p2, i - 1);
    }
    assert forall|j: int| 0 <= j < i implies p1[j] == p2[j] by {
        lemma_unique_at(keys, p1, p2, j);
    }
    let a = p1[i];
    let b = p2[i];
    if a != b {
        // `a` sits in p2 at some position m, and `b` sits in p1 at some position n.
        assert(p2.contains(a));
        assert(p1.contains(b));
        let m = choose|m: int| 0 <= m < p2.len() && p2[m] == a;
        let n = choose|n: int| 0 <= n < p1.len() && p1[n] == b;
        if m < i {
            assert(p1[m] == a);
            assert(pair_lt(keys, p1[m], p1[i]));
        }
        if n < i {
            assert(p2[n] == b);
            assert(pair_lt(keys, p2[n], p2[i]));
        }
        assert(m > i);
        assert(n > i);
        assert(pair_lt(keys, p2[i], p2[m]));
        assert(pair_lt(keys, p1[i], p1[n]));
        assert(false);
    }
}

/// Lexicographic comparison of two rank sequences.
pub fn seq_less(x: &Vec<u32>, y: &Vec<u32>) -> (r: bool)
    ensures
        r == seq_lt(x@, y@),
{
    let mut i: usize = 0;
    assert(x@.skip(0) =~= x@);
    assert(y@.skip(0) =~= y@);
    while i < x.len() && i < y.len()
        invariant
            i <= x.len(),
            i <= y.len(),
            seq_lt(x@, y@) == seq_lt(x@.skip(i as int), y@.skip(i as int)),
        decreases x.len() - i,
    {
        if x[i] < y[i] {
            return true;
        }
        if x[i] > y[i] {
            return false;
        }
        proof {
            assert(x@.skip(i as int).drop_first() =~= x@.skip(i + 1));
            assert(y@.skip(i as int).drop_first() =~= y@.skip(i + 1));
        }
        i = i + 1;
    }
    i < y.len()
}

/// Equality of two rank sequences.
pub fn seq_equal(x: &Vec<u32>, y: &Vec<u32>) -> (r: bool)
    ensures
        r == (x@ == y@),
{
    if x.len() != y.len() {
        return false;
    }
    let mut i: usize = 0;
    while i < x.len()
        invariant
            i <= x.len(),
            x.len() == y.len(),
            forall|j: int| 0 <= j < i ==> x@[j] == y@[j],
        decreases x.len() - i,
    {
        if x[i] != y[i] {
            return false;
        }
        i = i + 1;
    }
    assert(x@ =~= y@);
    true
}

/// Strict comparison of two sort keys.
pub fn key_less(x: &SortKey, y: &SortKey) -> (r: bool)
    ensures
        r == key_lt(x@, y@),
{
    proof {
        lemma_seq_lt_irrefl(x.b@);
        lemma_seq_lt_irrefl(x.d@);
    }
    if x.a != y.a {
        return x.a < y.a;
    }
    if !seq_equal(&x.b, &y.b) {
        return seq_less(&x.b, &y.b);
    }
    if x.c != y.c {
        return x.c < y.c;
    }
    if !seq_equal(&x.d, &y.d) {
        return seq_less(&x.d, &y.d);
    }
    x.e < y.e
}

/// Positions of `keys` in stable sort order.
pub fn stable_sort_positions(keys: &Vec<SortKey>) -> (perm: Vec<usize>)
    ensures
        is_stable_sorted(keys@.map_values(|k: SortKey| k@), perm@.map_values(|p: usize| p as int)),
        perm@.map_values(|p: usize| p as int) == stable_order(keys@.map_values(|k: SortKey| k@)),
{
    let ghost kv = keys@.map_values(|k: SortKey| k@);
    let mut perm: Vec<usize> = Vec::new();
    let mut i: usize = 0;
    proof {
        lemma_key_order();
    }
    while i < keys.len()
        invariant
            i <= keys.len(),
            kv == keys@.map_values(|k: SortKey| k@),
            perm.len() == i,
            forall|m: int| 0 <= m < perm.len() ==> #[trigger] perm@[m] < i,
            forall|p: int| 0 <= p < i ==> #[trigger] perm@.contains(p as usize),
            forall|m1: int, m2: int|
                0 <= m1 < m2 < perm.len() ==> pair_lt(kv, #[trigger] perm@[m1] as int, #[trigger] perm@[m2] as int),
            forall|x: KeyView| !key_lt(x, x),
            forall|x: KeyView, y: KeyView, z: KeyView|
                #![trigger key_lt(x, y), key_lt(y, z)]
                key_lt(x, y) && key_lt(y, z) ==> key_lt(x, z),
            forall|x: KeyView, y: KeyView| #[trigger] key_lt(x, y) || key_lt(y, x) || x == y,
        decreases keys.len() - i,
    {
        // Find the insertion point: after every entry whose key is not greater.
        let mut j: usize = perm.len();
        while j > 0 && key_less(&keys[i], &keys[perm[j - 1]])
            invariant
                j <= perm.len(),
                i < keys.len(),
                perm.len() == i,
                kv == keys@.map_values(|k: SortKey| k@),
                forall|m: int| 0 <= m < perm.len() ==> #[trigger] perm@[m] < i,
                forall|m: int| j <= m < perm.len() ==> key_lt(kv[i as int], #[trigger] kv[perm@[m] as int]),
            decreases j,
        {
            j = j - 1;
        }
        let ghost old_perm = perm@;
        proof {
            assert forall|m: int| 0 <= m < j implies key_le(#[trigger] kv[old_perm[m] as int], kv[i as int]) by {
                if m < j - 1 {
                    assert(pair_lt(kv, old_perm[m] as int, old_perm[j - 1] as int));
                }
                assert(!key_lt(kv[i as int], kv[old_perm[j - 1] as int]));
            }
        }
        perm.insert(j, i);
        proof {
            assert forall|m1: int, m2: int|
                0 <= m1 < m2 < perm.len() implies pair_lt(kv, #[trigger] perm@[m1] as int, #[trigger] perm@[m2] as int) by {
                if m2 < j {
                    assert(perm@[m1] == old_perm[m1]);
                    assert(perm@[m2] == old_perm[m2]);
                } else if m2 == j {
                    assert(perm@[m1] == old_perm[m1]);
                    assert(key_le(kv[old_perm[m1] as int], kv[i as int]));
                } else if m1 == j {
                    assert(perm@[m2] == old_perm[m2 - 1]);
                } else if m1 < j {
                    assert(perm@[m1] == old_perm[m1]);
                    assert(perm@[m2] == old_perm[m2 - 1]);
                } else {
                    assert(perm@[m1] == old_perm[m1 - 1]);
                    assert(perm@[m2] == old_perm[m2 - 1]);
                }
            }
            assert forall|p: int| 0 <= p < i + 1 implies #[trigger] perm@.contains(p as usize) by {
                if p == i {
                    assert(perm@[j as int] == p);
                } else {
                    assert(old_perm.contains(p as usize));
                    let m0 = choose|m: int| 0 <= m < old_perm.len() && old_perm[m] == p;
                    if m0 < j {
                        assert(perm@[m0] == p);
                    } else {
                        assert(perm@[m0 + 1] == p);
                    }
                }
            }
        }
        i = i + 1;
    }
    let ghost pv = perm@.map_values(|p: usize| p as int);
    proof {
        assert forall|p: int| 0 <= p < kv.len() implies #[trigger] pv.contains(p) by {
            assert(perm@.contains(p as usize));
            let m0 = choose|m: int| 0 <= m < perm.len() && perm@[m] == p as usize;
            assert(pv[m0] == p);
        }
        assert forall|m1: int, m2: int| 0 <= m1 < m2 < pv.len() implies pair_lt(kv, #[trigger] pv[m1], #[trigger] pv[m2]) by {
            assert(pair_lt(kv, perm@[m1] as int, perm@[m2] as int));
        }
        assert(is_stable_sorted(kv, pv));
        lemma_stable_sorted_unique(kv, pv, stable_order(kv));
    }
    perm
}

} // verus!
