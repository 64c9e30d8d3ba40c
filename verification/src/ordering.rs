use vstd::prelude::*;

verus! {

/// Items that carry a timestamp by which they are ordered.
pub trait Stamped {
    spec fn stamp_of(&self) -> u64;

    fn stamp(&self) -> (r: u64)
        ensures
            r == self.stamp_of(),
    ;
}

/// `sorted` with `x` put after every item whose key is at least that of `x`.
pub open spec fn insert_desc<T>(sorted: Seq<T>, x: T, key: spec_fn(T) -> u64) -> Seq<T>
    decreases sorted.len(),
{
    if sorted.len() == 0 {
        seq![x]
    } else if key(sorted[0]) >= key(x) {
        seq![sorted[0]] + insert_desc(sorted.drop_first(), x, key)
    } else {
        seq![x] + sorted
    }
}

/// `s` ordered by decreasing key, items of equal key keeping their order:
/// what a stable sort by decreasing key gives.
pub open spec fn sort_desc<T>(s: Seq<T>, key: spec_fn(T) -> u64) -> Seq<T>
    decreases s.len(),
{
    if s.len() == 0 {
        Seq::empty()
    } else {
        insert_desc(sort_desc(s.drop_last(), key), s.last(), key)
    }
}

/// Whether `s` is ordered by decreasing key.
pub open spec fn is_desc<T>(s: Seq<T>, key: spec_fn(T) -> u64) -> bool {
    forall|i: int, j: int| 0 <= i < j < s.len() ==> key(s[i]) >= key(s[j])
}

proof fn lemma_insert_at<T>(sorted: Seq<T>, x: T, key: spec_fn(T) -> u64, p: int)
    requires
        0 <= p <= sorted.len(),
        forall|i: int| 0 <= i < p ==> key(#[trigger] sorted[i]) >= key(x),
        p < sorted.len() ==> key(sorted[p]) < key(x),
    ensures
        insert_desc(sorted, x, key) == sorted.insert(p, x),
    decreases p,
{
    if p == 0 {
        if sorted.len() == 0 {
            assert(sorted.insert(0, x) =~= seq![x]);
        } else {
            assert(sorted.insert(0, x) =~= seq![x] + sorted);
        }
    } else {
        let t = sorted.drop_first();
        assert forall|i: int| 0 <= i < p - 1 implies key(#[trigger] t[i]) >= key(x) by {
            assert(t[i] == sorted[i + 1]);
        }
        if p < sorted.len() {
            assert(t[p - 1] == sorted[p]);
        }
        lemma_insert_at(t, x, key, p - 1);
        assert(seq![sorted[0]] + t.insert(p - 1, x) =~= sorted.insert(p, x));
    }
}

proof fn lemma_insert_keeps_order<T>(sorted: Seq<T>, x: T, key: spec_fn(T) -> u64)
    requires
        is_desc(sorted, key),
    ensures
        is_desc(insert_desc(sorted, x, key), key),
        insert_desc(sorted, x, key).len() == sorted.len() + 1,
        insert_desc(sorted, x, key).to_multiset() == sorted.to_multiset().insert(x),
    decreases sorted.len(),
{
    broadcast use vstd::seq_lib::group_to_multiset_ensures;
    if sorted.len() == 0 {
        assert(seq![x] =~= Seq::<T>::empty().push(x));
    } else if key(sorted[0]) >= key(x) {
        let t = sorted.drop_first();
        assert(is_desc(t, key)) by {
            assert forall|i: int, j: int| 0 <= i < j < t.len() implies key(t[i]) >= key(t[j]) by {
                assert(t[i] == sorted[i + 1] && t[j] == sorted[j + 1]);
            }
        }
        lemma_insert_keeps_order(t, x, key);
        let r = insert_desc(t, x, key);
        let whole = seq![sorted[0]] + r;
        assert(whole.to_multiset() == r.to_multiset().insert(sorted[0])) by {
            assert(whole =~= r.insert(0, sorted[0]));
        }
        assert(sorted =~= t.insert(0, sorted[0]));
        assert forall|i: int, j: int| 0 <= i < j < whole.len() implies key(whole[i]) >= key(whole[j]) by {
            if i == 0 {
                // every item of r is x or an item of t
                assert(r.to_multiset().count(whole[j]) > 0) by {
                    assert(whole[j] == r[j - 1]);
                    assert(r.contains(whole[j]));
                }
                assert(t.to_multiset().insert(x).count(whole[j]) > 0);
                if whole[j] != x {
                    assert(t.to_multiset().count(whole[j]) > 0);
                    assert(t.contains(whole[j]));
                    let k = choose|k: int| 0 <= k < t.len() && t[k] == whole[j];
                    assert(sorted[k + 1] == t[k]);
                }
            } else {
                assert(whole[i] == r[i - 1] && whole[j] == r[j - 1]);
            }
        }
    } else {
        let whole = seq![x] + sorted;
        assert(whole =~= sorted.insert(0, x));
        assert forall|i: int, j: int| 0 <= i < j < whole.len() implies key(whole[i]) >= key(whole[j]) by {
            if i == 0 {
                assert(whole[j] == sorted[j - 1]);
                assert(key(sorted[0]) >= key(sorted[j - 1]) || j - 1 == 0);
            } else {
                assert(whole[i] == sorted[i - 1] && whole[j] == sorted[j - 1]);
            }
        }
    }
}

/// A stable sort by decreasing key orders the items by decreasing key and
/// keeps every item: it is a permutation of its input.
pub proof fn lemma_sort_desc_sorts<T>(s: Seq<T>, key: spec_fn(T) -> u64)
    ensures
        is_desc(sort_desc(s, key), key),
        sort_desc(s, key).len() == s.len(),
        sort_desc(s, key).to_multiset() == s.to_multiset(),
    decreases s.len(),
{
    broadcast use vstd::seq_lib::group_to_multiset_ensures;
    if s.len() > 0 {
        lemma_sort_desc_sorts(s.drop_last(), key);
        lemma_insert_keeps_order(sort_desc(s.drop_last(), key), s.last(), key);
        assert(s =~= s.drop_last().push(s.last()));
    }
}

proof fn lemma_insert_map<T, U>(
    sorted: Seq<T>,
    x: T,
    key: spec_fn(T) -> u64,
    f: spec_fn(T) -> U,
    key2: spec_fn(U) -> u64,
)
    requires
        forall|y: T| #[trigger] key2(f(y)) == key(y),
    ensures
        insert_desc(sorted, x, key).map_values(f) == insert_desc(sorted.map_values(f), f(x), key2),
    decreases sorted.len(),
{
    let m = sorted.map_values(f);
    if sorted.len() == 0 {
        assert(seq![x].map_values(f) =~= seq![f(x)]);
    } else {
        assert(m[0] == f(sorted[0]));
        assert(key2(f(sorted[0])) == key(sorted[0]));
        assert(key2(f(x)) == key(x));
        if key(sorted[0]) >= key(x) {
            lemma_insert_map(sorted.drop_first(), x, key, f, key2);
            assert(sorted.drop_first().map_values(f) =~= m.drop_first());
            assert((seq![sorted[0]] + insert_desc(sorted.drop_first(), x, key)).map_values(f)
                =~= seq![m[0]] + insert_desc(sorted.drop_first(), x, key).map_values(f));
        } else {
            assert((seq![x] + sorted).map_values(f) =~= seq![f(x)] + m);
        }
    }
}

/// Sorting commutes with a map that keeps the keys.
pub proof fn lemma_sort_map<T, U>(
    s: Seq<T>,
    key: spec_fn(T) -> u64,
    f: spec_fn(T) -> U,
    key2: spec_fn(U) -> u64,
)
    requires
        forall|y: T| #[trigger] key2(f(y)) == key(y),
    ensures
        sort_desc(s, key).map_values(f) == sort_desc(s.map_values(f), key2),
    decreases s.len(),
{
    if s.len() > 0 {
        lemma_sort_map(s.drop_last(), key, f, key2);
        assert(s.map_values(f).drop_last() =~= s.drop_last().map_values(f));
        assert(s.map_values(f).last() == f(s.last()));
        lemma_insert_map(sort_desc(s.drop_last(), key), s.last(), key, f, key2);
    } else {
        assert(Seq::<T>::empty().map_values(f) =~= Seq::<U>::empty());
    }
}

/// Sorts `items` by decreasing stamp, items of equal stamp keeping their
/// order, as a stable `sort_by` on the reversed comparison does.
pub fn sort_by_stamp_desc<T: Stamped>(items: Vec<T>) -> (r: Vec<T>)
    ensures
        r@ == sort_desc(items@, |x: T| x.stamp_of()),
{
    let ghost key = |x: T| x.stamp_of();
    assert(forall|y: T| #[trigger] key(y) == y.stamp_of());
    let ghost all = items@;
    let mut rest = items;
    let mut result: Vec<T> = Vec::new();
    let mut i: usize = 0;
    let n = rest.len();
    while 0 < rest.len()
        invariant
            n == all.len(),
            i + rest@.len() == n,
            rest@ == all.subrange(i as int, n as int),
            result@ == sort_desc(all.take(i as int), key),
            is_desc(result@, key),
            forall|y: T| #[trigger] key(y) == y.stamp_of(),
        decreases rest@.len(),
    {
        let x = rest.remove(0);
        let k = x.stamp();
        let mut p: usize = 0;
        while p < result.len() && result[p].stamp() >= k
            invariant
                p <= result@.len(),
                forall|j: int| 0 <= j < p ==> key(#[trigger] result@[j]) >= key(x),
                k == key(x),
                forall|y: T| #[trigger] key(y) == y.stamp_of(),
            decreases result@.len() - p,
        {
            p = p + 1;
        }
        proof {
            lemma_insert_at(result@, x, key, p as int);
            assert(all.take(i + 1).drop_last() =~= all.take(i as int));
            assert(all.take(i + 1).last() == x);
            lemma_insert_keeps_order(result@, x, key);
        }
        result.insert(p, x);
        i = i + 1;
    }
    proof {
        assert(all.take(n as int) =~= all);
    }
    result
}

/// The first `n` items of `s`, or all of them when there are fewer.
pub open spec fn first_n<T>(s: Seq<T>, n: nat) -> Seq<T> {
    if n <= s.len() {
        s.subrange(0, n as int)
    } else {
        s
    }
}

/// Reverses `items` and keeps the first `limit`: the newest `limit` items of
/// an oldest-first list, newest first.
pub fn newest_first<T>(items: Vec<T>, limit: usize) -> (r: Vec<T>)
    ensures
        r@ == first_n(items@.reverse(), limit as nat),
{
    let ghost all = items@;
    let mut rest = items;
    let mut out: Vec<T> = Vec::new();
    while out.len() < limit && rest.len() > 0
        invariant
            out@.len() <= limit,
            out@.len() + rest@.len() == all.len(),
            rest@ == all.subrange(0, rest@.len() as int),
            out@ == all.reverse().subrange(0, out@.len() as int),
        decreases rest@.len(),
    {
        let x = rest.pop().unwrap();
        proof {
            assert(all.reverse()[out@.len() as int] == all[rest@.len() as int]);
        }
        out.push(x);
        proof {
            assert(out@ =~= all.reverse().subrange(0, out@.len() as int));
        }
    }
    proof {
        if out@.len() < limit {
            assert(out@ =~= all.reverse());
        }
    }
    out
}

} // verus!
