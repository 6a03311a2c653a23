//! Keyed tables: a sequence of `(key, value)` entries read as a finite map.
//!
//! Contract storage keeps one entry per key. In memory, such storage is a
//! `Vec<(K, V)>` whose keys are pairwise distinct; this module gives its
//! meaning as a `Map` and the facts that the editing operations rely on.
use vstd::prelude::*;

verus! {

/// Some entry of `s` has key `k`.
pub open spec fn has_key<K, V>(s: Seq<(K, V)>, k: K) -> bool {
    exists|i: int| 0 <= i < s.len() && (#[trigger] s[i]).0 == k
}

/// No two entries of `s` share a key.
pub open spec fn distinct_keys<K, V>(s: Seq<(K, V)>) -> bool {
    forall|i: int, j: int|
        0 <= i < s.len() && 0 <= j < s.len() && (#[trigger] s[i]).0 == (#[trigger] s[j]).0 ==> i
            == j
}

/// The index of the entry of `s` with key `k` (meaningful when `has_key(s, k)`).
pub open spec fn index_of_key<K, V>(s: Seq<(K, V)>, k: K) -> int {
    choose|i: int| 0 <= i < s.len() && (#[trigger] s[i]).0 == k
}

/// The map that the entries of `s` describe.
pub open spec fn to_map<K, V>(s: Seq<(K, V)>) -> Map<K, V> {
    Map::new(|k: K| has_key(s, k), |k: K| s[index_of_key(s, k)].1)
}

/// The value that `m` holds at `k`, where a missing entry reads as zero.
pub open spec fn value_or_zero<K>(m: Map<K, i128>, k: K) -> i128 {
    if m.contains_key(k) {
        m[k]
    } else {
        0
    }
}

/// The sum of the values of `s`.
pub open spec fn sum_values<K>(s: Seq<(K, i128)>) -> int
    decreases s.len(),
{
    if s.len() == 0 {
        0
    } else {
        sum_values(s.drop_last()) + s.last().1
    }
}

/// Where entry `i` has key `k`, the map gives `k` the value of entry `i`.
pub proof fn lemma_lookup<K, V>(s: Seq<(K, V)>, i: int)
    requires
        distinct_keys(s),
        0 <= i < s.len(),
    ensures
        to_map(s).contains_key(s[i].0),
        to_map(s)[s[i].0] == s[i].1,
        index_of_key(s, s[i].0) == i,
{
    assert(has_key(s, s[i].0));
}

/// The map of a table with no entry is empty.
pub proof fn lemma_empty<K, V>(s: Seq<(K, V)>)
    requires
        s.len() == 0,
    ensures
        to_map(s) == Map::<K, V>::empty(),
        distinct_keys(s),
{
    assert(to_map(s) =~= Map::<K, V>::empty());
}

/// Overwriting the value of entry `i` updates the map at that entry's key.
pub proof fn lemma_update<K, V>(s: Seq<(K, V)>, i: int, v: V)
    requires
        distinct_keys(s),
        0 <= i < s.len(),
    ensures
        distinct_keys(s.update(i, (s[i].0, v))),
        to_map(s.update(i, (s[i].0, v))) == to_map(s).insert(s[i].0, v),
{
    let t = s.update(i, (s[i].0, v));
    let k = s[i].0;
    assert forall|a: int, b: int|
        0 <= a < t.len() && 0 <= b < t.len() && (#[trigger] t[a]).0 == (#[trigger] t[b]).0 implies a
        == b by {
        assert(s[a].0 == t[a].0);
        assert(s[b].0 == t[b].0);
    }
    assert forall|x: K| #[trigger] has_key(t, x) == has_key(s, x) by {
        if has_key(s, x) {
            let j = index_of_key(s, x);
            assert(t[j].0 == x);
        }
        if has_key(t, x) {
            let j = index_of_key(t, x);
            assert(s[j].0 == x);
        }
    }
    assert forall|x: K| #[trigger] to_map(t).contains_key(x) implies to_map(t)[x] == to_map(s).insert(
        k,
        v,
    )[x] by {
        let j = index_of_key(t, x);
        lemma_lookup(t, j);
        if x != k {
            assert(j != i);
            assert(s[j] == t[j]);
            lemma_lookup(s, j);
        }
    }
    assert(to_map(t) =~= to_map(s).insert(k, v));
}

/// Appending an entry with a fresh key inserts it into the map.
pub proof fn lemma_push<K, V>(s: Seq<(K, V)>, k: K, v: V)
    requires
        distinct_keys(s),
        !has_key(s, k),
    ensures
        distinct_keys(s.push((k, v))),
        to_map(s.push((k, v))) == to_map(s).insert(k, v),
{
    let t = s.push((k, v));
    assert forall|a: int, b: int|
        0 <= a < t.len() && 0 <= b < t.len() && (#[trigger] t[a]).0 == (#[trigger] t[b]).0 implies a
        == b by {
        if a < s.len() && b < s.len() {
            assert(s[a] == t[a] && s[b] == t[b]);
        } else if a < s.len() {
            assert(s[a] == t[a]);
        } else if b < s.len() {
            assert(s[b] == t[b]);
        }
    }
    assert forall|x: K| #[trigger] has_key(t, x) == (has_key(s, x) || x == k) by {
        if has_key(s, x) {
            let j = index_of_key(s, x);
            assert(t[j] == s[j]);
        }
        if x == k {
            assert(t[s.len() as int].0 == k);
        }
        if has_key(t, x) && x != k {
            let j = index_of_key(t, x);
            assert(j < s.len());
            assert(s[j] == t[j]);
        }
    }
    assert forall|x: K| #[trigger] to_map(t).contains_key(x) implies to_map(t)[x] == to_map(s).insert(
        k,
        v,
    )[x] by {
        let j = index_of_key(t, x);
        lemma_lookup(t, j);
        if x != k {
            assert(j < s.len());
            assert(s[j] == t[j]);
            lemma_lookup(s, j);
        } else {
            lemma_lookup(t, s.len() as int);
        }
    }
    assert(to_map(t) =~= to_map(s).insert(k, v));
}

/// Removing entry `i` removes its key from the map.
pub proof fn lemma_remove<K, V>(s: Seq<(K, V)>, i: int)
    requires
        distinct_keys(s),
        0 <= i < s.len(),
    ensures
        distinct_keys(s.remove(i)),
        to_map(s.remove(i)) == to_map(s).remove(s[i].0),
{
    let t = s.remove(i);
    let k = s[i].0;
    assert forall|a: int| 0 <= a < t.len() implies #[trigger] t[a] == s[if a < i {
        a
    } else {
        a + 1
    }] by {}
    assert forall|a: int, b: int|
        0 <= a < t.len() && 0 <= b < t.len() && (#[trigger] t[a]).0 == (#[trigger] t[b]).0 implies a
        == b by {
        let sa = if a < i {
            a
        } else {
            a + 1
        };
        let sb = if b < i {
            b
        } else {
            b + 1
        };
        assert(t[a] == s[sa]);
        assert(t[b] == s[sb]);
    }
    assert forall|x: K| #[trigger] has_key(t, x) == (has_key(s, x) && x != k) by {
        if has_key(t, x) {
            let j = index_of_key(t, x);
            let sj = if j < i {
                j
            } else {
                j + 1
            };
            assert(t[j] == s[sj]);
            assert(sj != i);
        }
        if has_key(s, x) && x != k {
            let j = index_of_key(s, x);
            assert(j != i);
            let tj = if j < i {
                j
            } else {
                j - 1
            };
            assert(t[tj] == s[j]);
        }
    }
    assert forall|x: K| #[trigger] to_map(t).contains_key(x) implies to_map(t)[x] == to_map(
        s,
    ).remove(k)[x] by {
        let j = index_of_key(t, x);
        lemma_lookup(t, j);
        let sj = if j < i {
            j
        } else {
            j + 1
        };
        assert(t[j] == s[sj]);
        lemma_lookup(s, sj);
    }
    assert(to_map(t) =~= to_map(s).remove(k));
}

/// Sums distribute over concatenation.
pub proof fn lemma_sum_concat<K>(a: Seq<(K, i128)>, b: Seq<(K, i128)>)
    ensures
        sum_values(a + b) == sum_values(a) + sum_values(b),
    decreases b.len(),
{
    if b.len() == 0 {
        assert(a + b =~= a);
    } else {
        assert((a + b).drop_last() =~= a + b.drop_last());
        lemma_sum_concat(a, b.drop_last());
    }
}

/// Overwriting the value of entry `i` changes the sum by the difference.
pub proof fn lemma_sum_update<K>(s: Seq<(K, i128)>, i: int, v: i128)
    requires
        0 <= i < s.len(),
    ensures
        sum_values(s.update(i, (s[i].0, v))) == sum_values(s) - s[i].1 + v,
{
    let t = s.update(i, (s[i].0, v));
    let pre = s.subrange(0, i);
    let post = s.subrange(i + 1, s.len() as int);
    assert(s =~= pre + seq![s[i]] + post);
    assert(t =~= pre + seq![(s[i].0, v)] + post);
    lemma_sum_concat(pre + seq![s[i]], post);
    lemma_sum_concat(pre, seq![s[i]]);
    lemma_sum_concat(pre + seq![(s[i].0, v)], post);
    lemma_sum_concat(pre, seq![(s[i].0, v)]);
    assert(seq![s[i]].drop_last() =~= Seq::<(K, i128)>::empty());
    assert(seq![(s[i].0, v)].drop_last() =~= Seq::<(K, i128)>::empty());
}

/// Appending an entry adds its value to the sum.
pub proof fn lemma_sum_push<K>(s: Seq<(K, i128)>, k: K, v: i128)
    ensures
        sum_values(s.push((k, v))) == sum_values(s) + v,
{
    assert(s.push((k, v)).drop_last() =~= s);
}

} // verus!
