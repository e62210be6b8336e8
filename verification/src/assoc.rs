use vstd::prelude::*;

verus! {

// Association lists: sequences of (key, value) pairs with pairwise distinct keys, read as
// finite maps. Storage maps of the pallet are held this way.

/// No key occurs twice.
pub open spec fn keys_distinct<K, V>(s: Seq<(K, V)>) -> bool {
    forall|i: int, j: int| 0 <= i < s.len() && 0 <= j < s.len() && i != j ==> #[trigger] s[i].0 != #[trigger] s[j].0
}

/// Some pair has key `k`.
pub open spec fn has_key<K, V>(s: Seq<(K, V)>, k: K) -> bool {
    exists|i: int| 0 <= i < s.len() && #[trigger] s[i].0 == k
}

/// The position of a pair with key `k`.
pub open spec fn slot<K, V>(s: Seq<(K, V)>, k: K) -> int {
    choose|i: int| 0 <= i < s.len() && #[trigger] s[i].0 == k
}

/// The map that an association list stands for.
pub open spec fn assoc_map<K, V>(s: Seq<(K, V)>) -> Map<K, V> {
    Map::new(|k: K| has_key(s, k), |k: K| s[slot(s, k)].1)
}

pub proof fn lemma_slot<K, V>(s: Seq<(K, V)>, i: int)
    requires
        keys_distinct(s),
        0 <= i < s.len(),
    ensures
        has_key(s, s[i].0),
        slot(s, s[i].0) == i,
        assoc_map(s).contains_key(s[i].0),
        assoc_map(s)[s[i].0] == s[i].1,
{
    let k = s[i].0;
    assert(s[i].0 == k);
    let j = slot(s, k);
    assert(0 <= j < s.len() && s[j].0 == k);
}

pub proof fn lemma_push<K, V>(s: Seq<(K, V)>, k: K, v: V)
    requires
        keys_distinct(s),
        !has_key(s, k),
    ensures
        keys_distinct(s.push((k, v))),
        assoc_map(s.push((k, v))) == assoc_map(s).insert(k, v),
{
    let t = s.push((k, v));
    assert forall|i: int, j: int| 0 <= i < t.len() && 0 <= j < t.len() && i != j implies #[trigger] t[i].0 != #[trigger] t[j].0 by {
        if i < s.len() && j < s.len() {
            assert(s[i].0 != s[j].0);
        } else if i < s.len() {
            assert(s[i].0 == t[i].0);
        } else {
            assert(s[j].0 == t[j].0);
        }
    }
    assert forall|x: K| #[trigger] assoc_map(t).contains_key(x) <==> assoc_map(s).insert(k, v).contains_key(x) by {
        if has_key(s, x) {
            let i = slot(s, x);
            assert(t[i].0 == x);
        }
        if has_key(t, x) && x != k {
            let i = slot(t, x);
            assert(i < s.len());
            assert(s[i].0 == x);
        }
        if x == k {
            assert(t[s.len() as int].0 == k);
        }
    }
    assert forall|x: K| #[trigger] assoc_map(t).contains_key(x) implies assoc_map(t)[x] == assoc_map(s).insert(k, v)[x] by {
        if x == k {
            lemma_slot(t, s.len() as int);
        } else {
            let i = slot(s, x);
            lemma_slot(s, i);
            lemma_slot(t, i);
        }
    }
    assert(assoc_map(t) =~= assoc_map(s).insert(k, v));
}

pub proof fn lemma_update<K, V>(s: Seq<(K, V)>, i: int, v: V)
    requires
        keys_distinct(s),
        0 <= i < s.len(),
    ensures
        keys_distinct(s.update(i, (s[i].0, v))),
        assoc_map(s.update(i, (s[i].0, v))) == assoc_map(s).insert(s[i].0, v),
{
    let k = s[i].0;
    let t = s.update(i, (k, v));
    assert forall|a: int, b: int| 0 <= a < t.len() && 0 <= b < t.len() && a != b implies #[trigger] t[a].0 != #[trigger] t[b].0 by {
        assert(t[a].0 == s[a].0);
        assert(t[b].0 == s[b].0);
    }
    assert forall|x: K| #[trigger] assoc_map(t).contains_key(x) <==> assoc_map(s).insert(k, v).contains_key(x) by {
        if has_key(s, x) {
            let j = slot(s, x);
            assert(t[j].0 == x);
        }
        if has_key(t, x) {
            let j = slot(t, x);
            assert(s[j].0 == x);
        }
        if x == k {
            assert(t[i].0 == k);
        }
    }
    assert forall|x: K| #[trigger] assoc_map(t).contains_key(x) implies assoc_map(t)[x] == assoc_map(s).insert(k, v)[x] by {
        let j = slot(t, x);
        assert(s[j].0 == x);
        lemma_slot(t, j);
        lemma_slot(s, j);
    }
    assert(assoc_map(t) =~= assoc_map(s).insert(k, v));
}

pub proof fn lemma_remove<K, V>(s: Seq<(K, V)>, i: int)
    requires
        keys_distinct(s),
        0 <= i < s.len(),
    ensures
        keys_distinct(s.remove(i)),
        assoc_map(s.remove(i)) == assoc_map(s).remove(s[i].0),
{
    let k = s[i].0;
    let t = s.remove(i);
    assert forall|a: int, b: int| 0 <= a < t.len() && 0 <= b < t.len() && a != b implies #[trigger] t[a].0 != #[trigger] t[b].0 by {
        let a2 = if a < i { a } else { a + 1 };
        let b2 = if b < i { b } else { b + 1 };
        assert(t[a] == s[a2]);
        assert(t[b] == s[b2]);
        assert(s[a2].0 != s[b2].0);
    }
    assert forall|x: K| #[trigger] assoc_map(t).contains_key(x) <==> assoc_map(s).remove(k).contains_key(x) by {
        if has_key(s, x) && x != k {
            let j = slot(s, x);
            assert(j != i);
            let j2 = if j < i { j } else { j - 1 };
            assert(t[j2] == s[j]);
        }
        if has_key(t, x) {
            let j = slot(t, x);
            let j2 = if j < i { j } else { j + 1 };
            assert(t[j] == s[j2]);
            assert(j2 != i);
            assert(s[j2].0 == x);
        }
    }
    assert forall|x: K| #[trigger] assoc_map(t).contains_key(x) implies assoc_map(t)[x] == assoc_map(s).remove(k)[x] by {
        let j = slot(t, x);
        let j2 = if j < i { j } else { j + 1 };
        assert(t[j] == s[j2]);
        lemma_slot(t, j);
        lemma_slot(s, j2);
    }
    assert(assoc_map(t) =~= assoc_map(s).remove(k));
}

pub proof fn lemma_len<K, V>(s: Seq<(K, V)>)
    requires
        keys_distinct(s),
    ensures
        assoc_map(s).dom().finite(),
        assoc_map(s).dom().len() == s.len(),
    decreases s.len(),
{
    if s.len() == 0 {
        assert(assoc_map(s).dom() =~= Set::<K>::empty());
    } else {
        let p = s.drop_last();
        let last = s.last();
        assert forall|a: int, b: int| 0 <= a < p.len() && 0 <= b < p.len() && a != b implies #[trigger] p[a].0 != #[trigger] p[b].0 by {
            assert(s[a].0 != s[b].0);
        }
        lemma_len(p);
        if has_key(p, last.0) {
            let j = slot(p, last.0);
            assert(s[j].0 == s[s.len() - 1].0);
        }
        lemma_push(p, last.0, last.1);
        assert(p.push((last.0, last.1)) =~= s);
    }
}

} // verus!
