//! Lists of entries read as maps: each entry has a key and a value, and a
//! list in which no key occurs twice stands for the map from its keys to its
//! values.

use vstd::prelude::*;

verus! {

/// The map that a list of entries stands for; where a key occurs more than
/// once, the last occurrence counts.
pub open spec fn keyed<E, K, V>(s: Seq<E>, key: spec_fn(E) -> K, value: spec_fn(E) -> V) -> Map<
    K,
    V,
>
    decreases s.len(),
{
    if s.len() == 0 {
        Map::empty()
    } else {
        keyed(s.drop_last(), key, value).insert(key(s.last()), value(s.last()))
    }
}

/// No key occurs twice in the list.
pub open spec fn distinct_keys<E, K>(s: Seq<E>, key: spec_fn(E) -> K) -> bool {
    forall|i: int, j: int| 0 <= i < j < s.len() ==> key(#[trigger] s[i]) != key(#[trigger] s[j])
}

/// The part of a map whose values satisfy `keep`.
pub open spec fn kept<K, V>(m: Map<K, V>, keep: spec_fn(V) -> bool) -> Map<K, V> {
    Map::new(|k: K| m.contains_key(k) && keep(m[k]), |k: K| m[k])
}

/// The keys of the map are the keys of the entries, and each entry's key
/// leads to its value.
pub proof fn lemma_keyed<E, K, V>(s: Seq<E>, key: spec_fn(E) -> K, value: spec_fn(E) -> V)
    requires
        distinct_keys(s, key),
    ensures
        forall|k: K| #[trigger]
            keyed(s, key, value).contains_key(k) <==> exists|i: int|
                0 <= i < s.len() && key(#[trigger] s[i]) == k,
        forall|i: int|
            0 <= i < s.len() ==> keyed(s, key, value)[key(#[trigger] s[i])] == value(s[i]),
    decreases s.len(),
{
    if s.len() > 0 {
        let front = s.drop_last();
        assert(distinct_keys(front, key)) by {
            assert forall|i: int, j: int| 0 <= i < j < front.len() implies key(
                #[trigger] front[i],
            ) != key(#[trigger] front[j]) by {
                assert(front[i] == s[i] && front[j] == s[j]);
            }
        }
        lemma_keyed(front, key, value);
        let m = keyed(s, key, value);
        let last = s.len() - 1;
        assert forall|k: K| #[trigger] m.contains_key(k) implies exists|i: int|
            0 <= i < s.len() && key(#[trigger] s[i]) == k by {
            if k == key(s.last()) {
                assert(key(s[last]) == k);
            } else {
                assert(keyed(front, key, value).contains_key(k));
                let i = choose|i: int| 0 <= i < front.len() && key(#[trigger] front[i]) == k;
                assert(key(s[i]) == k);
            }
        }
        assert forall|k: K|
            (exists|i: int| 0 <= i < s.len() && key(#[trigger] s[i]) == k) implies #[trigger]
            m.contains_key(k) by {
            let i = choose|i: int| 0 <= i < s.len() && key(#[trigger] s[i]) == k;
            if i < last {
                assert(key(front[i]) == k);
            }
        }
        assert forall|i: int| 0 <= i < s.len() implies m[key(#[trigger] s[i])] == value(s[i]) by {
            if i < last {
                assert(front[i] == s[i]);
                assert(key(s[i]) != key(s[last]));
            }
        }
    }
}

/// Appending an entry inserts its key and value.
pub proof fn lemma_keyed_push<E, K, V>(
    s: Seq<E>,
    key: spec_fn(E) -> K,
    value: spec_fn(E) -> V,
    e: E,
)
    requires
        distinct_keys(s, key),
        !keyed(s, key, value).contains_key(key(e)),
    ensures
        distinct_keys(s.push(e), key),
        keyed(s.push(e), key, value) == keyed(s, key, value).insert(key(e), value(e)),
{
    lemma_keyed(s, key, value);
    let t = s.push(e);
    assert(t.drop_last() =~= s);
    assert forall|i: int, j: int| 0 <= i < j < t.len() implies key(#[trigger] t[i]) != key(
        #[trigger] t[j],
    ) by {
        if j < s.len() {
            assert(t[i] == s[i] && t[j] == s[j]);
        } else {
            assert(t[i] == s[i]);
            if key(s[i]) == key(e) {
                assert(keyed(s, key, value).contains_key(key(e)));
            }
        }
    }
}

/// Taking an entry out removes its key.
pub proof fn lemma_keyed_remove<E, K, V>(
    s: Seq<E>,
    key: spec_fn(E) -> K,
    value: spec_fn(E) -> V,
    i: int,
)
    requires
        distinct_keys(s, key),
        0 <= i < s.len(),
    ensures
        distinct_keys(s.remove(i), key),
        keyed(s.remove(i), key, value) == keyed(s, key, value).remove(key(s[i])),
{
    let t = s.remove(i);
    assert forall|a: int, b: int| 0 <= a < b < t.len() implies key(#[trigger] t[a]) != key(
        #[trigger] t[b],
    ) by {
        let a0 = if a < i { a } else { a + 1 };
        let b0 = if b < i { b } else { b + 1 };
        assert(t[a] == s[a0] && t[b] == s[b0]);
    }
    lemma_keyed(s, key, value);
    lemma_keyed(t, key, value);
    let m = keyed(s, key, value);
    let n = keyed(t, key, value);
    let gone = key(s[i]);
    assert forall|k: K| n.contains_key(k) <==> #[trigger] m.remove(gone).contains_key(k) by {
        if n.contains_key(k) {
            let a = choose|a: int| 0 <= a < t.len() && key(#[trigger] t[a]) == k;
            let a0 = if a < i { a } else { a + 1 };
            assert(t[a] == s[a0]);
            assert(key(s[a0]) == k);
            assert(a0 != i);
            if a0 < i {
                assert(key(s[a0]) != key(s[i]));
            } else {
                assert(key(s[i]) != key(s[a0]));
            }
        }
        if m.remove(gone).contains_key(k) {
            let a0 = choose|a0: int| 0 <= a0 < s.len() && key(#[trigger] s[a0]) == k;
            assert(a0 != i);
            let a = if a0 < i { a0 } else { a0 - 1 };
            assert(t[a] == s[a0]);
            assert(key(t[a]) == k);
        }
    }
    assert forall|k: K| n.contains_key(k) implies n[k] == m.remove(gone)[k] by {
        let a = choose|a: int| 0 <= a < t.len() && key(#[trigger] t[a]) == k;
        let a0 = if a < i { a } else { a + 1 };
        assert(t[a] == s[a0]);
        assert(n[key(t[a])] == value(t[a]));
        assert(m[key(s[a0])] == value(s[a0]));
    }
    assert(n =~= m.remove(gone));
}

/// A list without repeated keys stands for a finite map with as many keys
/// as the list has entries.
pub proof fn lemma_keyed_len<E, K, V>(s: Seq<E>, key: spec_fn(E) -> K, value: spec_fn(E) -> V)
    requires
        distinct_keys(s, key),
    ensures
        keyed(s, key, value).dom().finite(),
        keyed(s, key, value).dom().len() == s.len(),
    decreases s.len(),
{
    if s.len() > 0 {
        let front = s.drop_last();
        assert(distinct_keys(front, key)) by {
            assert forall|i: int, j: int| 0 <= i < j < front.len() implies key(
                #[trigger] front[i],
            ) != key(#[trigger] front[j]) by {
                assert(front[i] == s[i] && front[j] == s[j]);
            }
        }
        lemma_keyed_len(front, key, value);
        lemma_keyed(front, key, value);
        let m = keyed(front, key, value);
        if m.contains_key(key(s.last())) {
            let i = choose|i: int| 0 <= i < front.len() && key(#[trigger] front[i]) == key(s.last());
            assert(front[i] == s[i]);
            assert(key(s[i]) != key(s[s.len() - 1]));
        }
        assert(keyed(s, key, value).dom() =~= m.dom().insert(key(s.last())));
    } else {
        assert(keyed(s, key, value).dom() =~= Set::<K>::empty());
    }
}

} // verus!
