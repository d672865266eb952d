//! Sequences of (key, value) pairs in which no key occurs twice, seen as
//! maps: what setting, appending and removing a pair does to the map.
use vstd::prelude::*;

verus! {

/// Whether no two pairs share a key.
pub open spec fn keys_unique<K, V>(s: Seq<(K, V)>) -> bool {
    forall|i: int, j: int| 0 <= i < s.len() && 0 <= j < s.len() && i != j ==> s[i].0 != s[j].0
}

/// Whether `k` is the key of some pair.
pub open spec fn holds_key<K, V>(s: Seq<(K, V)>, k: K) -> bool {
    exists|i: int| 0 <= i < s.len() && #[trigger] s[i].0 == k
}

/// The pairs seen as a map from keys to values.
pub open spec fn keyed_map<K, V>(s: Seq<(K, V)>) -> Map<K, V> {
    Map::new(
        |k: K| holds_key(s, k),
        |k: K| s[choose|i: int| 0 <= i < s.len() && s[i].0 == k].1,
    )
}

/// In pairs without repeated keys, the pair at `i` is what the map holds for
/// its key.
pub proof fn lemma_keyed_at<K, V>(s: Seq<(K, V)>, i: int)
    requires
        keys_unique(s),
        0 <= i < s.len(),
    ensures
        keyed_map(s).contains_key(s[i].0),
        keyed_map(s)[s[i].0] == s[i].1,
{
    assert(holds_key(s, s[i].0));
    let j = choose|j: int| 0 <= j < s.len() && s[j].0 == s[i].0;
    assert(j == i);
}

/// Replacing the value of the pair at `i`, under the same key, replaces the
/// map's value for that key.
pub proof fn lemma_keyed_update<K, V>(s: Seq<(K, V)>, i: int, v: V)
    requires
        keys_unique(s),
        0 <= i < s.len(),
    ensures
        keys_unique(s.update(i, (s[i].0, v))),
        keyed_map(s.update(i, (s[i].0, v))) == keyed_map(s).insert(s[i].0, v),
{
    let k = s[i].0;
    let t = s.update(i, (k, v));
    assert forall|a: int, b: int| 0 <= a < t.len() && 0 <= b < t.len() && a != b implies t[a].0 != t[b].0 by {
        assert(t[a].0 == s[a].0 && t[b].0 == s[b].0);
    }
    lemma_keyed_at(t, i);
    assert forall|key: K| key != k implies
        (#[trigger] keyed_map(t).contains_key(key)) == keyed_map(s).contains_key(key)
        && (keyed_map(t).contains_key(key) ==> keyed_map(t)[key] == keyed_map(s)[key]) by {
        if holds_key(t, key) {
            let j = choose|j: int| 0 <= j < t.len() && t[j].0 == key;
            assert(s[j].0 == key);
            lemma_keyed_at(t, j);
            lemma_keyed_at(s, j);
        }
        if holds_key(s, key) {
            let j = choose|j: int| 0 <= j < s.len() && s[j].0 == key;
            assert(t[j].0 == key);
        }
    }
    assert(keyed_map(t) =~= keyed_map(s).insert(k, v));
}

/// Appending a pair with a new key adds it to the map.
pub proof fn lemma_keyed_push<K, V>(s: Seq<(K, V)>, k: K, v: V)
    requires
        keys_unique(s),
        !holds_key(s, k),
    ensures
        keys_unique(s.push((k, v))),
        keyed_map(s.push((k, v))) == keyed_map(s).insert(k, v),
{
    let t = s.push((k, v));
    assert forall|a: int, b: int| 0 <= a < t.len() && 0 <= b < t.len() && a != b implies t[a].0 != t[b].0 by {
        if a < s.len() && b < s.len() {
            assert(t[a] == s[a] && t[b] == s[b]);
        } else if a < s.len() {
            assert(t[a] == s[a]);
        } else {
            assert(t[b] == s[b]);
        }
    }
    lemma_keyed_at(t, s.len() as int);
    assert forall|key: K| key != k implies
        (#[trigger] keyed_map(t).contains_key(key)) == keyed_map(s).contains_key(key)
        && (keyed_map(t).contains_key(key) ==> keyed_map(t)[key] == keyed_map(s)[key]) by {
        if holds_key(t, key) {
            let j = choose|j: int| 0 <= j < t.len() && t[j].0 == key;
            assert(j < s.len());
            assert(s[j].0 == key);
            lemma_keyed_at(t, j);
            lemma_keyed_at(s, j);
        }
        if holds_key(s, key) {
            let j = choose|j: int| 0 <= j < s.len() && s[j].0 == key;
            assert(t[j].0 == key);
        }
    }
    assert(keyed_map(t) =~= keyed_map(s).insert(k, v));
}

/// Removing the pair at `i` removes its key from the map.
pub proof fn lemma_keyed_remove<K, V>(s: Seq<(K, V)>, i: int)
    requires
        keys_unique(s),
        0 <= i < s.len(),
    ensures
        keys_unique(s.remove(i)),
        keyed_map(s.remove(i)) == keyed_map(s).remove(s[i].0),
{
    let k = s[i].0;
    let t = s.remove(i);
    assert forall|a: int, b: int| 0 <= a < t.len() && 0 <= b < t.len() && a != b implies t[a].0 != t[b].0 by {
        let oa = if a < i { a } else { a + 1 };
        let ob = if b < i { b } else { b + 1 };
        assert(t[a] == s[oa] && t[b] == s[ob]);
    }
    assert forall|key: K|
        (#[trigger] keyed_map(t).contains_key(key)) == (keyed_map(s).contains_key(key) && key != k)
        && (keyed_map(t).contains_key(key) ==> keyed_map(t)[key] == keyed_map(s)[key]) by {
        if holds_key(t, key) {
            let j = choose|j: int| 0 <= j < t.len() && t[j].0 == key;
            let oj = if j < i { j } else { j + 1 };
            assert(s[oj].0 == key);
            assert(oj != i);
            lemma_keyed_at(t, j);
            lemma_keyed_at(s, oj);
        }
        if holds_key(s, key) && key != k {
            let j = choose|j: int| 0 <= j < s.len() && s[j].0 == key;
            assert(j != i);
            let tj = if j < i { j } else { j - 1 };
            assert(t[tj].0 == key);
        }
    }
    assert(keyed_map(t) =~= keyed_map(s).remove(k));
}

} // verus!
