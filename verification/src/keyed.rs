//! Sequences of key/value entries read as finite maps.
//!
//! The registries keep their entries in vectors. As long as no key occurs
//! twice, such a sequence stands for the map from each key to the value stored
//! beside it; the lemmas here say how that map changes when an entry is
//! appended, replaced or inserted.

use vstd::prelude::*;

verus! {

/// No key occurs twice in `s`.
pub open spec fn distinct_keys<K, V>(s: Seq<(K, V)>) -> bool {
    forall|i: int, j: int| 0 <= i < s.len() && 0 <= j < s.len() && i != j ==> s[i].0 != s[j].0
}

/// Some entry of `s` has key `k`.
pub open spec fn has_key<K, V>(s: Seq<(K, V)>, k: K) -> bool {
    exists|i: int| 0 <= i < s.len() && s[i].0 == k
}

/// The map that `s` stands for: each key of `s` to the value beside it.
pub open spec fn keyed_map<K, V>(s: Seq<(K, V)>) -> Map<K, V> {
    Map::new(
        |k: K| has_key(s, k),
        |k: K| s[choose|i: int| 0 <= i < s.len() && s[i].0 == k].1,
    )
}

/// The keys of `s`, in order.
pub open spec fn keys_of<K, V>(s: Seq<(K, V)>) -> Seq<K> {
    s.map_values(|e: (K, V)| e.0)
}

/// A sequence without repeated keys stands for a finite map with as many
/// keys as the sequence has entries.
pub proof fn lemma_keyed_map_size<K, V>(s: Seq<(K, V)>)
    requires
        distinct_keys(s),
    ensures
        keyed_map(s).dom().finite(),
        keyed_map(s).dom().len() == s.len(),
{
    let ks = keys_of(s);
    assert(ks.no_duplicates()) by {
        assert forall|i: int, j: int| 0 <= i < ks.len() && 0 <= j < ks.len() && i != j implies ks[i]
            != ks[j] by {
            assert(ks[i] == s[i].0 && ks[j] == s[j].0);
        }
    }
    ks.unique_seq_to_set();
    assert forall|k: K| #[trigger] keyed_map(s).dom().contains(k) <==> ks.to_set().contains(k) by {
        if has_key(s, k) {
            let i = choose|i: int| 0 <= i < s.len() && s[i].0 == k;
            assert(ks[i] == k);
        }
        if ks.contains(k) {
            let i = choose|i: int| 0 <= i < ks.len() && ks[i] == k;
            assert(s[i].0 == k);
        }
    }
    assert(keyed_map(s).dom() =~= ks.to_set());
    vstd::seq_lib::seq_to_set_is_finite(ks);
}

/// In a sequence without repeated keys, the entry at `i` gives the map's value for its key.
pub proof fn lemma_keyed_map_at<K, V>(s: Seq<(K, V)>, i: int)
    requires
        distinct_keys(s),
        0 <= i < s.len(),
    ensures
        keyed_map(s).contains_key(s[i].0),
        keyed_map(s)[s[i].0] == s[i].1,
{
    let k = s[i].0;
    assert(has_key(s, k));
    let j = choose|j: int| 0 <= j < s.len() && s[j].0 == k;
    assert(j == i);
}

/// Appending an entry with a new key adds that key to the map.
pub proof fn lemma_keyed_push<K, V>(s: Seq<(K, V)>, k: K, v: V)
    requires
        distinct_keys(s),
        !has_key(s, k),
    ensures
        distinct_keys(s.push((k, v))),
        keyed_map(s.push((k, v))) == keyed_map(s).insert(k, v),
{
    let t = s.push((k, v));
    assert forall|i: int, j: int| 0 <= i < t.len() && 0 <= j < t.len() && i != j implies t[i].0
        != t[j].0 by {
        if i < s.len() && j < s.len() {
            assert(t[i] == s[i] && t[j] == s[j]);
        } else if i < s.len() {
            assert(t[i] == s[i]);
        } else {
            assert(t[j] == s[j]);
        }
    }
    lemma_keyed_same_entries(s, t, k, v, s.len() as int);
}

/// Replacing the entry at `i` by one with the same key updates that key's value.
pub proof fn lemma_keyed_update<K, V>(s: Seq<(K, V)>, i: int, v: V)
    requires
        distinct_keys(s),
        0 <= i < s.len(),
    ensures
        distinct_keys(s.update(i, (s[i].0, v))),
        keyed_map(s.update(i, (s[i].0, v))) == keyed_map(s).insert(s[i].0, v),
{
    let k = s[i].0;
    let t = s.update(i, (k, v));
    assert forall|a: int, b: int| 0 <= a < t.len() && 0 <= b < t.len() && a != b implies t[a].0
        != t[b].0 by {
        assert(t[a].0 == s[a].0 && t[b].0 == s[b].0);
    }
    let m = keyed_map(s).insert(k, v);
    let n = keyed_map(t);
    assert forall|x: K| #[trigger] n.contains_key(x) <==> m.contains_key(x) by {
        if has_key(t, x) {
            let a = choose|a: int| 0 <= a < t.len() && t[a].0 == x;
            assert(s[a].0 == x);
        }
        if has_key(s, x) {
            let a = choose|a: int| 0 <= a < s.len() && s[a].0 == x;
            assert(t[a].0 == x);
        }
        if x == k {
            assert(t[i].0 == x);
        }
    }
    assert forall|x: K| n.contains_key(x) implies #[trigger] n[x] == m[x] by {
        let a = choose|a: int| 0 <= a < t.len() && t[a].0 == x;
        lemma_keyed_map_at(t, a);
        if a == i {
        } else {
            assert(t[a] == s[a]);
            lemma_keyed_map_at(s, a);
        }
    }
    assert(n =~= m);
}

/// Inserting an entry with a new key at position `p` adds that key to the map.
pub proof fn lemma_keyed_insert<K, V>(s: Seq<(K, V)>, p: int, k: K, v: V)
    requires
        distinct_keys(s),
        !has_key(s, k),
        0 <= p <= s.len(),
    ensures
        distinct_keys(s.insert(p, (k, v))),
        keyed_map(s.insert(p, (k, v))) == keyed_map(s).insert(k, v),
{
    let t = s.insert(p, (k, v));
    assert forall|i: int| 0 <= i < t.len() && i != p implies #[trigger] t[i] == s[if i < p {
        i
    } else {
        i - 1
    }] by {}
    assert forall|i: int, j: int| 0 <= i < t.len() && 0 <= j < t.len() && i != j implies t[i].0
        != t[j].0 by {
        if i != p {
            assert(t[i] == s[if i < p { i } else { i - 1 }]);
        }
        if j != p {
            assert(t[j] == s[if j < p { j } else { j - 1 }]);
        }
    }
    lemma_keyed_same_entries(s, t, k, v, p);
}

/// `t` holds the entries of `s` and, at position `p`, the entry `(k, v)` with a new key.
proof fn lemma_keyed_same_entries<K, V>(s: Seq<(K, V)>, t: Seq<(K, V)>, k: K, v: V, p: int)
    requires
        distinct_keys(s),
        distinct_keys(t),
        !has_key(s, k),
        0 <= p <= s.len(),
        t.len() == s.len() + 1,
        t[p] == (k, v),
        forall|i: int| 0 <= i < t.len() && i != p ==> #[trigger] t[i] == s[if i < p {
            i
        } else {
            i - 1
        }],
    ensures
        keyed_map(t) == keyed_map(s).insert(k, v),
{
    let m = keyed_map(s).insert(k, v);
    let n = keyed_map(t);
    assert forall|x: K| #[trigger] n.contains_key(x) <==> m.contains_key(x) by {
        if has_key(t, x) {
            let a = choose|a: int| 0 <= a < t.len() && t[a].0 == x;
            if a != p {
                assert(t[a] == s[if a < p { a } else { a - 1 }]);
            }
        }
        if has_key(s, x) {
            let a = choose|a: int| 0 <= a < s.len() && s[a].0 == x;
            let b = if a < p { a } else { a + 1 };
            assert(t[b] == s[a]);
        }
        if x == k {
            assert(t[p].0 == x);
        }
    }
    assert forall|x: K| n.contains_key(x) implies #[trigger] n[x] == m[x] by {
        let a = choose|a: int| 0 <= a < t.len() && t[a].0 == x;
        lemma_keyed_map_at(t, a);
        if a != p {
            let b = if a < p { a } else { a - 1 };
            assert(t[a] == s[b]);
            lemma_keyed_map_at(s, b);
        }
    }
    assert(n =~= m);
}

} // verus!
