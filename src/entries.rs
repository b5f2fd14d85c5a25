//! Ordered key-value entries with unique keys: the model of the library's
//! small maps, where a later write for a key replaces its value in place.
use vstd::prelude::*;

verus! {

/// Whether no key appears twice.
pub open spec fn keys_unique<K, V>(s: Seq<(K, V)>) -> bool {
    forall|i: int, j: int| 0 <= i < j < s.len() ==> #[trigger] s[i].0 != #[trigger] s[j].0
}

/// Whether `k` appears as a key.
pub open spec fn has_key<K, V>(s: Seq<(K, V)>, k: K) -> bool {
    exists|i: int| 0 <= i < s.len() && #[trigger] s[i].0 == k
}

/// The entries with `k` set to `v`: the entry of `k` is replaced where there is
/// one, else a new entry goes last.
pub open spec fn upsert<K, V>(s: Seq<(K, V)>, k: K, v: V) -> Seq<(K, V)> {
    if has_key(s, k) {
        s.update(choose|i: int| 0 <= i < s.len() && #[trigger] s[i].0 == k, (k, v))
    } else {
        s.push((k, v))
    }
}

/// The value recorded for `k`.
pub open spec fn lookup<K, V>(s: Seq<(K, V)>, k: K) -> Option<V> {
    if has_key(s, k) {
        Some(s[choose|i: int| 0 <= i < s.len() && #[trigger] s[i].0 == k].1)
    } else {
        None
    }
}

/// Setting a key keeps keys unique, makes the key map to the new value, leaves
/// every other key's value as it was, and adds an entry only for a new key.
pub proof fn lemma_upsert<K, V>(s: Seq<(K, V)>, k: K, v: V)
    requires
        keys_unique(s),
    ensures
        keys_unique(upsert(s, k, v)),
        lookup(upsert(s, k, v), k) == Some(v),
        forall|k2: K| k2 != k ==> #[trigger] lookup(upsert(s, k, v), k2) == lookup(s, k2),
        upsert(s, k, v).len() == s.len() + (if has_key(s, k) { 0int } else { 1 }),
{
    let u = upsert(s, k, v);
    if has_key(s, k) {
        let i = choose|i: int| 0 <= i < s.len() && #[trigger] s[i].0 == k;
        assert(u == s.update(i, (k, v)));
        assert(forall|x: int| 0 <= x < u.len() ==> #[trigger] u[x].0 == s[x].0);
    } else {
        assert(u == s.push((k, v)));
        assert(forall|x: int| 0 <= x < s.len() ==> #[trigger] u[x] == s[x]);
    }
    assert(keys_unique(u)) by {
        assert forall|a: int, b: int| 0 <= a < b < u.len() implies #[trigger] u[a].0 != #[trigger] u[b].0 by {
            if has_key(s, k) {
                assert(u[a].0 == s[a].0);
                assert(u[b].0 == s[b].0);
            } else if b == s.len() {
                assert(u[a].0 == s[a].0);
                assert(!(s[a].0 == k));
            } else {
                assert(u[a].0 == s[a].0);
                assert(u[b].0 == s[b].0);
            }
        }
    }
    let w = if has_key(s, k) {
        choose|i: int| 0 <= i < s.len() && #[trigger] s[i].0 == k
    } else {
        s.len() as int
    };
    assert(u[w] == (k, v));
    assert(0 <= w < u.len() && u[w].0 == k);
    assert(has_key(u, k));
    let j = choose|j: int| 0 <= j < u.len() && #[trigger] u[j].0 == k;
    assert(j == w);
    assert forall|k2: K| k2 != k implies #[trigger] lookup(u, k2) == lookup(s, k2) by {
        if has_key(s, k2) {
            let a = choose|a: int| 0 <= a < s.len() && #[trigger] s[a].0 == k2;
            assert(u[a] == s[a]);
            assert(has_key(u, k2));
            let b = choose|b: int| 0 <= b < u.len() && #[trigger] u[b].0 == k2;
            assert(b != w);
            assert(u[b] == s[b]);
            assert(b == a);
        } else if has_key(u, k2) {
            let b = choose|b: int| 0 <= b < u.len() && #[trigger] u[b].0 == k2;
            assert(b != w);
            assert(u[b] == s[b]);
            assert(has_key(s, k2));
        }
    }
}

} // verus!
