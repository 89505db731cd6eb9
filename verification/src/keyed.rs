//! Lists of keyed entries read as maps: the abstraction behind the registries that keep
//! their entries in a `Vec`.
use vstd::prelude::*;

verus! {

/// Whether no key occurs twice in the list.
pub open spec fn keys_unique<E, K>(s: Seq<E>, key: spec_fn(E) -> K) -> bool {
    forall|i: int, j: int| 0 <= i < j < s.len() ==> key(#[trigger] s[i]) != key(#[trigger] s[j])
}

/// The map from each entry's key to its value; a later entry of a key wins.
pub open spec fn keyed_map<E, K, V>(s: Seq<E>, key: spec_fn(E) -> K, val: spec_fn(E) -> V) -> Map<K, V>
    decreases s.len(),
{
    if s.len() == 0 {
        Map::empty()
    } else {
        keyed_map(s.drop_last(), key, val).insert(key(s.last()), val(s.last()))
    }
}

/// The keys of the map are those of the entries, and with unique keys each entry's value
/// is what the map holds for its key.
pub proof fn lemma_keyed_map<E, K, V>(s: Seq<E>, key: spec_fn(E) -> K, val: spec_fn(E) -> V)
    ensures
        forall|k: K|
            #![trigger keyed_map(s, key, val).contains_key(k)]
            keyed_map(s, key, val).contains_key(k) <==> exists|i: int| 0 <= i < s.len() && key(#[trigger] s[i]) == k,
        keys_unique(s, key) ==> forall|i: int|
            0 <= i < s.len() ==> keyed_map(s, key, val)[key(#[trigger] s[i])] == val(s[i]),
    decreases s.len(),
{
    if s.len() > 0 {
        let init = s.drop_last();
        lemma_keyed_map(init, key, val);
        assert forall|k: K| #![trigger keyed_map(s, key, val).contains_key(k)]
            keyed_map(s, key, val).contains_key(k) <==> exists|i: int|
                0 <= i < s.len() && key(#[trigger] s[i]) == k by {
            let last = s.len() - 1;
            assert(keyed_map(s, key, val) == keyed_map(init, key, val).insert(key(s[last]), val(s[last])));
            if keyed_map(s, key, val).contains_key(k) {
                if k == key(s[last]) {
                    assert(0 <= last < s.len() && key(s[last]) == k);
                } else {
                    assert(keyed_map(init, key, val).contains_key(k));
                    let i = choose|i: int| 0 <= i < init.len() && key(#[trigger] init[i]) == k;
                    assert(s[i] == init[i]);
                    assert(0 <= i < s.len() && key(s[i]) == k);
                }
            }
            if exists|i: int| 0 <= i < s.len() && key(#[trigger] s[i]) == k {
                let i = choose|i: int| 0 <= i < s.len() && key(#[trigger] s[i]) == k;
                if i < last {
                    assert(init[i] == s[i]);
                    assert(keyed_map(init, key, val).contains_key(k));
                }
            }
        }
        if keys_unique(s, key) {
            assert forall|i: int, j: int| 0 <= i < j < init.len() implies key(#[trigger] init[i])
                != key(#[trigger] init[j]) by {
                assert(init[i] == s[i] && init[j] == s[j]);
            }
            assert forall|i: int| 0 <= i < s.len() implies keyed_map(s, key, val)[key(#[trigger] s[i])]
                == val(s[i]) by {
                if i < s.len() - 1 {
                    assert(init[i] == s[i]);
                    assert(key(s[i]) != key(s[s.len() - 1]));
                }
            }
        }
    }
}

/// The map of an empty list is empty, and a non-empty list has a key.
pub proof fn lemma_keyed_empty<E, K, V>(s: Seq<E>, key: spec_fn(E) -> K, val: spec_fn(E) -> V)
    ensures
        (s.len() == 0) == keyed_map(s, key, val).dom().is_empty(),
{
    lemma_keyed_map(s, key, val);
    if s.len() > 0 {
        assert(keyed_map(s, key, val).contains_key(key(s[0])));
    } else {
        assert(keyed_map(s, key, val).dom() =~= Set::empty());
    }
}

/// Appending an entry whose key is new keeps the keys unique and adds it to the map.
pub proof fn lemma_keyed_push<E, K, V>(s: Seq<E>, e: E, key: spec_fn(E) -> K, val: spec_fn(E) -> V)
    requires
        keys_unique(s, key),
        forall|j: int| 0 <= j < s.len() ==> key(#[trigger] s[j]) != key(e),
    ensures
        keys_unique(s.push(e), key),
        keyed_map(s.push(e), key, val) == keyed_map(s, key, val).insert(key(e), val(e)),
{
    let t = s.push(e);
    assert(t.drop_last() =~= s);
    assert forall|i: int, j: int| 0 <= i < j < t.len() implies key(#[trigger] t[i]) != key(#[trigger] t[j]) by {
        assert(t[i] == s[i]);
        if j < s.len() {
            assert(t[j] == s[j]);
        }
    }
}

/// Removing the entry at `i` keeps the keys unique and removes its key from the map; no
/// entry left has that key.
pub proof fn lemma_keyed_remove<E, K, V>(s: Seq<E>, i: int, key: spec_fn(E) -> K, val: spec_fn(E) -> V)
    requires
        keys_unique(s, key),
        0 <= i < s.len(),
    ensures
        keys_unique(s.remove(i), key),
        keyed_map(s.remove(i), key, val) == keyed_map(s, key, val).remove(key(s[i])),
        forall|j: int| 0 <= j < s.remove(i).len() ==> key(#[trigger] s.remove(i)[j]) != key(s[i]),
{
    let t = s.remove(i);
    assert forall|j: int| 0 <= j < t.len() implies #[trigger] t[j] == s[if j < i { j } else { j + 1 }] by {}
    assert forall|a: int, b: int| 0 <= a < b < t.len() implies key(#[trigger] t[a]) != key(#[trigger] t[b]) by {
        assert(t[a] == s[if a < i { a } else { a + 1 }]);
        assert(t[b] == s[if b < i { b } else { b + 1 }]);
    }
    assert forall|j: int| 0 <= j < t.len() implies key(#[trigger] t[j]) != key(s[i]) by {
        assert(t[j] == s[if j < i { j } else { j + 1 }]);
    }
    lemma_keyed_map(s, key, val);
    lemma_keyed_map(t, key, val);
    let m = keyed_map(s, key, val).remove(key(s[i]));
    assert forall|k: K| #[trigger] keyed_map(t, key, val).contains_key(k) == m.contains_key(k) by {
        if keyed_map(t, key, val).contains_key(k) {
            let j = choose|j: int| 0 <= j < t.len() && key(#[trigger] t[j]) == k;
            assert(t[j] == s[if j < i { j } else { j + 1 }]);
        }
        if m.contains_key(k) {
            let j = choose|j: int| 0 <= j < s.len() && key(#[trigger] s[j]) == k;
            assert(j != i);
            let j1 = if j < i { j } else { j - 1 };
            assert(t[j1] == s[j]);
        }
    }
    assert forall|k: K| #[trigger] keyed_map(t, key, val).contains_key(k) implies keyed_map(t, key, val)[k]
        == m[k] by {
        let j = choose|j: int| 0 <= j < t.len() && key(#[trigger] t[j]) == k;
        let j0 = if j < i { j } else { j + 1 };
        assert(t[j] == s[j0]);
    }
    assert(keyed_map(t, key, val) =~= m);
}

/// The sum of the sizes of the entries.
pub open spec fn total<E>(s: Seq<E>, size: spec_fn(E) -> nat) -> nat
    decreases s.len(),
{
    if s.len() == 0 {
        0
    } else {
        total(s.drop_last(), size) + size(s.last())
    }
}

pub proof fn lemma_total_remove<E>(s: Seq<E>, i: int, size: spec_fn(E) -> nat)
    requires
        0 <= i < s.len(),
    ensures
        total(s, size) == total(s.remove(i), size) + size(s[i]),
    decreases s.len(),
{
    if i == s.len() - 1 {
        assert(s.remove(i) =~= s.drop_last());
    } else {
        let init = s.drop_last();
        lemma_total_remove(init, i, size);
        let t = s.remove(i);
        assert(t.drop_last() =~= init.remove(i));
        assert(t.last() == s.last());
    }
}

pub proof fn lemma_total_prefix<E>(s: Seq<E>, i: int, size: spec_fn(E) -> nat)
    requires
        0 <= i <= s.len(),
    ensures
        total(s.take(i), size) <= total(s, size),
        i < s.len() ==> total(s.take(i + 1), size) == total(s.take(i), size) + size(s[i]),
    decreases s.len() - i,
{
    if i < s.len() {
        let t = s.take(i + 1);
        assert(t.drop_last() =~= s.take(i));
        assert(t.last() == s[i]);
        lemma_total_prefix(s, i + 1, size);
        if i + 1 == s.len() {
            assert(s.take(i + 1) =~= s);
        }
    } else {
        assert(s.take(i) =~= s);
    }
}

/// Keeping the entries whose key satisfies `p` restricts the map to those keys.
pub open spec fn keep_keyed<E, K>(s: Seq<E>, key: spec_fn(E) -> K, p: spec_fn(K) -> bool) -> Seq<E>
    decreases s.len(),
{
    if s.len() == 0 {
        s
    } else if p(key(s.last())) {
        keep_keyed(s.drop_last(), key, p).push(s.last())
    } else {
        keep_keyed(s.drop_last(), key, p)
    }
}

pub proof fn lemma_keep_keyed_step<E, K>(s: Seq<E>, j: int, key: spec_fn(E) -> K, p: spec_fn(K) -> bool)
    requires
        0 <= j < s.len(),
    ensures
        keep_keyed(s.take(j + 1), key, p) == if p(key(s[j])) {
            keep_keyed(s.take(j), key, p).push(s[j])
        } else {
            keep_keyed(s.take(j), key, p)
        },
{
    let t = s.take(j + 1);
    assert(t.drop_last() =~= s.take(j));
    assert(t.last() == s[j]);
}

pub proof fn lemma_keep_keyed<E, K, V>(s: Seq<E>, key: spec_fn(E) -> K, val: spec_fn(E) -> V, p: spec_fn(K) -> bool)
    requires
        keys_unique(s, key),
    ensures
        keys_unique(keep_keyed(s, key, p), key),
        keyed_map(keep_keyed(s, key, p), key, val) == keyed_map(s, key, val).restrict(Set::new(p)),
        forall|j: int| 0 <= j < keep_keyed(s, key, p).len() ==> p(key(#[trigger] keep_keyed(s, key, p)[j])),
        forall|j: int| 0 <= j < keep_keyed(s, key, p).len() ==> exists|i: int| 0 <= i < s.len() && s[i] == #[trigger] keep_keyed(s, key, p)[j],
    decreases s.len(),
{
    if s.len() == 0 {
        assert(keyed_map(s, key, val).restrict(Set::new(p)) =~= Map::empty());
    } else {
        let init = s.drop_last();
        assert forall|i: int, j: int| 0 <= i < j < init.len() implies key(#[trigger] init[i]) != key(
        #[trigger] init[j]) by {
            assert(init[i] == s[i] && init[j] == s[j]);
        }
        lemma_keep_keyed(init, key, val, p);
        let k0 = keep_keyed(init, key, p);
        if p(key(s.last())) {
            assert forall|j: int| 0 <= j < k0.len() implies key(#[trigger] k0[j]) != key(s.last()) by {
                let i = choose|i: int| 0 <= i < init.len() && init[i] == #[trigger] k0[j];
                assert(init[i] == s[i]);
            }
            lemma_keyed_push(k0, s.last(), key, val);
            let k1 = k0.push(s.last());
            assert forall|j: int| 0 <= j < k1.len() implies exists|i: int| 0 <= i < s.len() && s[i] == #[trigger] k1[j] by {
                if j < k0.len() {
                    let i = choose|i: int| 0 <= i < init.len() && init[i] == #[trigger] k0[j];
                    assert(s[i] == init[i]);
                } else {
                    assert(s[s.len() - 1] == k1[j]);
                }
            }
            assert(keyed_map(k1, key, val) =~= keyed_map(s, key, val).restrict(Set::new(p)));
        } else {
            assert(keyed_map(k0, key, val) =~= keyed_map(s, key, val).restrict(Set::new(p)));
            assert forall|j: int| 0 <= j < k0.len() implies exists|i: int| 0 <= i < s.len() && s[i] == #[trigger] k0[j] by {
                let i = choose|i: int| 0 <= i < init.len() && init[i] == #[trigger] k0[j];
                assert(s[i] == init[i]);
            }
        }
    }
}

} // verus!
