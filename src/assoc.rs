//! Association lists and the maps they stand for.
//!
//! The wire documents keep each of their mappings as a list of
//! `(token, value)` pairs; such a list means the map obtained by inserting its
//! pairs in order, so that where two tokens name the same key the later pair
//! stands. The domain model keeps its mappings as lists whose keys are
//! distinct, built with [`upsert`].

use vstd::prelude::*;

verus! {

/// The map that the pairs `s` stand for, each key seen through `kf` and each
/// value through `vf`; a later pair overrides an earlier one with the same key.
pub open spec fn pairs_map<K, V, KM, VM>(
    s: Seq<(K, V)>,
    kf: spec_fn(K) -> KM,
    vf: spec_fn(V) -> VM,
) -> Map<KM, VM>
    decreases s.len(),
{
    if s.len() == 0 {
        Map::empty()
    } else {
        pairs_map(s.drop_last(), kf, vf).insert(kf(s.last().0), vf(s.last().1))
    }
}

/// The map that the pairs `s` stand for, each key seen through its view and
/// each value through `vf`.
pub open spec fn entries_map<K: View, V, VM>(s: Seq<(K, V)>, vf: spec_fn(V) -> VM) -> Map<K::V, VM>
    decreases s.len(),
{
    if s.len() == 0 {
        Map::empty()
    } else {
        entries_map(s.drop_last(), vf).insert(s.last().0@, vf(s.last().1))
    }
}

/// No two pairs of `s` have keys with the same view.
pub open spec fn keys_distinct<K: View, V>(s: Seq<(K, V)>) -> bool {
    forall|i: int, j: int| 0 <= i < j < s.len() ==> s[i].0@ != s[j].0@
}

/// Appending a pair with a new key inserts it into the map.
pub proof fn lemma_entries_map_push<K: View, V, VM>(
    s: Seq<(K, V)>,
    p: (K, V),
    vf: spec_fn(V) -> VM,
)
    requires
        keys_distinct(s),
        forall|i: int| 0 <= i < s.len() ==> s[i].0@ != p.0@,
    ensures
        keys_distinct(s.push(p)),
        entries_map(s.push(p), vf) == entries_map(s, vf).insert(p.0@, vf(p.1)),
{
    assert(s.push(p).drop_last() == s);
    assert forall|i: int, j: int| 0 <= i < j < s.push(p).len() implies s.push(p)[i].0@ != s.push(
        p,
    )[j].0@ by {
        if j == s.len() {
            assert(s.push(p)[i] == s[i]);
        }
    }
}

/// Replacing the pair with a given key replaces that key's value.
pub proof fn lemma_entries_map_update<K: View, V, VM>(
    s: Seq<(K, V)>,
    i: int,
    p: (K, V),
    vf: spec_fn(V) -> VM,
)
    requires
        keys_distinct(s),
        0 <= i < s.len(),
        s[i].0@ == p.0@,
    ensures
        keys_distinct(s.update(i, p)),
        entries_map(s.update(i, p), vf) == entries_map(s, vf).insert(p.0@, vf(p.1)),
    decreases s.len(),
{
    let t = s.update(i, p);
    let d = s.drop_last();
    assert forall|a: int, b: int| 0 <= a < b < t.len() implies t[a].0@ != t[b].0@ by {
        assert(s[a].0@ != s[b].0@);
    }
    if i == s.len() - 1 {
        assert(t.drop_last() == d);
        assert(entries_map(t, vf) =~= entries_map(s, vf).insert(p.0@, vf(p.1)));
    } else {
        assert(t.drop_last() == d.update(i, p));
        lemma_entries_map_update(d, i, p, vf);
        assert(s.last().0@ != p.0@) by {
            assert(s[i].0@ != s[s.len() - 1].0@);
        }
        assert(entries_map(t, vf) =~= entries_map(s, vf).insert(p.0@, vf(p.1)));
    }
}

/// A key type whose views can be compared at run time.
pub trait SameKey: View {
    /// `self` and `other` are the same key.
    fn same_key(&self, other: &Self) -> (r: bool)
        ensures
            r == (self@ == other@),
    ;
}

impl SameKey for u64 {
    fn same_key(&self, other: &u64) -> (r: bool) {
        *self == *other
    }
}

impl SameKey for String {
    fn same_key(&self, other: &String) -> (r: bool) {
        *self == *other
    }
}

/// Sets the value of key `k` to `v`: replaces the pair with that key, or
/// appends one where there is none.
pub(crate) fn upsert<K: SameKey, V, VM>(
    out: &mut Vec<(K, V)>,
    k: K,
    v: V,
    Ghost(vf): Ghost<spec_fn(V) -> VM>,
)
    requires
        keys_distinct(old(out)@),
    ensures
        keys_distinct(final(out)@),
        entries_map(final(out)@, vf) == entries_map(old(out)@, vf).insert(k@, vf(v)),
        final(out)@ == old(out)@.push((k, v)) || exists|j: int|
            0 <= j < old(out)@.len() && final(out)@ == old(out)@.update(j, (k, v)),
{
    let mut j: usize = 0;
    while j < out.len()
        invariant
            j <= out.len(),
            out@ == old(out)@,
            keys_distinct(out@),
            forall|x: int| 0 <= x < j ==> out@[x].0@ != k@,
        decreases out.len() - j,
    {
        if out[j].0.same_key(&k) {
            proof {
                lemma_entries_map_update(out@, j as int, (k, v), vf);
            }
            out[j] = (k, v);
            return;
        }
        j = j + 1;
    }
    proof {
        lemma_entries_map_push(out@, (k, v), vf);
    }
    out.push((k, v));
}

} // verus!
