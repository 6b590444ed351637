//! Lists of key-value pairs with distinct keys, and the maps they stand for.
use vstd::prelude::*;

verus! {

/// The keys of `pairs` are pairwise distinct.
pub open spec fn distinct_keys<K, V>(pairs: Seq<(K, V)>) -> bool {
    forall|i: int, j: int|
        0 <= i < pairs.len() && 0 <= j < pairs.len() && i != j ==> #[trigger] pairs[i].0 != #[trigger] pairs[j].0
}

/// Some pair of `pairs` has key `key`.
pub open spec fn has_key<K, V>(pairs: Seq<(K, V)>, key: K) -> bool {
    exists|i: int| 0 <= i < pairs.len() && #[trigger] pairs[i].0 == key
}

/// A position of `pairs` that holds key `key` (meaningful when `has_key`).
pub open spec fn key_pos<K, V>(pairs: Seq<(K, V)>, key: K) -> int {
    choose|i: int| 0 <= i < pairs.len() && #[trigger] pairs[i].0 == key
}

/// The map that a list of `(key, value)` pairs with distinct keys stands for.
pub open spec fn pairs_map<K, V>(pairs: Seq<(K, V)>) -> Map<K, V> {
    Map::new(|k: K| has_key(pairs, k), |k: K| pairs[key_pos(pairs, k)].1)
}

/// `pairs` with the value of `key` set to `value`: replaced in place where the
/// key is present, appended at the end where it is not.
pub open spec fn upsert<K, V>(pairs: Seq<(K, V)>, key: K, value: V) -> Seq<(K, V)> {
    if has_key(pairs, key) {
        pairs.update(key_pos(pairs, key), (key, value))
    } else {
        pairs.push((key, value))
    }
}

/// Setting a key in a list of pairs with distinct keys keeps the keys distinct
/// and acts on the map it stands for as a map insertion.
pub proof fn lemma_upsert_is_insert<K, V>(pairs: Seq<(K, V)>, key: K, value: V)
    requires
        distinct_keys(pairs),
    ensures
        distinct_keys(upsert(pairs, key, value)),
        pairs_map(upsert(pairs, key, value)) == pairs_map(pairs).insert(key, value),
{
    let r = upsert(pairs, key, value);
    if has_key(pairs, key) {
        let p = key_pos(pairs, key);
        assert(r.len() == pairs.len());
        assert forall|i: int, j: int| 0 <= i < r.len() && 0 <= j < r.len() && i != j implies #[trigger] r[i].0 != #[trigger] r[j].0 by {
            if i == p {
                assert(pairs[p].0 == key);
                assert(pairs[j].0 != pairs[p].0);
            } else if j == p {
                assert(pairs[p].0 == key);
                assert(pairs[i].0 != pairs[p].0);
            } else {
                assert(pairs[i].0 != pairs[j].0);
            }
        }
        assert forall|k: K| #[trigger] pairs_map(pairs).insert(key, value).dom().contains(k) implies has_key(r, k) by {
            if k == key {
                assert(r[p].0 == k);
            } else {
                let q = key_pos(pairs, k);
                assert(pairs[q].0 == k);
                assert(q != p);
                assert(r[q].0 == k);
            }
        }
        assert forall|k: K| has_key(r, k) implies #[trigger] pairs_map(pairs).insert(key, value).dom().contains(k) by {
            let q = key_pos(r, k);
            if q != p {
                assert(pairs[q].0 == k);
            }
        }
        assert forall|k: K| #[trigger] pairs_map(r).dom().contains(k) implies pairs_map(r)[k] == pairs_map(pairs).insert(key, value)[k] by {
            let q = key_pos(r, k);
            assert(r[q].0 == k);
            if k == key {
                assert(r[p].0 == key);
                assert(q == p);
            } else {
                let q2 = key_pos(pairs, k);
                assert(q != p);
                assert(pairs[q].0 == k);
                assert(pairs[q2].0 == k);
                assert(q2 == q);
            }
        }
        assert(pairs_map(r) =~= pairs_map(pairs).insert(key, value));
    } else {
        assert forall|i: int, j: int| 0 <= i < r.len() && 0 <= j < r.len() && i != j implies #[trigger] r[i].0 != #[trigger] r[j].0 by {
            if i == pairs.len() {
                assert(r[i].0 == key);
                assert(r[j] == pairs[j]);
            } else if j == pairs.len() {
                assert(r[j].0 == key);
                assert(r[i] == pairs[i]);
            } else {
                assert(r[i] == pairs[i]);
                assert(r[j] == pairs[j]);
            }
        }
        assert forall|k: K| #[trigger] pairs_map(pairs).insert(key, value).dom().contains(k) implies has_key(r, k) by {
            if k == key {
                assert(r[pairs.len() as int].0 == k);
            } else {
                let q = key_pos(pairs, k);
                assert(r[q] == pairs[q]);
            }
        }
        assert forall|k: K| has_key(r, k) implies #[trigger] pairs_map(pairs).insert(key, value).dom().contains(k) by {
            let q = key_pos(r, k);
            if q < pairs.len() {
                assert(r[q] == pairs[q]);
            }
        }
        assert forall|k: K| #[trigger] pairs_map(r).dom().contains(k) implies pairs_map(r)[k] == pairs_map(pairs).insert(key, value)[k] by {
            let q = key_pos(r, k);
            if k == key {
                if q < pairs.len() {
                    assert(r[q] == pairs[q]);
                }
                assert(q == pairs.len());
            } else {
                assert(q < pairs.len());
                assert(r[q] == pairs[q]);
                let q2 = key_pos(pairs, k);
                assert(r[q2] == pairs[q2]);
                assert(q2 == q);
            }
        }
        assert(pairs_map(r) =~= pairs_map(pairs).insert(key, value));
    }
}

/// The pairs of `m` with their keys taken by view.
pub open spec fn entries<V>(m: Seq<(String, V)>) -> Seq<(Seq<char>, V)> {
    m.map_values(|p: (String, V)| (p.0@, p.1))
}

/// The group `group` of a list of named groups, empty where there is none.
pub open spec fn group_of<K, V>(groups: Seq<(K, Seq<(K, V)>)>, group: K) -> Seq<(K, V)> {
    if has_key(groups, group) {
        groups[key_pos(groups, group)].1
    } else {
        seq![]
    }
}

/// Every group of a list of named groups has distinct keys.
pub open spec fn groups_distinct<K, V>(groups: Seq<(K, Seq<(K, V)>)>) -> bool {
    &&& distinct_keys(groups)
    &&& forall|i: int| 0 <= i < groups.len() ==> distinct_keys(#[trigger] groups[i].1)
}

/// The map of maps that a list of named groups stands for.
pub open spec fn groups_map<K, V>(groups: Seq<(K, Seq<(K, V)>)>) -> Map<K, Map<K, V>> {
    pairs_map(groups).map_values(|inner: Seq<(K, V)>| pairs_map(inner))
}

/// Setting `key` to `value` in the group `group`, which is created where
/// it does not exist yet.
pub open spec fn group_upsert<K, V>(groups: Seq<(K, Seq<(K, V)>)>, group: K, key: K, value: V) -> Seq<(K, Seq<(K, V)>)> {
    upsert(groups, group, upsert(group_of(groups, group), key, value))
}

/// Setting a key in a group keeps every group's keys distinct and acts on
/// the map of maps as an insertion into the group's map (an empty map where
/// the group is new).
pub proof fn lemma_group_upsert<K, V>(groups: Seq<(K, Seq<(K, V)>)>, group: K, key: K, value: V)
    requires
        groups_distinct(groups),
    ensures
        groups_distinct(group_upsert(groups, group, key, value)),
        groups_map(group_upsert(groups, group, key, value)) == groups_map(groups).insert(
            group,
            (if groups_map(groups).dom().contains(group) { groups_map(groups)[group] } else { Map::empty() }).insert(key, value),
        ),
{
    let inner = group_of(groups, group);
    if has_key(groups, group) {
        assert(distinct_keys(groups[key_pos(groups, group)].1));
    } else {
        assert(distinct_keys(inner));
        assert(pairs_map(inner) =~= Map::<K, V>::empty());
    }
    lemma_upsert_is_insert(inner, key, value);
    let new_inner = upsert(inner, key, value);
    lemma_upsert_is_insert(groups, group, new_inner);
    let r = group_upsert(groups, group, key, value);
    assert forall|i: int| 0 <= i < r.len() implies distinct_keys(#[trigger] r[i].1) by {
        if has_key(groups, group) {
            if i != key_pos(groups, group) {
                assert(r[i] == groups[i]);
            }
        } else {
            if i < groups.len() {
                assert(r[i] == groups[i]);
            }
        }
    }
    assert(groups_map(r) =~= groups_map(groups).insert(
        group,
        (if groups_map(groups).dom().contains(group) { groups_map(groups)[group] } else { Map::empty() }).insert(key, value),
    ));
}

/// Sets the value of `key` in a list of pairs with distinct keys, the
/// values taken as they are.
pub fn set_entry<V>(m: &mut Vec<(String, V)>, key: String, value: V)
    requires
        distinct_keys(entries(old(m)@)),
    ensures
        entries(final(m)@) == upsert(entries(old(m)@), key@, value),
        distinct_keys(entries(final(m)@)),
{
    let ghost start = entries(m@);
    proof { lemma_upsert_is_insert(start, key@, value); }
    let mut i: usize = 0;
    while i < m.len()
        invariant
            i <= m.len(),
            entries(m@) == start,
            start == entries(old(m)@),
            distinct_keys(start),
            forall|j: int| 0 <= j < i ==> #[trigger] start[j].0 != key@,
        decreases m.len() - i,
    {
        if m[i].0 == key {
            assert(start[i as int].0 == key@);
            assert(has_key(start, key@));
            let ghost p = key_pos(start, key@);
            assert(start[p].0 == key@);
            assert(p == i);
            let ghost k = key@;
            m.set(i, (key, value));
            assert(entries(m@) =~= start.update(i as int, (k, value)));
            return;
        }
        i += 1;
    }
    assert(!has_key(start, key@));
    let ghost k = key@;
    m.push((key, value));
    assert(entries(m@) =~= start.push((k, value)));
}

/// Sets the value of `key` in a list of pairs with distinct keys, the
/// values taken by their deep view.
pub fn set_deep<V: DeepView>(m: &mut Vec<(String, V)>, key: String, value: V)
    requires
        distinct_keys(old(m).deep_view()),
    ensures
        final(m).deep_view() == upsert(old(m).deep_view(), key@, value.deep_view()),
        distinct_keys(final(m).deep_view()),
{
    let ghost start = m.deep_view();
    proof { lemma_upsert_is_insert(start, key@, value.deep_view()); }
    let mut i: usize = 0;
    while i < m.len()
        invariant
            i <= m.len(),
            m.deep_view() == start,
            start == old(m).deep_view(),
            distinct_keys(start),
            forall|j: int| 0 <= j < i ==> #[trigger] start[j].0 != key@,
        decreases m.len() - i,
    {
        if m[i].0 == key {
            assert(start[i as int].0 == key@);
            assert(has_key(start, key@));
            let ghost p = key_pos(start, key@);
            assert(start[p].0 == key@);
            assert(p == i);
            let ghost k = key@;
            let ghost v = value.deep_view();
            m.set(i, (key, value));
            assert(m.deep_view() =~= start.update(i as int, (k, v)));
            return;
        }
        i += 1;
    }
    assert(!has_key(start, key@));
    let ghost k = key@;
    let ghost v = value.deep_view();
    m.push((key, value));
    assert(m.deep_view() =~= start.push((k, v)));
}

} // verus!
