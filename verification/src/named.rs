//! Lists of named values: what a map keyed by strings is held in.
//!
//! A list `Vec<(String, T)>` stands for the map from each name to the value
//! listed with it. Where no name occurs twice, the list and the map say the
//! same; the lemmas here carry a change of the list over to the map.

use vstd::prelude::*;

verus! {

/// The map that a list of named values stands for. Where a name occurs more
/// than once, its last value counts.
pub open spec fn entries_map<V>(entries: Seq<(Seq<char>, V)>) -> Map<Seq<char>, V>
    decreases entries.len(),
{
    if entries.len() == 0 {
        Map::empty()
    } else {
        entries_map(entries.drop_last()).insert(entries.last().0, entries.last().1)
    }
}

/// Whether no name occurs twice in a list of named values.
pub open spec fn distinct_names<V>(entries: Seq<(Seq<char>, V)>) -> bool {
    forall|i: int, j: int|
        0 <= i < j < entries.len() ==> (#[trigger] entries[i]).0 != (#[trigger] entries[j]).0
}

/// The views of a list of named values.
pub open spec fn named_views<T: View>(entries: Seq<(String, T)>) -> Seq<(Seq<char>, T::V)> {
    Seq::new(entries.len(), |i: int| (entries[i].0@, entries[i].1@))
}

/// The map that a list of named values stands for, as views.
pub open spec fn named_map<T: View>(entries: Seq<(String, T)>) -> Map<Seq<char>, T::V> {
    entries_map(named_views(entries))
}

/// The map that a list of named values stands for, if there is a list.
pub open spec fn optional_named_map<T: View>(entries: Option<Vec<(String, T)>>) -> Option<
    Map<Seq<char>, T::V>,
> {
    match entries {
        Some(entries) => Some(named_map(entries@)),
        None => None,
    }
}

/// In a list without a repeated name, the map holds under each name the
/// value listed with it, and holds no other name.
pub proof fn lemma_entries_map<V>(entries: Seq<(Seq<char>, V)>)
    requires
        distinct_names(entries),
    ensures
        forall|i: int|
            0 <= i < entries.len() ==> entries_map(entries).contains_key(
                (#[trigger] entries[i]).0,
            ) && entries_map(entries)[entries[i].0] == entries[i].1,
        forall|key: Seq<char>| #[trigger]
            entries_map(entries).contains_key(key) ==> exists|i: int|
                0 <= i < entries.len() && (#[trigger] entries[i]).0 == key,
    decreases entries.len(),
{
    if entries.len() > 0 {
        let front = entries.drop_last();
        assert forall|i: int, j: int| 0 <= i < j < front.len() implies (#[trigger] front[i]).0 != (
        #[trigger] front[j]).0 by {
            assert(front[i] == entries[i]);
            assert(front[j] == entries[j]);
        }
        lemma_entries_map(front);
        assert forall|i: int| 0 <= i < entries.len() implies entries_map(entries).contains_key(
            (#[trigger] entries[i]).0,
        ) && entries_map(entries)[entries[i].0] == entries[i].1 by {
            if i < front.len() {
                assert(front[i] == entries[i]);
                assert(entries[i].0 != entries[entries.len() - 1].0);
            }
        }
        assert forall|key: Seq<char>| #[trigger]
            entries_map(entries).contains_key(key) implies exists|i: int|
            0 <= i < entries.len() && (#[trigger] entries[i]).0 == key by {
            if key == entries.last().0 {
                assert(entries[entries.len() - 1].0 == key);
            } else {
                assert(entries_map(front).contains_key(key));
                let i = choose|i: int| 0 <= i < front.len() && (#[trigger] front[i]).0 == key;
                assert(front[i] == entries[i]);
            }
        }
    }
}

/// The place at or after `start` where `name` stands in a list.
pub open spec fn place_from<V>(entries: Seq<(Seq<char>, V)>, name: Seq<char>, start: int) -> Option<
    int,
>
    decreases entries.len() - start,
{
    if start < 0 || start >= entries.len() {
        None
    } else if entries[start].0 == name {
        Some(start)
    } else {
        place_from(entries, name, start + 1)
    }
}

/// The first place where `name` stands in a list.
pub open spec fn place<V>(entries: Seq<(Seq<char>, V)>, name: Seq<char>) -> Option<int> {
    place_from(entries, name, 0)
}

/// Where `place_from` finds a name, the name stands there and at no earlier
/// place; where it finds none, the name stands nowhere.
pub proof fn lemma_place_from<V>(entries: Seq<(Seq<char>, V)>, name: Seq<char>, start: int)
    requires
        0 <= start,
    ensures
        match place_from(entries, name, start) {
            Some(i) => {
                &&& start <= i < entries.len()
                &&& entries[i].0 == name
                &&& forall|k: int| start <= k < i ==> (#[trigger] entries[k]).0 != name
            },
            None => forall|k: int| start <= k < entries.len() ==> (#[trigger] entries[k]).0 != name,
        },
    decreases entries.len() - start,
{
    if start < entries.len() && entries[start].0 != name {
        lemma_place_from(entries, name, start + 1);
    }
}

/// In a list without a repeated name, a name has a place exactly if the map
/// holds it, and the map holds under it the value at that place.
pub proof fn lemma_place<V>(entries: Seq<(Seq<char>, V)>, name: Seq<char>)
    requires
        distinct_names(entries),
    ensures
        match place(entries, name) {
            Some(i) => 0 <= i < entries.len() && entries[i].0 == name && entries_map(
                entries,
            ).contains_key(name) && entries_map(entries)[name] == entries[i].1,
            None => !entries_map(entries).contains_key(name),
        },
{
    lemma_place_from(entries, name, 0);
    lemma_entries_map(entries);
}

/// Adding a new name to a list adds it to the map.
pub proof fn lemma_entries_push<V>(entries: Seq<(Seq<char>, V)>, name: Seq<char>, value: V)
    requires
        distinct_names(entries),
        !entries_map(entries).contains_key(name),
    ensures
        distinct_names(entries.push((name, value))),
        entries_map(entries.push((name, value))) == entries_map(entries).insert(name, value),
{
    let longer = entries.push((name, value));
    lemma_entries_map(entries);
    assert(longer.drop_last() =~= entries);
    assert forall|i: int, j: int| 0 <= i < j < longer.len() implies (#[trigger] longer[i]).0 != (
    #[trigger] longer[j]).0 by {
        assert(longer[i] == entries[i]);
        if j < entries.len() {
            assert(longer[j] == entries[j]);
        }
    }
}

/// Replacing the value at a place replaces the value under its name.
pub proof fn lemma_entries_update<V>(entries: Seq<(Seq<char>, V)>, i: int, value: V)
    requires
        distinct_names(entries),
        0 <= i < entries.len(),
    ensures
        distinct_names(entries.update(i, (entries[i].0, value))),
        entries_map(entries.update(i, (entries[i].0, value))) == entries_map(entries).insert(
            entries[i].0,
            value,
        ),
{
    let changed = entries.update(i, (entries[i].0, value));
    assert forall|a: int, b: int| 0 <= a < b < changed.len() implies (#[trigger] changed[a]).0 != (
    #[trigger] changed[b]).0 by {
        assert(changed[a].0 == entries[a].0);
        assert(changed[b].0 == entries[b].0);
    }
    lemma_entries_map(entries);
    lemma_entries_map(changed);
    let expected = entries_map(entries).insert(entries[i].0, value);
    assert forall|name: Seq<char>| entries_map(changed).contains_key(name) implies expected.contains_key(
        name,
    ) && expected[name] == entries_map(changed)[name] by {
        let k = choose|k: int| 0 <= k < changed.len() && (#[trigger] changed[k]).0 == name;
        assert(changed[k].0 == entries[k].0);
        if k != i {
            assert(changed[k] == entries[k]);
        }
    }
    assert forall|name: Seq<char>| expected.contains_key(name) implies entries_map(
        changed,
    ).contains_key(name) by {
        if name == entries[i].0 {
            assert(changed[i].0 == name);
        } else {
            let k = choose|k: int| 0 <= k < entries.len() && (#[trigger] entries[k]).0 == name;
            assert(changed[k].0 == name);
        }
    }
    assert(entries_map(changed) =~= expected);
}

/// Taking a place out of a list takes its name out of the map.
pub proof fn lemma_entries_remove<V>(entries: Seq<(Seq<char>, V)>, i: int)
    requires
        distinct_names(entries),
        0 <= i < entries.len(),
    ensures
        distinct_names(entries.remove(i)),
        entries_map(entries.remove(i)) == entries_map(entries).remove(entries[i].0),
{
    let shorter = entries.remove(i);
    assert forall|a: int, b: int| 0 <= a < b < shorter.len() implies (#[trigger] shorter[a]).0 != (
    #[trigger] shorter[b]).0 by {
        let a0 = if a < i { a } else { a + 1 };
        let b0 = if b < i { b } else { b + 1 };
        assert(shorter[a] == entries[a0]);
        assert(shorter[b] == entries[b0]);
    }
    lemma_entries_map(entries);
    lemma_entries_map(shorter);
    let expected = entries_map(entries).remove(entries[i].0);
    assert forall|name: Seq<char>| entries_map(shorter).contains_key(name) implies expected.contains_key(
        name,
    ) && expected[name] == entries_map(shorter)[name] by {
        let k = choose|k: int| 0 <= k < shorter.len() && (#[trigger] shorter[k]).0 == name;
        let k0 = if k < i { k } else { k + 1 };
        assert(shorter[k] == entries[k0]);
    }
    assert forall|name: Seq<char>| expected.contains_key(name) implies entries_map(
        shorter,
    ).contains_key(name) by {
        let k = choose|k: int| 0 <= k < entries.len() && (#[trigger] entries[k]).0 == name;
        if k < i {
            assert(shorter[k] == entries[k]);
        } else {
            assert(shorter[k - 1] == entries[k]);
        }
    }
    assert(entries_map(shorter) =~= expected);
}

} // verus!
