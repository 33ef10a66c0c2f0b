//! Short lists of pairs, looked up by their first component.
//!
//! The use cases remember what a peer published as such lists: the first entry with a key is the
//! one that counts, a new value replaces it in place, and a new key goes to the end.

use vstd::prelude::*;

verus! {

/// A value that entries are found by.
pub trait Key: Copy {
    /// Whether two keys are the same.
    fn same(self, other: Self) -> (r: bool)
        ensures
            r == (self == other),
    ;
}

/// The place of the first entry with this key.
pub open spec fn place_of<K, V>(list: Seq<(K, V)>, key: K) -> Option<int>
    decreases list.len(),
{
    if list.len() == 0 {
        None
    } else {
        match place_of(list.drop_last(), key) {
            Some(place) => Some(place),
            None => if list.last().0 == key {
                Some(list.len() - 1)
            } else {
                None
            },
        }
    }
}

/// The value of the first entry with this key.
pub open spec fn lookup<K, V>(list: Seq<(K, V)>, key: K) -> Option<V> {
    match place_of(list, key) {
        Some(place) => Some(list[place].1),
        None => None,
    }
}

/// The list with a new value for this key: in the place of the old one, or at the end.
pub open spec fn stored<K, V>(list: Seq<(K, V)>, key: K, value: V) -> Seq<(K, V)> {
    match place_of(list, key) {
        Some(place) => list.update(place, (key, value)),
        None => list.push((key, value)),
    }
}

/// No key occurs twice.
pub open spec fn distinct_keys<K, V>(list: Seq<(K, V)>) -> bool {
    forall|i: int, j: int| 0 <= i < j < list.len() ==> (#[trigger] list[i]).0 != (
    #[trigger] list[j]).0
}

/// The list with each value passed through `f`.
pub open spec fn mapped<K, V, W>(list: Seq<(K, V)>, f: spec_fn(V) -> W) -> Seq<(K, W)> {
    list.map_values(|entry: (K, V)| (entry.0, f(entry.1)))
}

/// The place of a key is the first index that has it, if any has.
pub proof fn lemma_place<K, V>(list: Seq<(K, V)>, key: K)
    ensures
        match place_of(list, key) {
            Some(place) => 0 <= place < list.len() && list[place].0 == key && forall|i: int|
                0 <= i < place ==> (#[trigger] list[i]).0 != key,
            None => forall|i: int| 0 <= i < list.len() ==> (#[trigger] list[i]).0 != key,
        },
    decreases list.len(),
{
    if list.len() > 0 {
        let rest = list.drop_last();
        lemma_place(rest, key);
        assert forall|i: int| 0 <= i < rest.len() implies rest[i] == list[i] by {}
        match place_of(rest, key) {
            Some(place) => {
                assert forall|i: int| 0 <= i < place implies (#[trigger] list[i]).0 != key by {
                    assert(rest[i].0 != key);
                }
            },
            None => {
                assert forall|i: int| 0 <= i < list.len() - 1 implies (#[trigger] list[i]).0
                    != key by {
                    assert(rest[i].0 != key);
                }
            },
        }
    }
}

/// An index that has the key, and none before it has, is the place of the key.
pub proof fn lemma_place_is<K, V>(list: Seq<(K, V)>, key: K, place: int)
    requires
        0 <= place < list.len(),
        list[place].0 == key,
        forall|i: int| 0 <= i < place ==> (#[trigger] list[i]).0 != key,
    ensures
        place_of(list, key) == Some(place),
{
    lemma_place(list, key);
    match place_of(list, key) {
        Some(found) => {
            if found < place {
                assert(list[found].0 != key);
            }
            if place < found {
                assert(list[place].0 != key);
            }
        },
        None => {
            assert(list[place].0 != key);
        },
    }
}

/// A key that no index has, has no place.
pub proof fn lemma_no_place<K, V>(list: Seq<(K, V)>, key: K)
    requires
        forall|i: int| 0 <= i < list.len() ==> (#[trigger] list[i]).0 != key,
    ensures
        place_of(list, key) is None,
{
    lemma_place(list, key);
}

/// What was stored under a key is found under it, and every other key is found as before.
pub proof fn law_lookup_after_store<K, V>(list: Seq<(K, V)>, key: K, value: V, other: K)
    ensures
        lookup(stored(list, key, value), other) == if other == key {
            Some(value)
        } else {
            lookup(list, other)
        },
{
    let after = stored(list, key, value);
    lemma_place(list, key);
    lemma_place(list, other);
    match place_of(list, key) {
        Some(place) => {
            assert forall|i: int| 0 <= i < list.len() implies (#[trigger] after[i]).0
                == list[i].0 by {}
            match place_of(list, other) {
                Some(found) => {
                    lemma_place_is(after, other, found);
                },
                None => {
                    lemma_no_place(after, other);
                },
            }
        },
        None => {
            assert forall|i: int| 0 <= i < list.len() implies (#[trigger] after[i])
                == list[i] by {}
            match place_of(list, other) {
                Some(found) => {
                    lemma_place_is(after, other, found);
                },
                None => {
                    if other == key {
                        lemma_place_is(after, other, list.len() as int);
                    } else {
                        lemma_no_place(after, other);
                    }
                },
            }
        },
    }
}

/// Storing keeps the keys distinct.
pub proof fn law_store_keeps_keys_distinct<K, V>(list: Seq<(K, V)>, key: K, value: V)
    requires
        distinct_keys(list),
    ensures
        distinct_keys(stored(list, key, value)),
{
    lemma_place(list, key);
    let after = stored(list, key, value);
    assert forall|i: int, j: int| 0 <= i < j < after.len() implies (#[trigger] after[i]).0 != (
    #[trigger] after[j]).0 by {
        if j < list.len() {
            assert(list[i].0 != list[j].0);
        } else {
            assert(list[i].0 != key);
        }
    }
}

/// The list once entries are taken in, one after the other: each that `read` finds a key and a
/// value in gives the key that value.
pub open spec fn taken_in<E, K, V>(
    list: Seq<(K, V)>,
    entries: Seq<E>,
    read: spec_fn(E) -> Option<(K, V)>,
) -> Seq<(K, V)>
    decreases entries.len(),
{
    if entries.len() == 0 {
        list
    } else {
        let before = taken_in(list, entries.drop_last(), read);
        match read(entries.last()) {
            Some((key, value)) => stored(before, key, value),
            None => before,
        }
    }
}

/// The value that the last of the entries gives a key.
pub open spec fn latest<E, K, V>(
    entries: Seq<E>,
    read: spec_fn(E) -> Option<(K, V)>,
    key: K,
) -> Option<V>
    decreases entries.len(),
{
    if entries.len() == 0 {
        None
    } else {
        match read(entries.last()) {
            Some((found, value)) if found == key => Some(value),
            _ => latest(entries.drop_last(), read, key),
        }
    }
}

/// After entries are taken in, a key has the last value that they give it, or else the value it
/// had.
pub proof fn law_lookup_after_taking_in<E, K, V>(
    list: Seq<(K, V)>,
    entries: Seq<E>,
    read: spec_fn(E) -> Option<(K, V)>,
    key: K,
)
    ensures
        lookup(taken_in(list, entries, read), key) == match latest(entries, read, key) {
            Some(value) => Some(value),
            None => lookup(list, key),
        },
    decreases entries.len(),
{
    if entries.len() > 0 {
        let rest = entries.drop_last();
        law_lookup_after_taking_in(list, rest, read, key);
        if let Some((found, value)) = read(entries.last()) {
            law_lookup_after_store(taken_in(list, rest, read), found, value, key);
        }
    }
}

/// The last entry that names a key decides what is found under it, whatever was found before.
pub proof fn law_the_last_entry_counts<E, K, V>(
    list: Seq<(K, V)>,
    entries: Seq<E>,
    read: spec_fn(E) -> Option<(K, V)>,
    at: int,
    key: K,
    value: V,
)
    requires
        0 <= at < entries.len(),
        read(entries[at]) == Some((key, value)),
        forall|j: int|
            at < j < entries.len() ==> !(read(#[trigger] entries[j]) matches Some((other, _))
                && other == key),
    ensures
        lookup(taken_in(list, entries, read), key) == Some(value),
    decreases entries.len(),
{
    let rest = entries.drop_last();
    if at == entries.len() - 1 {
        law_lookup_after_store(taken_in(list, rest, read), key, value, key);
    } else {
        assert forall|j: int| at < j < rest.len() implies !(read(#[trigger] rest[j]) matches Some(
            (other, _),
        ) && other == key) by {
            assert(rest[j] == entries[j]);
        }
        law_the_last_entry_counts(list, rest, read, at, key, value);
        let last = entries[entries.len() - 1];
        if let Some((other, named)) = read(last) {
            law_lookup_after_store(taken_in(list, rest, read), other, named, key);
        }
    }
}

/// Entries that do not name a key leave what is found under it.
pub proof fn law_unnamed_keys_stay<E, K, V>(
    list: Seq<(K, V)>,
    entries: Seq<E>,
    read: spec_fn(E) -> Option<(K, V)>,
    key: K,
)
    requires
        forall|j: int|
            0 <= j < entries.len() ==> !(read(#[trigger] entries[j]) matches Some((other, _))
                && other == key),
    ensures
        lookup(taken_in(list, entries, read), key) == lookup(list, key),
    decreases entries.len(),
{
    if entries.len() > 0 {
        let rest = entries.drop_last();
        assert forall|j: int| 0 <= j < rest.len() implies !(read(#[trigger] rest[j]) matches Some(
            (other, _),
        ) && other == key) by {
            assert(rest[j] == entries[j]);
        }
        law_unnamed_keys_stay(list, rest, read, key);
        let last = entries[entries.len() - 1];
        if let Some((other, named)) = read(last) {
            law_lookup_after_store(taken_in(list, rest, read), other, named, key);
        }
    }
}

/// Whether two lists have the same keys in the same places.
pub open spec fn same_keys<K, V>(a: Seq<(K, V)>, b: Seq<(K, V)>) -> bool {
    a.len() == b.len() && forall|i: int| 0 <= i < a.len() ==> (#[trigger] a[i]).0 == b[i].0
}

proof fn lemma_same_keys<K, V>(a: Seq<(K, V)>, b: Seq<(K, V)>, key: K)
    requires
        same_keys(a, b),
    ensures
        place_of(a, key) == place_of(b, key),
{
    lemma_place(a, key);
    lemma_place(b, key);
    match place_of(a, key) {
        Some(place) => {
            assert forall|i: int| 0 <= i < place implies (#[trigger] b[i]).0 != key by {
                assert(a[i].0 != key);
            }
            lemma_place_is(b, key, place);
        },
        None => {
            assert forall|i: int| 0 <= i < b.len() implies (#[trigger] b[i]).0 != key by {
                assert(a[i].0 != key);
            }
            lemma_no_place(b, key);
        },
    }
}

/// Entries whose keys are all in a list change its values in place.
proof fn lemma_taken_in_place<E, K, V>(
    list: Seq<(K, V)>,
    entries: Seq<E>,
    read: spec_fn(E) -> Option<(K, V)>,
)
    requires
        forall|j: int|
            0 <= j < entries.len() ==> (read(#[trigger] entries[j]) matches Some((key, _))
                ==> place_of(list, key) is Some),
    ensures
        ({
            let after = taken_in(list, entries, read);
            &&& same_keys(after, list)
            &&& forall|i: int|
                0 <= i < list.len() ==> (#[trigger] after[i]).1 == if place_of(list, list[i].0)
                    == Some(i) && latest(entries, read, list[i].0) is Some {
                    latest(entries, read, list[i].0)->0
                } else {
                    list[i].1
                }
        }),
    decreases entries.len(),
{
    if entries.len() > 0 {
        let rest = entries.drop_last();
        assert forall|j: int| 0 <= j < rest.len() implies (read(#[trigger] rest[j]) matches Some(
            (key, _),
        ) ==> place_of(list, key) is Some) by {
            assert(rest[j] == entries[j]);
        }
        lemma_taken_in_place(list, rest, read);
        let before = taken_in(list, rest, read);
        if let Some((key, value)) = read(entries[entries.len() - 1]) {
            lemma_same_keys(before, list, key);
            lemma_place(list, key);
            let after = stored(before, key, value);
            let place = place_of(list, key)->0;
            assert forall|i: int| 0 <= i < list.len() implies (#[trigger] after[i]).0
                == list[i].0 && after[i].1 == if place_of(list, list[i].0) == Some(i) && latest(
                entries,
                read,
                list[i].0,
            ) is Some {
                latest(entries, read, list[i].0)->0
            } else {
                list[i].1
            } by {
                assert(before[i].0 == list[i].0);
                if i != place && list[i].0 == key {
                    assert(place_of(list, list[i].0) != Some(i));
                }
            }
        }
    }
}

proof fn lemma_latest_is_there<E, K, V>(
    entries: Seq<E>,
    read: spec_fn(E) -> Option<(K, V)>,
    index: int,
)
    requires
        0 <= index < entries.len(),
    ensures
        read(entries[index]) matches Some((key, _)) ==> latest(entries, read, key) is Some,
    decreases entries.len(),
{
    if index < entries.len() - 1 {
        assert(entries.drop_last()[index] == entries[index]);
        lemma_latest_is_there(entries.drop_last(), read, index);
    }
}

/// Taking in the same entries again changes nothing.
pub proof fn law_taking_in_again_changes_nothing<E, K, V>(
    list: Seq<(K, V)>,
    entries: Seq<E>,
    read: spec_fn(E) -> Option<(K, V)>,
)
    ensures
        taken_in(taken_in(list, entries, read), entries, read) == taken_in(list, entries, read),
{
    let once = taken_in(list, entries, read);
    assert forall|j: int| 0 <= j < entries.len() implies (read(#[trigger] entries[j]) matches Some(
        (key, _),
    ) ==> place_of(once, key) is Some) by {
        lemma_latest_is_there(entries, read, j);
        if let Some((key, _)) = read(entries[j]) {
            law_lookup_after_taking_in(list, entries, read, key);
        }
    }
    lemma_taken_in_place(once, entries, read);
    let twice = taken_in(once, entries, read);
    assert forall|i: int| 0 <= i < once.len() implies #[trigger] twice[i] == once[i] by {
        assert(twice[i].0 == once[i].0);
        law_lookup_after_taking_in(list, entries, read, once[i].0);
    }
    assert(twice =~= once);
}

/// Picks out the entries whose key is wanted.
pub open spec fn keyed<K, V>(wanted: spec_fn(K) -> bool) -> spec_fn((K, V)) -> bool {
    |entry: (K, V)| wanted(entry.0)
}

/// Storing and dropping unwanted keys commute.
pub proof fn lemma_filtered_store<K, V>(
    list: Seq<(K, V)>,
    wanted: spec_fn(K) -> bool,
    key: K,
    value: V,
)
    ensures
        stored(list, key, value).filter(keyed(wanted)) == if wanted(key) {
            stored(list.filter(keyed(wanted)), key, value)
        } else {
            list.filter(keyed(wanted))
        },
    decreases list.len(),
{
    reveal(Seq::filter);
    let kept = keyed::<K, V>(wanted);
    let after = stored(list, key, value);
    if list.len() == 0 {
        assert(after.drop_last() =~= list);
        assert(list.filter(kept) =~= list);
        assert(after.filter(kept) =~= if wanted(key) {
            stored(list.filter(kept), key, value)
        } else {
            list.filter(kept)
        });
    } else {
        let rest = list.drop_last();
        let last = list.last();
        lemma_filtered_store(rest, wanted, key, value);
        lemma_place(list, key);
        lemma_place(rest, key);
        lemma_filtered_place(rest, wanted, key);
        lemma_filtered_place(list, wanted, key);
        match place_of(rest, key) {
            Some(place) => {
                assert(after.drop_last() =~= stored(rest, key, value));
                assert(after.last() == last);
                if wanted(key) {
                    lemma_place(rest.filter(kept), key);
                    lemma_place(list.filter(kept), key);
                    if wanted(last.0) {
                        let filtered = rest.filter(kept);
                        let place = place_of(filtered, key)->0;
                        assert(list.filter(kept) == filtered.push(last));
                        assert forall|i: int| 0 <= i < place implies (
                        #[trigger] filtered.push(last)[i]).0 != key by {
                            assert(filtered[i].0 != key);
                        }
                        lemma_place_is(filtered.push(last), key, place);
                        assert(stored(filtered.push(last), key, value) =~= stored(
                            filtered,
                            key,
                            value,
                        ).push(last));
                    }
                }
            },
            None => {
                if last.0 == key {
                    assert(after =~= rest.push((key, value)));
                    assert(after.drop_last() =~= rest);
                    if wanted(key) {
                        let filtered = rest.filter(kept);
                        assert(list.filter(kept) == filtered.push(last));
                        lemma_place(filtered, key);
                        assert forall|i: int| 0 <= i < filtered.len() implies (
                        #[trigger] filtered.push(last)[i]).0 != key by {
                            assert(filtered[i].0 != key);
                        }
                        lemma_place_is(filtered.push(last), key, filtered.len() as int);
                        assert(stored(filtered.push(last), key, value) =~= filtered.push(
                            (key, value),
                        ));
                    }
                } else {
                    assert(after =~= list.push((key, value)));
                    assert(after.drop_last() =~= list);
                }
            },
        }
    }
}

/// A wanted key is there after unwanted ones are dropped, exactly if it was there before.
pub proof fn lemma_filtered_place<K, V>(list: Seq<(K, V)>, wanted: spec_fn(K) -> bool, key: K)
    ensures
        place_of(list.filter(keyed(wanted)), key) is Some <==> wanted(key) && place_of(
            list,
            key,
        ) is Some,
        wanted(key) ==> lookup(list.filter(keyed(wanted)), key) == lookup(list, key),
    decreases list.len(),
{
    reveal(Seq::filter);
    if list.len() > 0 {
        let rest = list.drop_last();
        lemma_filtered_place(rest, wanted, key);
        let filtered = rest.filter(keyed(wanted));
        if wanted(list.last().0) {
            assert(filtered.push(list.last()).drop_last() =~= filtered);
        }
        lemma_place(rest, key);
        lemma_place(filtered, key);
        lemma_place(list, key);
        lemma_place(list.filter(keyed(wanted)), key);
    }
}

/// Places do not depend on the values.
pub proof fn lemma_mapped_place<K, V, W>(list: Seq<(K, V)>, f: spec_fn(V) -> W, key: K)
    ensures
        place_of(mapped(list, f), key) == place_of(list, key),
{
    let image = mapped(list, f);
    lemma_place(list, key);
    assert forall|i: int| 0 <= i < list.len() implies (#[trigger] image[i]).0 == list[i].0 by {}
    match place_of(list, key) {
        Some(place) => {
            lemma_place_is(image, key, place);
        },
        None => {
            lemma_no_place(image, key);
        },
    }
}

/// Storing and mapping commute.
pub proof fn lemma_mapped_store<K, V, W>(
    list: Seq<(K, V)>,
    f: spec_fn(V) -> W,
    key: K,
    value: V,
)
    ensures
        mapped(stored(list, key, value), f) == stored(mapped(list, f), key, f(value)),
{
    lemma_mapped_place(list, f, key);
    lemma_place(list, key);
    assert(mapped(stored(list, key, value), f) =~= stored(mapped(list, f), key, f(value)));
}

/// Where the first entry with this key stands.
pub fn find<K: Key, V>(list: &Vec<(K, V)>, key: K) -> (r: Option<usize>)
    ensures
        match r {
            Some(place) => place_of(list@, key) == Some(place as int) && place < list@.len(),
            None => place_of(list@, key) is None,
        },
{
    let mut i: usize = 0;
    while i < list.len()
        invariant
            i <= list@.len(),
            forall|j: int| 0 <= j < i ==> (#[trigger] list@[j]).0 != key,
        decreases list@.len() - i,
    {
        if list[i].0.same(key) {
            proof {
                lemma_place_is(list@, key, i as int);
            }
            return Some(i);
        }
        i = i + 1;
    }
    proof {
        lemma_no_place(list@, key);
    }
    None
}

/// Gives a key a new value: in the place of the old one, or at the end.
pub fn store<K: Key, V>(list: &mut Vec<(K, V)>, key: K, value: V)
    ensures
        final(list)@ == stored(old(list)@, key, value),
{
    match find(list, key) {
        Some(place) => {
            list.set(place, (key, value));
        },
        None => {
            list.push((key, value));
        },
    }
}

/// The value of the first entry with this key.
pub fn get<K: Key, V: Copy>(list: &Vec<(K, V)>, key: K) -> (r: Option<V>)
    ensures
        r == lookup(list@, key),
{
    match find(list, key) {
        Some(place) => Some(list[place].1),
        None => None,
    }
}

/// The value of the first entry with this key, by reference.
pub fn get_ref<K: Key, V>(list: &Vec<(K, V)>, key: K) -> (r: Option<&V>)
    ensures
        match r {
            Some(value) => lookup(list@, key) == Some(*value),
            None => lookup(list@, key) is None,
        },
{
    match find(list, key) {
        Some(place) => Some(&list[place].1),
        None => None,
    }
}

/// Whether a list has this element.
pub fn holds<K: Key>(list: &Vec<K>, element: K) -> (r: bool)
    ensures
        r == list@.contains(element),
{
    let mut i: usize = 0;
    while i < list.len()
        invariant
            i <= list@.len(),
            forall|j: int| 0 <= j < i ==> list@[j] != element,
        decreases list@.len() - i,
    {
        if list[i].same(element) {
            assert(list@[i as int] == element);
            return true;
        }
        i = i + 1;
    }
    false
}

} // verus!
