//! Searching sequences.

use vstd::prelude::*;

verus! {

/// The index of the first element that `wanted` holds of.
pub open spec fn first_index<T>(list: Seq<T>, wanted: spec_fn(T) -> bool) -> Option<int>
    decreases list.len(),
{
    if list.len() == 0 {
        None
    } else {
        match first_index(list.drop_last(), wanted) {
            Some(index) => Some(index),
            None => if wanted(list.last()) {
                Some(list.len() - 1)
            } else {
                None
            },
        }
    }
}

/// The first element that `wanted` holds of.
pub open spec fn first<T>(list: Seq<T>, wanted: spec_fn(T) -> bool) -> Option<T> {
    match first_index(list, wanted) {
        Some(index) => Some(list[index]),
        None => None,
    }
}

/// What [`first_index`] finds: an element that is wanted, and none before it is.
pub proof fn lemma_first_index<T>(list: Seq<T>, wanted: spec_fn(T) -> bool)
    ensures
        match first_index(list, wanted) {
            Some(index) => 0 <= index < list.len() && wanted(list[index]) && forall|i: int|
                0 <= i < index ==> !wanted(#[trigger] list[i]),
            None => forall|i: int| 0 <= i < list.len() ==> !wanted(#[trigger] list[i]),
        },
    decreases list.len(),
{
    if list.len() > 0 {
        let rest = list.drop_last();
        lemma_first_index(rest, wanted);
        assert forall|i: int| 0 <= i < rest.len() implies rest[i] == list[i] by {}
        match first_index(rest, wanted) {
            Some(index) => {
                assert forall|i: int| 0 <= i < index implies !wanted(#[trigger] list[i]) by {
                    assert(!wanted(rest[i]));
                }
            },
            None => {
                assert forall|i: int| 0 <= i < list.len() - 1 implies !wanted(
                    #[trigger] list[i],
                ) by {
                    assert(!wanted(rest[i]));
                }
            },
        }
    }
}

/// The first wanted element is the one that [`first_index`] finds.
pub proof fn lemma_first_index_is<T>(list: Seq<T>, wanted: spec_fn(T) -> bool, index: int)
    requires
        0 <= index < list.len(),
        wanted(list[index]),
        forall|i: int| 0 <= i < index ==> !wanted(#[trigger] list[i]),
    ensures
        first_index(list, wanted) == Some(index),
{
    lemma_first_index(list, wanted);
    match first_index(list, wanted) {
        Some(found) => {
            if found < index {
                assert(!wanted(list[found]));
            }
            if index < found {
                assert(!wanted(list[index]));
            }
        },
        None => {
            assert(!wanted(list[index]));
        },
    }
}

/// Where nothing is wanted, nothing is found.
pub proof fn lemma_no_first_index<T>(list: Seq<T>, wanted: spec_fn(T) -> bool)
    requires
        forall|i: int| 0 <= i < list.len() ==> !wanted(#[trigger] list[i]),
    ensures
        first_index(list, wanted) is None,
{
    lemma_first_index(list, wanted);
}

/// The elements up to and including index `i`, one by one.
pub proof fn lemma_take_next<T>(list: Seq<T>, i: int)
    requires
        0 <= i < list.len(),
    ensures
        list.take(i + 1).drop_last() == list.take(i),
        list.take(i + 1).last() == list[i],
        list.take(i + 1) == list.take(i).push(list[i]),
{
    assert(list.take(i + 1).drop_last() =~= list.take(i));
    assert(list.take(i + 1) =~= list.take(i).push(list[i]));
}

/// Searching a list and searching its image come to the same.
pub proof fn lemma_mapped_first_index<T, U>(
    list: Seq<T>,
    image: spec_fn(T) -> U,
    wanted: spec_fn(T) -> bool,
    wanted_image: spec_fn(U) -> bool,
)
    requires
        forall|i: int|
            0 <= i < list.len() ==> wanted(#[trigger] list[i]) == wanted_image(image(list[i])),
    ensures
        first_index(list.map_values(image), wanted_image) == first_index(list, wanted),
{
    let images = list.map_values(image);
    lemma_first_index(list, wanted);
    match first_index(list, wanted) {
        Some(index) => {
            assert forall|i: int| 0 <= i < index implies !wanted_image(#[trigger] images[i]) by {
                assert(!wanted(list[i]));
            }
            lemma_first_index_is(images, wanted_image, index);
        },
        None => {
            assert forall|i: int| 0 <= i < images.len() implies !wanted_image(
                #[trigger] images[i],
            ) by {
                assert(!wanted(list[i]));
            }
            lemma_no_first_index(images, wanted_image);
        },
    }
}

/// Filtering a list and filtering its image come to the same.
pub proof fn lemma_mapped_filter<T, U>(
    list: Seq<T>,
    image: spec_fn(T) -> U,
    wanted: spec_fn(T) -> bool,
    wanted_image: spec_fn(U) -> bool,
)
    requires
        forall|i: int|
            0 <= i < list.len() ==> wanted(#[trigger] list[i]) == wanted_image(image(list[i])),
    ensures
        list.filter(wanted).map_values(image) == list.map_values(image).filter(wanted_image),
    decreases list.len(),
{
    reveal(Seq::filter);
    if list.len() == 0 {
        assert(list.filter(wanted).map_values(image) =~= list.map_values(image).filter(
            wanted_image,
        ));
    } else {
        let rest = list.drop_last();
        assert forall|i: int| 0 <= i < rest.len() implies wanted(#[trigger] rest[i])
            == wanted_image(image(rest[i])) by {
            assert(rest[i] == list[i]);
        }
        lemma_mapped_filter(rest, image, wanted, wanted_image);
        assert(list.map_values(image).drop_last() =~= rest.map_values(image));
        assert(wanted(list[list.len() - 1]) == wanted_image(image(list[list.len() - 1])));
        let kept = rest.filter(wanted);
        assert(kept.push(list.last()).map_values(image) =~= kept.map_values(image).push(
            image(list.last()),
        ));
    }
}

/// What is left after filtering was wanted, and was there before.
pub proof fn lemma_filtered<T>(list: Seq<T>, wanted: spec_fn(T) -> bool)
    ensures
        forall|i: int|
            0 <= i < list.filter(wanted).len() ==> wanted(#[trigger] list.filter(wanted)[i])
                && list.contains(list.filter(wanted)[i]),
    decreases list.len(),
{
    reveal(Seq::filter);
    if list.len() > 0 {
        let rest = list.drop_last();
        lemma_filtered(rest, wanted);
        assert forall|i: int| 0 <= i < list.filter(wanted).len() implies wanted(
            #[trigger] list.filter(wanted)[i],
        ) && list.contains(list.filter(wanted)[i]) by {
            if i < rest.filter(wanted).len() {
                assert(list.filter(wanted)[i] == rest.filter(wanted)[i]);
                let k = choose|k: int| 0 <= k < rest.len() && rest[k] == rest.filter(wanted)[i];
                assert(list[k] == rest.filter(wanted)[i]);
            } else {
                assert(list[list.len() - 1] == list.last());
            }
        }
    }
}

/// Filtering out nothing leaves a list as it is.
pub proof fn lemma_filter_keeps_all<T>(list: Seq<T>, wanted: spec_fn(T) -> bool)
    requires
        forall|i: int| 0 <= i < list.len() ==> wanted(#[trigger] list[i]),
    ensures
        list.filter(wanted) == list,
    decreases list.len(),
{
    reveal(Seq::filter);
    if list.len() > 0 {
        let rest = list.drop_last();
        assert forall|i: int| 0 <= i < rest.len() implies wanted(#[trigger] rest[i]) by {
            assert(wanted(list[i]));
        }
        lemma_filter_keeps_all(rest, wanted);
        assert(wanted(list[list.len() - 1]));
        assert(list.filter(wanted) =~= list);
    } else {
        assert(list.filter(wanted) =~= list);
    }
}

/// The same list once more.
pub fn copy_list<T: Copy>(list: &Vec<T>) -> (r: Vec<T>)
    ensures
        r@ == list@,
{
    let mut copy: Vec<T> = Vec::new();
    let mut i: usize = 0;
    while i < list.len()
        invariant
            i <= list@.len(),
            copy@ == list@.take(i as int),
        decreases list@.len() - i,
    {
        proof {
            lemma_take_next(list@, i as int);
        }
        copy.push(list[i]);
        i = i + 1;
    }
    assert(list@.take(i as int) =~= list@);
    copy
}

/// Where the first wanted element stands.
pub fn position<T, F: Fn(&T) -> bool>(
    list: &Vec<T>,
    test: F,
    Ghost(wanted): Ghost<spec_fn(T) -> bool>,
) -> (r: Option<usize>)
    requires
        forall|i: int| 0 <= i < list@.len() ==> test.requires((&#[trigger] list@[i],)),
        forall|i: int, b: bool|
            0 <= i < list@.len() && test.ensures((&#[trigger] list@[i],), b) ==> b == wanted(
                list@[i],
            ),
    ensures
        match r {
            Some(index) => first_index(list@, wanted) == Some(index as int) && index < list@.len()
                && wanted(list@[index as int]),
            None => first_index(list@, wanted) is None,
        },
{
    let mut i: usize = 0;
    while i < list.len()
        invariant
            i <= list@.len(),
            forall|i: int| 0 <= i < list@.len() ==> test.requires((&#[trigger] list@[i],)),
            forall|i: int, b: bool|
                0 <= i < list@.len() && test.ensures((&#[trigger] list@[i],), b) ==> b == wanted(
                    list@[i],
                ),
            forall|j: int| 0 <= j < i ==> !wanted(#[trigger] list@[j]),
        decreases list@.len() - i,
    {
        if test(&list[i]) {
            proof {
                lemma_first_index_is(list@, wanted, i as int);
            }
            return Some(i);
        }
        i = i + 1;
    }
    proof {
        lemma_no_first_index(list@, wanted);
    }
    None
}

/// Whether a list has an element; `same` tells it from others.
pub fn includes<T, F: Fn(&T) -> bool>(
    list: &Vec<T>,
    same: F,
    Ghost(element): Ghost<T>,
) -> (r: bool)
    requires
        forall|i: int| 0 <= i < list@.len() ==> same.requires((&#[trigger] list@[i],)),
        forall|i: int, b: bool|
            0 <= i < list@.len() && same.ensures((&#[trigger] list@[i],), b) ==> b == (list@[i]
                == element),
    ensures
        r == list@.contains(element),
{
    let ghost wanted = |other: T| other == element;
    let found = position(list, same, Ghost(wanted));
    proof {
        lemma_first_index(list@, wanted);
        if let Some(index) = found {
            assert(list@[index as int] == element);
        } else if list@.contains(element) {
            let index = choose|index: int| 0 <= index < list@.len() && list@[index] == element;
            assert(!wanted(list@[index]));
        }
    }
    found.is_some()
}

/// Drops the elements that are not wanted.
pub fn retain<T, F: Fn(&T) -> bool>(
    list: &mut Vec<T>,
    test: F,
    Ghost(wanted): Ghost<spec_fn(T) -> bool>,
)
    requires
        forall|i: int| 0 <= i < old(list)@.len() ==> test.requires((&#[trigger] old(list)@[i],)),
        forall|i: int, b: bool|
            0 <= i < old(list)@.len() && test.ensures((&#[trigger] old(list)@[i],), b) ==> b
                == wanted(old(list)@[i]),
    ensures
        final(list)@ == old(list)@.filter(wanted),
{
    let ghost before = list@;
    let ghost mut done: int = 0;
    let mut i: usize = 0;
    proof {
        reveal(Seq::filter);
        assert(before.take(0) =~= Seq::empty());
        assert(list@ =~= before.take(0).filter(wanted) + before.skip(0));
    }
    while i < list.len()
        invariant
            0 <= done <= before.len(),
            i == before.take(done).filter(wanted).len(),
            list@ == before.take(done).filter(wanted) + before.skip(done),
            forall|i: int| 0 <= i < before.len() ==> test.requires((&#[trigger] before[i],)),
            forall|i: int, b: bool|
                0 <= i < before.len() && test.ensures((&#[trigger] before[i],), b) ==> b == wanted(
                    before[i],
                ),
        decreases before.len() - done,
    {
        proof {
            reveal(Seq::filter);
            assert(list@[i as int] == before[done]);
            lemma_take_next(before, done);
        }
        if test(&list[i]) {
            assert(list@ =~= before.take(done + 1).filter(wanted) + before.skip(done + 1));
            i = i + 1;
        } else {
            list.remove(i);
            assert(list@ =~= before.take(done + 1).filter(wanted) + before.skip(done + 1));
        }
        proof {
            done = done + 1;
        }
    }
    proof {
        assert(before.skip(done).len() == 0);
        assert(before.take(done) =~= before);
        assert(list@ =~= before.filter(wanted));
    }
}

} // verus!
