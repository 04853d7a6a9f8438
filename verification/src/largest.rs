//! The largest item of a list.

use vstd::prelude::*;
use vstd::std_specs::cmp::PartialOrdIs;
use vstd::std_specs::cmp::PartialOrdSpec;

verus! {

/// Whether `a` is greater than `b` in the order of `T`.
pub open spec fn exceeds<T: PartialOrd>(a: T, b: T) -> bool {
    a.is_gt(&b)
}

/// Whether the comparison operators of `T` compute what the order of `T` says.
pub open spec fn order_is_specified<T: PartialOrd>() -> bool {
    T::obeys_partial_cmp_spec()
}

/// The largest item of a list that is not empty: the first item, unless a
/// later one is greater than the largest before it.
pub open spec fn largest_of<T: PartialOrd>(list: Seq<T>) -> T
    recommends
        list.len() > 0,
    decreases list.len(),
{
    if list.len() <= 1 {
        list[0]
    } else {
        let before = largest_of(list.drop_last());
        if exceeds(list.last(), before) {
            list.last()
        } else {
            before
        }
    }
}

/// The largest item is one of the items.
pub proof fn lemma_largest_is_an_item<T: PartialOrd>(list: Seq<T>)
    requires
        list.len() > 0,
    ensures
        list.contains(largest_of(list)),
    decreases list.len(),
{
    if list.len() <= 1 {
        assert(list[0] == largest_of(list));
    } else {
        let shorter = list.drop_last();
        lemma_largest_is_an_item(shorter);
        let i = choose|i: int| 0 <= i < shorter.len() && shorter[i] == largest_of(shorter);
        assert(list[i] == shorter[i]);
        assert(list[list.len() - 1] == list.last());
    }
}

/// Where being greater is transitive and nothing is greater than itself, no
/// item of the list is greater than the largest.
pub proof fn lemma_nothing_exceeds_largest<T: PartialOrd>(list: Seq<T>, i: int)
    requires
        0 <= i < list.len(),
        forall|a: T| !exceeds(a, a),
        forall|a: T, b: T, c: T| exceeds(a, b) && exceeds(b, c) ==> exceeds(a, c),
    ensures
        !exceeds(list[i], largest_of(list)),
    decreases list.len(),
{
    if list.len() > 1 {
        let shorter = list.drop_last();
        if i < shorter.len() {
            lemma_nothing_exceeds_largest(shorter, i);
            assert(shorter[i] == list[i]);
        }
    }
}

/// The largest item of the list, by value. The list must not be empty.
pub fn largest<T: PartialOrd + Copy>(list: &[T]) -> (max: T)
    requires
        list.len() > 0,
    ensures
        list@.contains(max),
        order_is_specified::<T>() ==> max == largest_of(list@),
{
    let mut best: T = list[0];
    let ghost mut place: int = 0;
    let ghost mut seen: int = 1;
    let mut i: usize = 1;
    while i < list.len()
        invariant
            1 <= i <= list.len(),
            seen == i,
            0 <= place < list.len(),
            best == list[place],
            order_is_specified::<T>() ==> best == largest_of(list@.take(seen)),
        decreases list.len() - i,
    {
        let item: T = list[i];
        proof {
            assert(list@.take(seen + 1).drop_last() =~= list@.take(seen));
        }
        if item > best {
            best = item;
            proof {
                place = seen;
            }
        }
        i += 1;
        proof {
            seen = seen + 1;
        }
    }
    proof {
        assert(list@.take(seen) =~= list@);
    }
    best
}

/// The largest item of the list, by reference. The list must not be empty.
pub fn largest_ref<T: PartialOrd>(list: &[T]) -> (max: &T)
    requires
        list.len() > 0,
    ensures
        list@.contains(*max),
        order_is_specified::<T>() ==> *max == largest_of(list@),
{
    let mut best: &T = &list[0];
    let ghost mut place: int = 0;
    let ghost mut seen: int = 1;
    let mut i: usize = 1;
    while i < list.len()
        invariant
            1 <= i <= list.len(),
            seen == i,
            0 <= place < list.len(),
            *best == list[place],
            order_is_specified::<T>() ==> *best == largest_of(list@.take(seen)),
        decreases list.len() - i,
    {
        let item: &T = &list[i];
        proof {
            assert(list@.take(seen + 1).drop_last() =~= list@.take(seen));
        }
        if *item > *best {
            best = item;
            proof {
                place = seen;
            }
        }
        i += 1;
        proof {
            seen = seen + 1;
        }
    }
    proof {
        assert(list@.take(seen) =~= list@);
    }
    best
}

} // verus!
