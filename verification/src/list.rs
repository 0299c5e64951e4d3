//! Small operations on lists.
use vstd::prelude::*;

#[allow(unused_imports)]
use vstd::string::StringSliceAdditionalSpecFns;

use crate::table::Key;

verus! {

/// The list without the item, the rest in order.
pub open spec fn without<T>(list: Seq<T>, item: T) -> Seq<T>
    decreases list.len(),
{
    if list.len() == 0 {
        list
    } else if list.last() == item {
        without(list.drop_last(), item)
    } else {
        without(list.drop_last(), item).push(list.last())
    }
}

/// Taking an item out leaves exactly the other items.
pub proof fn lemma_without_contains<T>(list: Seq<T>, item: T, other: T)
    ensures
        without(list, item).contains(other) <==> list.contains(other) && other != item,
    decreases list.len(),
{
    if list.len() > 0 {
        let rest = list.drop_last();
        lemma_without_contains(rest, item, other);
        assert(list =~= rest.push(list.last()));
        assert(list.contains(other) <==> rest.contains(other) || list.last() == other) by {
            if list.contains(other) && list.last() != other {
                let i = choose|i: int| 0 <= i < list.len() && list[i] == other;
                assert(rest[i] == other);
            }
            if rest.contains(other) {
                let i = choose|i: int| 0 <= i < rest.len() && rest[i] == other;
                assert(list[i] == other);
            }
            if list.last() == other {
                assert(list[list.len() - 1] == other);
            }
        }
        if list.last() != item {
            let kept = without(rest, item);
            let pushed = kept.push(list.last());
            assert(pushed.contains(other) <==> kept.contains(other) || list.last() == other) by {
                if kept.contains(other) {
                    let i = choose|i: int| 0 <= i < kept.len() && kept[i] == other;
                    assert(pushed[i] == other);
                }
                if list.last() == other {
                    assert(pushed[kept.len() as int] == other);
                }
            }
        }
    } else {
        assert(!list.contains(other));
    }
}

/// Taking out an item that is not there changes nothing.
pub proof fn lemma_without_absent<T>(list: Seq<T>, item: T)
    requires
        !list.contains(item),
    ensures
        without(list, item) == list,
    decreases list.len(),
{
    if list.len() > 0 {
        assert(list[list.len() - 1] != item);
        assert forall|i: int| 0 <= i < list.drop_last().len() implies list.drop_last()[i]
            != item by {
            assert(list[i] != item);
        }
        lemma_without_absent(list.drop_last(), item);
        assert(list.drop_last().push(list.last()) =~= list);
    }
}

/// A list keeps its items distinct, and does not grow, when one is taken out.
pub proof fn lemma_without_distinct<T>(list: Seq<T>, item: T)
    requires
        list.no_duplicates(),
    ensures
        without(list, item).no_duplicates(),
        without(list, item).len() <= list.len(),
        list.contains(item) ==> without(list, item).len() == list.len() - 1,
    decreases list.len(),
{
    if list.len() > 0 {
        let rest = list.drop_last();
        lemma_without_distinct(rest, item);
        if list.last() != item {
            let kept = without(rest, item);
            lemma_without_contains(rest, item, list.last());
            assert(!rest.contains(list.last())) by {
                if rest.contains(list.last()) {
                    let i = choose|i: int| 0 <= i < rest.len() && rest[i] == list.last();
                    assert(list[i] == list[list.len() - 1]);
                }
            }
            assert(!kept.contains(list.last()));
            if list.contains(item) {
                let i = choose|i: int| 0 <= i < list.len() && list[i] == item;
                assert(rest[i] == item);
            }
        } else {
            assert(!rest.contains(item)) by {
                if rest.contains(item) {
                    let i = choose|i: int| 0 <= i < rest.len() && rest[i] == item;
                    assert(list[i] == list[list.len() - 1]);
                }
            }
            lemma_without_absent(rest, item);
        }
    }
}

/// A list with a new item at its end holds that item besides what it held.
pub proof fn lemma_push_contains<T>(list: Seq<T>, item: T, other: T)
    ensures
        list.push(item).contains(other) <==> list.contains(other) || item == other,
{
    let pushed = list.push(item);
    if list.contains(other) {
        let i = choose|i: int| 0 <= i < list.len() && list[i] == other;
        assert(pushed[i] == other);
    }
    if item == other {
        assert(pushed[list.len() as int] == other);
    }
    if pushed.contains(other) && item != other {
        let i = choose|i: int| 0 <= i < pushed.len() && pushed[i] == other;
        assert(list[i] == other);
    }
}

/// Taking one item out of a list of distinct items leaves exactly the others,
/// and they stay distinct.
pub proof fn lemma_swap_removed<T>(list: Seq<T>, index: int)
    requires
        list.no_duplicates(),
        0 <= index < list.len(),
    ensures
        swap_removed(list, index).no_duplicates(),
        swap_removed(list, index).len() == list.len() - 1,
        forall|item: T| #[trigger]
            swap_removed(list, index).contains(item) <==> list.contains(item) && item
                != list[index],
{
    let rest = swap_removed(list, index);
    let last = list.len() - 1;
    assert forall|i: int, j: int|
        0 <= i < rest.len() && 0 <= j < rest.len() && i != j implies rest[i] != rest[j] by {
        let a = if i == index {
            last
        } else {
            i
        };
        let b = if j == index {
            last
        } else {
            j
        };
        assert(rest[i] == list[a] && rest[j] == list[b]);
        assert(a != b);
    }
    assert forall|item: T| #[trigger]
        rest.contains(item) <==> list.contains(item) && item != list[index] by {
        if rest.contains(item) {
            let i = choose|i: int| 0 <= i < rest.len() && rest[i] == item;
            if i == index {
                assert(list[last] == item);
            } else {
                assert(list[i] == item);
            }
        }
        if list.contains(item) && item != list[index] {
            let i = choose|i: int| 0 <= i < list.len() && list[i] == item;
            if i == last {
                assert(rest[index] == item);
            } else {
                assert(rest[i] == item);
            }
        }
    }
}

/// Where the list holds the item first.
pub fn list_position<T: Key>(list: &Vec<T>, item: &T) -> (found: Option<usize>)
    ensures
        match found {
            Some(i) => i < list@.len() && list@[i as int] == *item && list@.contains(*item),
            None => !list@.contains(*item),
        },
{
    let mut i: usize = 0;
    while i < list.len()
        invariant
            i <= list@.len(),
            forall|j: int| 0 <= j < i ==> list@[j] != *item,
        decreases list@.len() - i,
    {
        if list[i].same(item) {
            return Some(i);
        }
        i += 1;
    }
    None
}

/// Whether the list holds the item.
pub fn list_contains<T: Key>(list: &Vec<T>, item: &T) -> (found: bool)
    ensures
        found == list@.contains(*item),
{
    let mut i: usize = 0;
    while i < list.len()
        invariant
            i <= list@.len(),
            forall|j: int| 0 <= j < i ==> list@[j] != *item,
        decreases list@.len() - i,
    {
        if list[i].same(item) {
            return true;
        }
        i += 1;
    }
    false
}

/// The list without the item, the rest in order.
pub fn list_without<T: Key + Copy>(list: &Vec<T>, item: &T) -> (rest: Vec<T>)
    ensures
        rest@ == without(list@, *item),
{
    let mut rest: Vec<T> = Vec::new();
    let mut i: usize = 0;
    while i < list.len()
        invariant
            i <= list@.len(),
            rest@ == without(list@.take(i as int), *item),
        decreases list@.len() - i,
    {
        proof {
            assert(list@.take(i + 1).drop_last() =~= list@.take(i as int));
            assert(list@.take(i + 1).last() == list@[i as int]);
        }
        if !list[i].same(item) {
            rest.push(list[i]);
        }
        i += 1;
    }
    proof {
        assert(list@.take(i as int) =~= list@);
    }
    rest
}

/// Whether two byte strings are equal.
pub fn same_bytes(a: &Vec<u8>, b: &Vec<u8>) -> (equal: bool)
    ensures
        equal == (a@ == b@),
{
    if a.len() != b.len() {
        return false;
    }
    let mut i: usize = 0;
    while i < a.len()
        invariant
            i <= a@.len(),
            a@.len() == b@.len(),
            forall|j: int| 0 <= j < i ==> a@[j] == b@[j],
        decreases a@.len() - i,
    {
        if a[i] != b[i] {
            return false;
        }
        i += 1;
    }
    proof {
        assert(a@ =~= b@);
    }
    true
}

/// Appends a text.
pub fn append_text(data: &mut Vec<u8>, text: &str)
    ensures
        final(data)@ == old(data)@ + text.spec_bytes(),
{
    let bytes = text.as_bytes();
    let mut i: usize = 0;
    while i < bytes.len()
        invariant
            i <= bytes@.len(),
            bytes@ == text.spec_bytes(),
            data@ == old(data)@ + bytes@.take(i as int),
        decreases bytes@.len() - i,
    {
        proof {
            assert(bytes@.take(i + 1) =~= bytes@.take(i as int).push(bytes@[i as int]));
        }
        data.push(bytes[i]);
        i += 1;
        proof {
            assert(data@ =~= old(data)@ + bytes@.take(i as int));
        }
    }
    proof {
        assert(bytes@.take(i as int) =~= bytes@);
    }
}

/// A value that can be copied, as far as its model goes.
pub trait Duplicate: View + Sized {
    /// A value with the same model.
    fn duplicate(&self) -> (copy: Self)
        ensures
            copy@ == self@,
    ;
}

/// The list with the item at an index taken out, and the last item in its place.
pub open spec fn swap_removed<T>(list: Seq<T>, index: int) -> Seq<T> {
    list.update(index, list.last()).drop_last()
}

/// A list of values, modelled by the list of their views.
#[derive(Clone, Debug)]
pub struct List<T> {
    pub items: Vec<T>,
}

impl<T: View> View for List<T> {
    type V = Seq<T::V>;

    closed spec fn view(&self) -> Seq<T::V> {
        Seq::new(self.items@.len(), |i: int| self.items@[i]@)
    }
}

impl<T: View> List<T> {
    /// A list with nothing in it.
    pub fn new() -> (list: Self)
        ensures
            list@ == Seq::<T::V>::empty(),
    {
        let list = List { items: Vec::new() };
        proof {
            assert(list@ =~= Seq::<T::V>::empty());
        }
        list
    }

    /// The number of values.
    pub fn len(&self) -> (n: usize)
        ensures
            n == self@.len(),
    {
        self.items.len()
    }

    /// The value at an index.
    pub fn get(&self, index: usize) -> (item: &T)
        requires
            index < self@.len(),
        ensures
            item@ == self@[index as int],
    {
        &self.items[index]
    }

    /// Access to the value at an index.
    pub fn at_mut(&mut self, index: usize) -> (item: &mut T)
        requires
            index < old(self)@.len(),
        ensures
            item@ == old(self)@[index as int],
            final(self)@ == old(self)@.update(index as int, final(item)@),
    {
        proof {
            assert forall|v: T|
                (Seq::new(
                    self.items@.len(),
                    |i: int| (#[trigger] self.items@.update(index as int, v))[i]@,
                )) == self@.update(index as int, v@) by {
                assert(Seq::new(
                    self.items@.len(),
                    |i: int| self.items@.update(index as int, v)[i]@,
                ) =~= self@.update(index as int, v@));
            }
        }
        &mut self.items[index]
    }

    /// Appends a value.
    pub fn push(&mut self, item: T)
        ensures
            final(self)@ == old(self)@.push(item@),
    {
        self.items.push(item);
        proof {
            assert(self@ =~= old(self)@.push(item@));
        }
    }

    /// Takes the first value out.
    pub fn remove_first(&mut self)
        requires
            old(self)@.len() > 0,
        ensures
            final(self)@ == old(self)@.drop_first(),
    {
        self.items.remove(0);
        proof {
            assert(self@ =~= old(self)@.drop_first());
        }
    }

    /// Takes the value at an index out, and puts the last value in its place.
    pub fn swap_remove(&mut self, index: usize)
        requires
            index < old(self)@.len(),
        ensures
            final(self)@ == swap_removed(old(self)@, index as int),
    {
        self.items.swap_remove(index);
        proof {
            assert(self@ =~= swap_removed(old(self)@, index as int));
        }
    }
}

impl<T: Duplicate> Duplicate for List<T> {
    fn duplicate(&self) -> (copy: Self) {
        let mut copy: List<T> = List::new();
        let mut i: usize = 0;
        while i < self.len()
            invariant
                i <= self@.len(),
                copy@ == self@.take(i as int),
            decreases self@.len() - i,
        {
            copy.push(self.get(i).duplicate());
            i += 1;
            proof {
                assert(self@.take(i as int) =~= self@.take(i - 1).push(self@[i - 1]));
            }
        }
        proof {
            assert(self@.take(i as int) =~= self@);
        }
        copy
    }
}

/// A list without an item is the list with every occurrence left out, and the others in
/// their order.
pub proof fn law_without<T>(list: Seq<T>, item: T, last: T)
    ensures
        without(Seq::<T>::empty(), item).len() == 0,
        without(list.push(item), item) == without(list, item),
        last != item ==> without(list.push(last), item) == without(list, item).push(last),
{
    assert(list.push(item).drop_last() =~= list);
    assert(list.push(last).drop_last() =~= list);
}

/// Taking an item out moves the last one to its place, and shortens the list by one.
pub proof fn law_swap_removed<T>(list: Seq<T>, index: int)
    requires
        0 <= index < list.len(),
    ensures
        swap_removed(list, index).len() == list.len() - 1,
        forall|i: int|
            0 <= i < list.len() - 1 && i != index ==> #[trigger] swap_removed(list, index)[i]
                == list[i],
        index < list.len() - 1 ==> swap_removed(list, index)[index] == list.last(),
{
}

} // verus!
