//! A dense sequence whose observers are renumbered when an item is removed.

use vstd::prelude::*;
use vstd::std_specs::iter::IteratorSpec;
use crate::error::IndexError;
use crate::position::Position;
use crate::resource::{lemma_renumbered_position, renumbered, renumbered_all, ActiveResource};

verus! {

/// `std::slice::IterMut`, the mutable iterator over a slice. Nothing is
/// known of what is inside one; what it will hand out is spoken of as the
/// `remaining` items of any iterator.
#[verifier::external_type_specification]
#[verifier::external_body]
#[verifier::reject_recursive_types(T)]
pub struct ExIterMut<'a, T: 'a>(std::slice::IterMut<'a, T>);

/// `iter_mut` of a slice, called on a vector: the mutable iterator over its
/// items. Believed of it: the iterator hands out one mutable reference to
/// each item, from the first item to the last, and then ends for good; each
/// reference starts out with the item as it was; and once the iterator and
/// the references are gone, the vector is as long as before and holds in each
/// place what was left behind the reference to it.
#[verifier::external_body]
fn vec_iter_mut<'a, T>(items: &'a mut Vec<T>) -> (iter: std::slice::IterMut<'a, T>)
    ensures
        iter.obeys_prophetic_iter_laws(),
        iter.remaining().len() == old(items)@.len(),
        forall|i: int| 0 <= i < old(items)@.len() ==> *(#[trigger] iter.remaining()[i]) == old(items)@[i],
        final(items)@.len() == old(items)@.len(),
        forall|i: int|
            0 <= i < old(items)@.len() ==> final(items)@[i] == *final(#[trigger] iter.remaining()[i]),
{
    items.iter_mut()
}

/// A zero-based sequence of items without gaps.
///
/// Whoever embeds the sequence keeps its own observers: handles that carry a
/// [`Position`] into it. Removing an item hands the observers to
/// [`PositionTrackedSequence::remove`], which renumbers them so that each
/// keeps naming the item it named before.
pub struct PositionTrackedSequence<T> {
    items: Vec<T>,
}

impl<T> View for PositionTrackedSequence<T> {
    type V = Seq<T>;

    closed spec fn view(&self) -> Seq<T> {
        self.items@
    }
}

impl<T> PositionTrackedSequence<T> {
    /// The length of a sequence fits a machine word.
    pub proof fn lemma_len_fits(&self)
        ensures
            self@.len() <= usize::MAX,
    {
        assert(self.items@.len() == self.items.len());
    }

    /// An empty sequence.
    pub fn new() -> (sequence: Self)
        ensures
            sequence@ == Seq::<T>::empty(),
    {
        PositionTrackedSequence { items: Vec::new() }
    }

    /// The number of items.
    pub fn len(&self) -> (len: usize)
        ensures
            len == self@.len(),
    {
        self.items.len()
    }

    /// Whether the sequence holds no item.
    pub fn is_empty(&self) -> (empty: bool)
        ensures
            empty <==> self@.len() == 0,
    {
        self.items.is_empty()
    }

    /// Appends `value` to the end. No position is affected.
    pub fn push(&mut self, value: T)
        ensures
            final(self)@ == old(self)@.push(value),
    {
        self.items.push(value);
    }

    /// Moves all items of `values` to the end, in order, leaving `values`
    /// empty. No position is affected.
    pub fn append(&mut self, values: &mut Vec<T>)
        ensures
            final(self)@ == old(self)@ + old(values)@,
            final(values)@ == Seq::<T>::empty(),
    {
        self.items.append(values);
    }

    /// The item at a position that is known to be in range.
    pub(crate) fn at(&self, position: Position) -> (item: &T)
        requires
            position.0 < self@.len(),
        ensures
            *item == self@[position.0 as int],
    {
        &self.items[position.0]
    }

    /// The item at `position`.
    pub fn get(&self, position: Position) -> (found: Result<&T, IndexError>)
        ensures
            found == if position.0 < self@.len() {
                Ok::<&T, IndexError>(&self@[position.0 as int])
            } else {
                Err::<&T, IndexError>(IndexError { index: position.0, len: self@.len() as usize })
            },
    {
        if position.0 < self.items.len() {
            Ok(self.at(position))
        } else {
            Err(IndexError { index: position.0, len: self.items.len() })
        }
    }

    /// The item at a position that is known to be in range, for writing.
    pub(crate) fn at_mut(&mut self, position: Position) -> (item: &mut T)
        requires
            position.0 < old(self)@.len(),
        ensures
            *item == old(self)@[position.0 as int],
            final(self)@ == old(self)@.update(position.0 as int, *final(item)),
    {
        &mut self.items[position.0]
    }

    /// The item at `position`, for writing. The sequence ends up with
    /// whatever the caller leaves in the item, at the same position.
    pub fn get_mut(&mut self, position: Position) -> (found: Result<&mut T, IndexError>)
        ensures
            match found {
                Ok(item) => {
                    &&& position.0 < old(self)@.len()
                    &&& *item == old(self)@[position.0 as int]
                    &&& final(self)@ == old(self)@.update(position.0 as int, *final(item))
                },
                Err(error) => {
                    &&& position.0 >= old(self)@.len()
                    &&& error == (IndexError { index: position.0, len: old(self)@.len() as usize })
                    &&& final(self)@ == old(self)@
                },
            },
    {
        if position.0 < self.items.len() {
            Ok(self.at_mut(position))
        } else {
            Err(IndexError { index: position.0, len: self.items.len() })
        }
    }

    /// Replaces the item at `position` by `value`.
    pub fn set(&mut self, position: Position, value: T) -> (done: Result<(), IndexError>)
        ensures
            match done {
                Ok(_) => {
                    &&& position.0 < old(self)@.len()
                    &&& final(self)@ == old(self)@.update(position.0 as int, value)
                },
                Err(error) => {
                    &&& position.0 >= old(self)@.len()
                    &&& error == (IndexError { index: position.0, len: old(self)@.len() as usize })
                    &&& final(self)@ == old(self)@
                },
            },
    {
        if position.0 < self.items.len() {
            *self.at_mut(position) = value;
            Ok(())
        } else {
            Err(IndexError { index: position.0, len: self.items.len() })
        }
    }

    /// Removes and returns the item at `position` and renumbers `observers`:
    /// every observer behind the removed item moves down by one, every other
    /// observer is left as it is. An observer at `position` itself is stale
    /// afterwards.
    ///
    /// Nothing changes if `position` is out of range.
    pub fn remove<A: ActiveResource>(&mut self, position: Position, observers: &mut Vec<A>) -> (removed:
        Result<T, IndexError>)
        ensures
            match removed {
                Ok(item) => {
                    &&& position.0 < old(self)@.len()
                    &&& item == old(self)@[position.0 as int]
                    &&& final(self)@ == old(self)@.remove(position.0 as int)
                    &&& final(observers)@ == renumbered_all(old(observers)@, position)
                },
                Err(error) => {
                    &&& position.0 >= old(self)@.len()
                    &&& error == (IndexError { index: position.0, len: old(self)@.len() as usize })
                    &&& final(self)@ == old(self)@
                    &&& final(observers)@ == old(observers)@
                },
            },
            final(observers)@.len() == old(observers)@.len(),
            removed is Ok ==> forall|s: int|
                0 <= s < old(observers)@.len() ==> (#[trigger] final(observers)@[s]).spec_position()
                    == old(observers)@[s].spec_position().spec_after_removal(position),
    {
        if position.0 >= self.items.len() {
            return Err(IndexError { index: position.0, len: self.items.len() });
        }
        let mut s: usize = 0;
        while s < observers.len()
            invariant
                s <= observers@.len(),
                observers@.len() == old(observers)@.len(),
                forall|t: int|
                    0 <= t < s ==> #[trigger] observers@[t] == renumbered(old(observers)@[t], position),
                forall|t: int| s <= t < observers@.len() ==> #[trigger] observers@[t] == old(observers)@[t],
            decreases observers@.len() - s,
        {
            let observed: Position = *observers[s].position();
            if observed.0 > position.0 {
                observers[s].set_position(observed.after_removal(position));
            }
            s = s + 1;
        }
        proof {
            assert(observers@ =~= renumbered_all(old(observers)@, position));
            assert forall|t: int| 0 <= t < old(observers)@.len() implies (#[trigger] observers@[t]).spec_position()
                == old(observers)@[t].spec_position().spec_after_removal(position) by {
                lemma_renumbered_position(old(observers)@[t], position);
            }
        }
        Ok(self.items.remove(position.0))
    }

    /// Removes every item and every observer.
    pub fn clear<A: ActiveResource>(&mut self, observers: &mut Vec<A>)
        ensures
            final(self)@ == Seq::<T>::empty(),
            final(observers)@ == Seq::<A>::empty(),
    {
        self.items.clear();
        observers.clear();
    }

    /// The items in order, by reference.
    pub fn iter(&self) -> (iter: std::slice::Iter<'_, T>)
        ensures
            vstd::std_specs::slice::into_iter_elts(iter) == self@,
    {
        self.items.iter()
    }

    /// The items in order, for writing: the iterator hands out a mutable
    /// reference to each item, from the first to the last. The sequence
    /// keeps its length, and each item ends up as the caller leaves it behind
    /// its reference.
    pub fn iter_mut(&mut self) -> (iter: std::slice::IterMut<'_, T>)
        ensures
            iter.obeys_prophetic_iter_laws(),
            iter.remaining().len() == old(self)@.len(),
            forall|i: int| 0 <= i < old(self)@.len() ==> *(#[trigger] iter.remaining()[i]) == old(self)@[i],
            final(self)@.len() == old(self)@.len(),
            forall|i: int|
                0 <= i < old(self)@.len() ==> final(self)@[i] == *final(#[trigger] iter.remaining()[i]),
    {
        vec_iter_mut(&mut self.items)
    }
}

} // verus!
