//! The round-robin pool: inactive resources, the handles activated from
//! them, and the cursor that walks the inactive resources in a circle.

use vstd::prelude::*;
use vstd::std_specs::iter::IteratorSpec;
use crate::error::{IndexError, SlotError};
use crate::position::Position;
use crate::resource::ActiveResource;
use crate::sequence::PositionTrackedSequence;
use crate::view::PoolView;

verus! {

/// A pool of inactive resources of which some are activated into slots.
///
/// The pool owns the inactive resources, the active handles and the cursor.
/// A handle carries the position of the resource it was made from, and the
/// pool updates that position whenever a removal renumbers the resources.
pub struct Circular<Active: ActiveResource, Inactive: Clone> {
    inactive: PositionTrackedSequence<Inactive>,
    active: Vec<Active>,
    stale: Vec<bool>,
    position: Option<Position>,
}

impl<Active: ActiveResource, Inactive: Clone> View for Circular<Active, Inactive> {
    type V = PoolView<Active, Inactive>;

    closed spec fn view(&self) -> PoolView<Active, Inactive> {
        PoolView { inactive: self.inactive@, active: self.active@, stale: self.stale@, cursor: self.position }
    }
}

impl<Active: ActiveResource, Inactive: Clone> Circular<Active, Inactive> {
    /// The invariant of the pool, see [`PoolView::wf`].
    pub open spec fn wf(&self) -> bool {
        self@.wf()
    }

    /// An empty pool.
    pub fn new() -> (pool: Self)
        ensures
            pool.wf(),
            pool@ == PoolView::<Active, Inactive>::empty(),
    {
        Circular { inactive: PositionTrackedSequence::new(), active: Vec::new(), stale: Vec::new(), position: None }
    }

    /// Appends an inactive resource. A pool that had no cursor starts at the
    /// first resource.
    pub fn push(&mut self, value: Inactive)
        requires
            old(self).wf(),
        ensures
            final(self).wf(),
            final(self)@ == old(self)@.push(value),
    {
        self.inactive.push(value);
        if self.position.is_none() {
            self.position = Some(Position(0));
        }
        proof {
            self.inactive.lemma_len_fits();
        }
    }

    /// Moves the resources of `other` to the end of the inactive resources,
    /// leaving `other` empty. A pool that had no cursor starts at the first
    /// resource, if there is one now.
    pub fn append(&mut self, other: &mut Vec<Inactive>)
        requires
            old(self).wf(),
        ensures
            final(self).wf(),
            final(self)@ == old(self)@.append(old(other)@),
            final(other)@ == Seq::<Inactive>::empty(),
    {
        self.inactive.append(other);
        if self.position.is_none() && !self.inactive.is_empty() {
            self.position = Some(Position(0));
        }
        proof {
            self.inactive.lemma_len_fits();
        }
    }

    /// Removes and returns the inactive resource at `position`.
    ///
    /// Every handle and the cursor are renumbered: those behind the removed
    /// resource move down by one, the others keep their position. Handles
    /// that referred to the removed resource become stale. A cursor that
    /// would point past the last resource goes back to the first one.
    ///
    /// Nothing changes if `position` is out of range.
    pub fn remove(&mut self, position: Position) -> (removed: Result<Inactive, IndexError>)
        requires
            old(self).wf(),
        ensures
            final(self).wf(),
            match removed {
                Ok(item) => {
                    &&& position.0 < old(self)@.inactive.len()
                    &&& item == old(self)@.inactive[position.0 as int]
                    &&& final(self)@ == old(self)@.remove(position)
                },
                Err(error) => {
                    &&& position.0 >= old(self)@.inactive.len()
                    &&& error == (IndexError {
                        index: position.0,
                        len: old(self)@.inactive.len() as usize,
                    })
                    &&& final(self)@ == old(self)@
                },
            },
    {
        let len: usize = self.inactive.len();
        if position.0 >= len {
            return Err(IndexError { index: position.0, len });
        }
        let mut slot: usize = 0;
        while slot < self.active.len()
            invariant
                slot <= self.active@.len(),
                self.stale@.len() == self.active@.len(),
                self.active@ == old(self).active@,
                self.inactive@ == old(self).inactive@,
                self.position == old(self).position,
                forall|s: int|
                    0 <= s < slot ==> #[trigger] self.stale@[s] == (old(self).stale@[s] || old(
                        self,
                    ).active@[s].spec_position() == position),
                forall|s: int| slot <= s < self.stale@.len() ==> #[trigger] self.stale@[s] == old(self).stale@[s],
            decreases self.active@.len() - slot,
        {
            if self.active[slot].position().0 == position.0 {
                self.stale[slot] = true;
            }
            slot = slot + 1;
        }
        self.position = match self.position {
            None => None,
            Some(cursor) => {
                let shifted: Position = cursor.after_removal(position);
                if len <= 1 {
                    None
                } else if shifted.0 >= len - 1 {
                    Some(Position(0))
                } else {
                    Some(shifted)
                }
            },
        };
        let removed: Result<Inactive, IndexError> = self.inactive.remove(position, &mut self.active);
        proof {
            self.inactive.lemma_len_fits();
            assert(self@.stale =~= old(self)@.remove(position).stale);
        }
        removed
    }

    /// Removes every resource and every handle and unsets the cursor.
    pub fn clear(&mut self)
        ensures
            final(self).wf(),
            final(self)@ == PoolView::<Active, Inactive>::empty(),
    {
        self.inactive.clear(&mut self.active);
        self.stale.clear();
        self.position = None;
    }

    /// Whether the pool holds no inactive resource.
    pub fn inactive_is_empty(&self) -> (empty: bool)
        ensures
            empty <==> self@.inactive.len() == 0,
    {
        self.inactive.is_empty()
    }

    /// The number of inactive resources.
    pub fn inactive_len(&self) -> (len: usize)
        ensures
            len == self@.inactive.len(),
    {
        self.inactive.len()
    }

    /// The number of slots, that is of active handles.
    pub fn active_len(&self) -> (len: usize)
        ensures
            len == self@.active.len(),
    {
        self.active.len()
    }

    /// Whether there are at least as many slots as inactive resources, so
    /// that [`Circular::allocate_new_position`] refuses to add one.
    pub fn is_saturated(&self) -> (saturated: bool)
        ensures
            saturated == self@.saturated(),
    {
        self.active.len() >= self.inactive.len()
    }

    /// The cursor, if it is set: the position that the next allocation
    /// takes.
    pub fn get_position(&self) -> (cursor: Option<Position>)
        ensures
            cursor == self@.cursor,
    {
        self.position
    }

    /// Moves the cursor to `position`, or unsets it. A cursor outside the
    /// inactive resources is refused and the cursor stays where it was.
    ///
    /// While the cursor of a pool with resources is unset, the next
    /// allocation takes the first resource.
    pub fn set_position(&mut self, position: Option<Position>) -> (done: Result<(), IndexError>)
        requires
            old(self).wf(),
        ensures
            final(self).wf(),
            done == match position {
                Some(cursor) if cursor.0 >= old(self)@.inactive.len() => Err::<(), IndexError>(
                    IndexError { index: cursor.0, len: old(self)@.inactive.len() as usize },
                ),
                _ => Ok::<(), IndexError>(()),
            },
            final(self)@ == if done is Ok {
                PoolView { cursor: position, ..old(self)@ }
            } else {
                old(self)@
            },
    {
        match position {
            Some(cursor) => {
                let len: usize = self.inactive.len();
                if cursor.0 >= len {
                    return Err(IndexError { index: cursor.0, len });
                }
            },
            None => {},
        }
        self.position = position;
        Ok(())
    }

    /// The resource at the cursor, if the cursor is set.
    pub fn get_current_inactive(&self) -> (current: Option<&Inactive>)
        requires
            self.wf(),
        ensures
            current == match self@.cursor {
                Some(cursor) => Some(&self@.inactive[cursor.0 as int]),
                None => None,
            },
    {
        match self.position {
            Some(cursor) => Some(self.inactive.at(cursor)),
            None => None,
        }
    }

    /// The resource at the cursor, for writing, if the cursor is set. The
    /// pool ends up with whatever the caller leaves in the resource.
    pub fn get_current_inactive_mut(&mut self) -> (current: Option<&mut Inactive>)
        requires
            old(self).wf(),
        ensures
            final(self).wf(),
            match current {
                Some(item) => {
                    &&& old(self)@.cursor matches Some(cursor)
                    &&& *item == old(self)@.inactive[cursor.0 as int]
                    &&& final(self)@ == (PoolView {
                        inactive: old(self)@.inactive.update(cursor.0 as int, *final(item)),
                        ..old(self)@
                    })
                },
                None => {
                    &&& old(self)@.cursor is None
                    &&& final(self)@ == old(self)@
                },
            },
    {
        match self.position {
            Some(cursor) => Some(self.inactive.at_mut(cursor)),
            None => None,
        }
    }

    /// The inactive resources in order, by reference.
    pub fn inactive_iter(&self) -> (iter: std::slice::Iter<'_, Inactive>)
        ensures
            vstd::std_specs::slice::into_iter_elts(iter) == self@.inactive,
    {
        self.inactive.iter()
    }

    /// The inactive resources in order, for writing: the iterator hands out
    /// a mutable reference to each resource, from the first to the last. The
    /// pool keeps its resources in number and order, and each ends up as the
    /// caller leaves it behind its reference. Handles and cursor are
    /// untouched.
    pub fn inactive_iter_mut(&mut self) -> (iter: std::slice::IterMut<'_, Inactive>)
        requires
            old(self).wf(),
        ensures
            final(self).wf(),
            iter.obeys_prophetic_iter_laws(),
            iter.remaining().len() == old(self)@.inactive.len(),
            forall|i: int|
                0 <= i < old(self)@.inactive.len() ==> *(#[trigger] iter.remaining()[i]) == old(
                    self,
                )@.inactive[i],
            final(self)@.inactive.len() == old(self)@.inactive.len(),
            forall|i: int|
                0 <= i < old(self)@.inactive.len() ==> final(self)@.inactive[i]
                    == *final(#[trigger] iter.remaining()[i]),
            final(self)@ == (PoolView { inactive: final(self)@.inactive, ..old(self)@ }),
    {
        self.inactive.iter_mut()
    }

    /// The inactive resource at `position`.
    pub fn get_inactive(&self, position: Position) -> (found: Result<&Inactive, IndexError>)
        ensures
            found == if position.0 < self@.inactive.len() {
                Ok::<&Inactive, IndexError>(&self@.inactive[position.0 as int])
            } else {
                Err::<&Inactive, IndexError>(
                    IndexError { index: position.0, len: self@.inactive.len() as usize },
                )
            },
    {
        self.inactive.get(position)
    }

    /// The inactive resource at `position`, for writing. The pool ends up
    /// with whatever the caller leaves in the resource.
    pub fn get_mut_inactive(&mut self, position: Position) -> (found: Result<&mut Inactive, IndexError>)
        requires
            old(self).wf(),
        ensures
            final(self).wf(),
            match found {
                Ok(item) => {
                    &&& position.0 < old(self)@.inactive.len()
                    &&& *item == old(self)@.inactive[position.0 as int]
                    &&& final(self)@ == (PoolView {
                        inactive: old(self)@.inactive.update(position.0 as int, *final(item)),
                        ..old(self)@
                    })
                },
                Err(error) => {
                    &&& position.0 >= old(self)@.inactive.len()
                    &&& error == (IndexError {
                        index: position.0,
                        len: old(self)@.inactive.len() as usize,
                    })
                    &&& final(self)@ == old(self)@
                },
            },
    {
        self.inactive.get_mut(position)
    }

    /// Replaces the inactive resource at `position` by `value`.
    pub fn set_inactive(&mut self, position: Position, value: Inactive) -> (done: Result<(), IndexError>)
        requires
            old(self).wf(),
        ensures
            final(self).wf(),
            match done {
                Ok(_) => {
                    &&& position.0 < old(self)@.inactive.len()
                    &&& final(self)@ == (PoolView {
                        inactive: old(self)@.inactive.update(position.0 as int, value),
                        ..old(self)@
                    })
                },
                Err(error) => {
                    &&& position.0 >= old(self)@.inactive.len()
                    &&& error == (IndexError {
                        index: position.0,
                        len: old(self)@.inactive.len() as usize,
                    })
                    &&& final(self)@ == old(self)@
                },
            },
    {
        self.inactive.set(position, value)
    }

    /// The handle in `slot`.
    pub fn get_active(&self, slot: usize) -> (found: Result<&Active, IndexError>)
        ensures
            found == if slot < self@.active.len() {
                Ok::<&Active, IndexError>(&self@.active[slot as int])
            } else {
                Err::<&Active, IndexError>(IndexError { index: slot, len: self@.active.len() as usize })
            },
    {
        if slot < self.active.len() {
            Ok(&self.active[slot])
        } else {
            Err(IndexError { index: slot, len: self.active.len() })
        }
    }

    /// Overwrites the handle in `slot` by `handle`, which makes the slot
    /// fresh again if it was stale.
    ///
    /// Refused, with nothing changed, if `slot` is outside the slots or if
    /// `handle` carries a position outside the inactive resources; the error
    /// names whichever index was out of range, the slot first.
    pub fn set_active(&mut self, slot: usize, handle: Active) -> (done: Result<(), IndexError>)
        requires
            old(self).wf(),
        ensures
            final(self).wf(),
            done == if slot >= old(self)@.active.len() {
                Err::<(), IndexError>(IndexError { index: slot, len: old(self)@.active.len() as usize })
            } else if handle.spec_position().0 >= old(self)@.inactive.len() {
                Err::<(), IndexError>(
                    IndexError {
                        index: handle.spec_position().0,
                        len: old(self)@.inactive.len() as usize,
                    },
                )
            } else {
                Ok::<(), IndexError>(())
            },
            final(self)@ == if done is Ok {
                old(self)@.replace(slot as int, handle)
            } else {
                old(self)@
            },
    {
        if slot >= self.active.len() {
            return Err(IndexError { index: slot, len: self.active.len() });
        }
        let carried: usize = handle.position().0;
        let len: usize = self.inactive.len();
        if carried >= len {
            return Err(IndexError { index: carried, len });
        }
        self.active[slot] = handle;
        self.stale[slot] = false;
        Ok(())
    }

    /// Appends `handle` as a new slot and returns the slot.
    ///
    /// Refused, with nothing changed, if `handle` carries a position outside
    /// the inactive resources.
    pub fn push_active(&mut self, handle: Active) -> (slot: Result<usize, IndexError>)
        requires
            old(self).wf(),
        ensures
            final(self).wf(),
            slot == if handle.spec_position().0 < old(self)@.inactive.len() {
                Ok::<usize, IndexError>(old(self)@.active.len() as usize)
            } else {
                Err::<usize, IndexError>(
                    IndexError {
                        index: handle.spec_position().0,
                        len: old(self)@.inactive.len() as usize,
                    },
                )
            },
            final(self)@ == if slot is Ok {
                old(self)@.attach(handle)
            } else {
                old(self)@
            },
    {
        let carried: usize = handle.position().0;
        let len: usize = self.inactive.len();
        if carried >= len {
            return Err(IndexError { index: carried, len });
        }
        let slot: usize = self.active.len();
        self.active.push(handle);
        self.stale.push(false);
        assert(self.active@.len() == self.active.len());
        Ok(slot)
    }

    /// Whether the handle in `slot` is stale: the resource it was made from
    /// has been removed, and the position it carries names another resource
    /// or none.
    pub fn is_stale(&self, slot: usize) -> (stale: Result<bool, IndexError>)
        requires
            self.wf(),
        ensures
            stale == if slot < self@.active.len() {
                Ok::<bool, IndexError>(self@.stale[slot as int])
            } else {
                Err::<bool, IndexError>(IndexError { index: slot, len: self@.active.len() as usize })
            },
    {
        if slot < self.active.len() {
            Ok(self.stale[slot])
        } else {
            Err(IndexError { index: slot, len: self.active.len() })
        }
    }

    /// The position of the resource behind `slot`: the position that the
    /// handle in the slot carries, unless the slot is out of range or the
    /// handle is stale.
    pub fn resolve(&self, slot: usize) -> (position: Result<Position, SlotError>)
        requires
            self.wf(),
        ensures
            position == self@.resolve(slot),
            position matches Ok(found) ==> found.0 < self@.inactive.len(),
    {
        if slot >= self.active.len() {
            return Err(SlotError::Index(IndexError { index: slot, len: self.active.len() }));
        }
        let carried: Position = *self.active[slot].position();
        if self.stale[slot] {
            Err(SlotError::Stale(carried))
        } else {
            Ok(carried)
        }
    }

    /// Takes the position for the next allocation and moves the cursor to
    /// its circular successor. `None`, with nothing changed, if the pool has
    /// no inactive resource.
    pub fn advance(&mut self) -> (taken: Option<Position>)
        requires
            old(self).wf(),
        ensures
            final(self).wf(),
            taken == old(self)@.next_position(),
            final(self)@ == old(self)@.advance(),
            taken matches Some(position) ==> position.0 < old(self)@.inactive.len(),
    {
        let len: usize = self.inactive.len();
        if len == 0 {
            return None;
        }
        let taken: Position = match self.position {
            Some(cursor) => cursor,
            None => Position(0),
        };
        self.position = Some(taken.successor(len));
        Some(taken)
    }

    /// Allocates a new slot from the resource at the cursor, however many
    /// slots there are already.
    ///
    /// Takes the position at the cursor, moves the cursor to its circular
    /// successor, calls `activate` with a clone of the resource at the
    /// position taken, that position and the index of the new slot, and
    /// appends the handle it returns as the new slot. Returns the new slot,
    /// or `None`, with nothing changed and `activate` not called, if the
    /// pool has no inactive resource.
    pub fn allocate_rapacious<F: FnOnce(Inactive, Position, usize) -> Active>(&mut self, activate: F) -> (slot:
        Option<usize>)
        requires
            old(self).wf(),
            old(self)@.may_activate(activate, old(self)@.active.len() as usize),
        ensures
            final(self).wf(),
            match slot {
                Some(slot) => {
                    &&& old(self)@.inactive.len() > 0
                    &&& slot == old(self)@.active.len()
                    &&& final(self)@.active.len() == slot + 1
                    &&& old(self)@.activated(activate, slot, final(self)@.active[slot as int])
                    &&& final(self)@ == old(self)@.advance().attach(final(self)@.active[slot as int])
                },
                None => {
                    &&& old(self)@.inactive.len() == 0
                    &&& final(self)@ == old(self)@
                },
            },
    {
        let slot: usize = self.active.len();
        match self.advance() {
            Some(taken) => {
                let handle: Active = self.activate_at(taken, slot, activate);
                self.push_active(handle).ok()
            },
            None => None,
        }
    }

    /// Allocates a new slot as [`Circular::allocate_rapacious`] does and
    /// returns a clone of the handle in it, or `None` if the pool has no
    /// inactive resource.
    pub fn next<F: FnOnce(Inactive, Position, usize) -> Active>(&mut self, activate: F) -> (handle: Option<
        Active,
    >)
        requires
            old(self).wf(),
            old(self)@.may_activate(activate, old(self)@.active.len() as usize),
        ensures
            final(self).wf(),
            match handle {
                Some(handle) => {
                    &&& old(self)@.inactive.len() > 0
                    &&& final(self)@.active.len() == old(self)@.active.len() + 1
                    &&& old(self)@.activated(
                        activate,
                        old(self)@.active.len() as usize,
                        final(self)@.active.last(),
                    )
                    &&& final(self)@ == old(self)@.advance().attach(final(self)@.active.last())
                    &&& cloned(final(self)@.active.last(), handle)
                },
                None => {
                    &&& old(self)@.inactive.len() == 0
                    &&& final(self)@ == old(self)@
                },
            },
    {
        match self.allocate_rapacious(activate) {
            Some(slot) => Some(self.active[slot].clone()),
            None => None,
        }
    }

    /// Allocates a new slot from the resource at the cursor, unless the pool
    /// is saturated: it refuses to have more slots than inactive resources.
    ///
    /// Returns `None`, with nothing changed and `activate` not called, if
    /// there are already as many slots as inactive resources, which is the
    /// case in particular if there is no resource. Else it does what
    /// [`Circular::allocate_rapacious`] does.
    pub fn allocate_new_position<F: FnOnce(Inactive, Position, usize) -> Active>(
        &mut self,
        activate: F,
    ) -> (slot: Option<usize>)
        requires
            old(self).wf(),
            !old(self)@.saturated() ==> old(self)@.may_activate(activate, old(self)@.active.len() as usize),
        ensures
            final(self).wf(),
            match slot {
                Some(slot) => {
                    &&& !old(self)@.saturated()
                    &&& slot == old(self)@.active.len()
                    &&& final(self)@.active.len() == slot + 1
                    &&& old(self)@.activated(activate, slot, final(self)@.active[slot as int])
                    &&& final(self)@ == old(self)@.advance().attach(final(self)@.active[slot as int])
                },
                None => {
                    &&& old(self)@.saturated()
                    &&& final(self)@ == old(self)@
                },
            },
    {
        if self.is_saturated() {
            None
        } else {
            self.allocate_rapacious(activate)
        }
    }

    /// Activates the handle in `slot` anew, from the resource at the cursor.
    ///
    /// Takes the position at the cursor, moves the cursor to its circular
    /// successor, calls `activate` with a clone of the resource at the
    /// position taken, that position and `slot`, and overwrites the handle in
    /// `slot` by the handle it returns; the slot is fresh afterwards. Returns
    /// the position taken.
    ///
    /// Refused, with nothing changed, if `slot` is outside the slots. With
    /// no inactive resource nothing happens and the result is `Ok(None)`.
    pub fn reallocate_position<F: FnOnce(Inactive, Position, usize) -> Active>(
        &mut self,
        slot: usize,
        activate: F,
    ) -> (taken: Result<Option<Position>, IndexError>)
        requires
            old(self).wf(),
            slot < old(self)@.active.len() ==> old(self)@.may_activate(activate, slot),
        ensures
            final(self).wf(),
            match taken {
                Ok(Some(position)) => {
                    &&& slot < old(self)@.active.len()
                    &&& old(self)@.next_position() == Some(position)
                    &&& old(self)@.activated(activate, slot, final(self)@.active[slot as int])
                    &&& final(self)@ == old(self)@.advance().replace(
                        slot as int,
                        final(self)@.active[slot as int],
                    )
                },
                Ok(None) => {
                    &&& slot < old(self)@.active.len()
                    &&& old(self)@.inactive.len() == 0
                    &&& final(self)@ == old(self)@
                },
                Err(error) => {
                    &&& slot >= old(self)@.active.len()
                    &&& error == (IndexError { index: slot, len: old(self)@.active.len() as usize })
                    &&& final(self)@ == old(self)@
                },
            },
    {
        if slot >= self.active.len() {
            return Err(IndexError { index: slot, len: self.active.len() });
        }
        match self.advance() {
            Some(taken) => {
                let handle: Active = self.activate_at(taken, slot, activate);
                match self.set_active(slot, handle) {
                    Ok(_) => Ok(Some(taken)),
                    Err(error) => Err(error),
                }
            },
            None => Ok(None),
        }
    }

    /// Calls `activate` with a clone of the resource at `taken`, with
    /// `taken` and with `slot`.
    fn activate_at<F: FnOnce(Inactive, Position, usize) -> Active>(
        &self,
        taken: Position,
        slot: usize,
        activate: F,
    ) -> (handle: Active)
        requires
            taken.0 < self@.inactive.len(),
            forall|item: Inactive| #[trigger]
                cloned(self@.inactive[taken.0 as int], item) ==> call_requires(activate, (item, taken, slot)),
        ensures
            exists|item: Inactive|
                cloned(self@.inactive[taken.0 as int], item) && #[trigger] call_ensures(
                    activate,
                    (item, taken, slot),
                    handle,
                ),
    {
        let item: Inactive = self.inactive.at(taken).clone();
        assert(cloned(self@.inactive[taken.0 as int], item));
        let handle: Active = activate(item, taken, slot);
        assert(cloned(self@.inactive[taken.0 as int], item) && call_ensures(activate, (item, taken, slot), handle));
        handle
    }

    /// Removes `slot` and the inactive resource behind it, and returns the
    /// resource.
    ///
    /// The resource leaves the inactive resources as in
    /// [`Circular::remove`]: the other handles and the cursor are
    /// renumbered, and other handles made from the same resource become
    /// stale. Then the handle leaves the slots, and later slots move down
    /// by one.
    ///
    /// Refused, with nothing changed, if `slot` is outside the slots or if
    /// its handle is stale, see [`PoolView::resolve`].
    pub fn remove_by_slot(&mut self, slot: usize) -> (removed: Result<Inactive, SlotError>)
        requires
            old(self).wf(),
        ensures
            final(self).wf(),
            removed == match old(self)@.resolve(slot) {
                Ok(position) => Ok::<Inactive, SlotError>(old(self)@.inactive[position.0 as int]),
                Err(error) => Err::<Inactive, SlotError>(error),
            },
            final(self)@ == if removed is Ok {
                old(self)@.remove_slot(slot as int)
            } else {
                old(self)@
            },
    {
        match self.resolve(slot) {
            Ok(position) => match self.remove(position) {
                Ok(item) => {
                    self.active.remove(slot);
                    self.stale.remove(slot);
                    Ok(item)
                },
                Err(error) => Err(SlotError::Index(error)),
            },
            Err(error) => Err(error),
        }
    }

    /// The inactive resource behind `slot`.
    pub fn get_inactive_by_slot(&self, slot: usize) -> (found: Result<&Inactive, SlotError>)
        requires
            self.wf(),
        ensures
            found == match self@.resolve(slot) {
                Ok(position) => Ok::<&Inactive, SlotError>(&self@.inactive[position.0 as int]),
                Err(error) => Err::<&Inactive, SlotError>(error),
            },
    {
        match self.resolve(slot) {
            Ok(position) => Ok(self.inactive.at(position)),
            Err(error) => Err(error),
        }
    }

    /// The inactive resource behind `slot`, for writing. The pool ends up
    /// with whatever the caller leaves in the resource.
    pub fn get_mut_inactive_by_slot(&mut self, slot: usize) -> (found: Result<&mut Inactive, SlotError>)
        requires
            old(self).wf(),
        ensures
            final(self).wf(),
            match found {
                Ok(item) => {
                    &&& old(self)@.resolve(slot) matches Ok(position)
                    &&& *item == old(self)@.inactive[position.0 as int]
                    &&& final(self)@ == (PoolView {
                        inactive: old(self)@.inactive.update(position.0 as int, *final(item)),
                        ..old(self)@
                    })
                },
                Err(error) => {
                    &&& old(self)@.resolve(slot) == Err::<Position, SlotError>(error)
                    &&& final(self)@ == old(self)@
                },
            },
    {
        match self.resolve(slot) {
            Ok(position) => Ok(self.inactive.at_mut(position)),
            Err(error) => Err(error),
        }
    }

    /// Replaces the inactive resource behind `slot` by `value`.
    pub fn set_inactive_by_slot(&mut self, slot: usize, value: Inactive) -> (done: Result<(), SlotError>)
        requires
            old(self).wf(),
        ensures
            final(self).wf(),
            match done {
                Ok(_) => {
                    &&& old(self)@.resolve(slot) matches Ok(position)
                    &&& final(self)@ == (PoolView {
                        inactive: old(self)@.inactive.update(position.0 as int, value),
                        ..old(self)@
                    })
                },
                Err(error) => {
                    &&& old(self)@.resolve(slot) == Err::<Position, SlotError>(error)
                    &&& final(self)@ == old(self)@
                },
            },
    {
        match self.resolve(slot) {
            Ok(position) => {
                *self.inactive.at_mut(position) = value;
                Ok(())
            },
            Err(error) => Err(error),
        }
    }
}

} // verus!
