//! The state of a pool as plain values, and what each operation makes of it.

use vstd::prelude::*;
use crate::error::{IndexError, SlotError};
use crate::position::Position;
use crate::resource::{renumbered_all, ActiveResource};

verus! {

/// What a pool holds, as plain values.
pub struct PoolView<Active, Inactive> {
    /// The inactive resources, by position.
    pub inactive: Seq<Inactive>,
    /// The active handles, by slot.
    pub active: Seq<Active>,
    /// For each slot, whether the resource its handle was made from is gone.
    pub stale: Seq<bool>,
    /// The position handed out next.
    pub cursor: Option<Position>,
}

impl<Active: ActiveResource, Inactive: Clone> PoolView<Active, Inactive> {
    /// The slots and the cursor refer to resources that are there: the
    /// cursor is in range, and so is the position of every handle that is
    /// not stale.
    pub open spec fn wf(self) -> bool {
        &&& self.inactive.len() <= usize::MAX
        &&& self.active.len() <= usize::MAX
        &&& self.stale.len() == self.active.len()
        &&& (self.cursor matches Some(cursor) ==> cursor.0 < self.inactive.len())
        &&& forall|slot: int|
            0 <= slot < self.active.len() ==> (self.stale[slot] || (#[trigger] self.active[slot]).spec_position().0
                < self.inactive.len())
    }

    /// The pool without resources, handles or cursor.
    pub open spec fn empty() -> Self {
        PoolView { inactive: Seq::empty(), active: Seq::empty(), stale: Seq::empty(), cursor: None }
    }

    /// The cursor once the pool has been given resources: an unset cursor
    /// starts at the first resource.
    pub open spec fn started_cursor(self) -> Option<Position> {
        if self.cursor is None && self.inactive.len() > 0 {
            Some(Position(0))
        } else {
            self.cursor
        }
    }

    /// The pool after `value` was appended to the inactive resources.
    pub open spec fn push(self, value: Inactive) -> Self {
        let grown = PoolView { inactive: self.inactive.push(value), ..self };
        PoolView { cursor: grown.started_cursor(), ..grown }
    }

    /// The pool after `values` were appended to the inactive resources.
    pub open spec fn append(self, values: Seq<Inactive>) -> Self {
        let grown = PoolView { inactive: self.inactive + values, ..self };
        PoolView { cursor: grown.started_cursor(), ..grown }
    }

    /// The cursor after the removal of the resource at `removed`: renumbered
    /// like every position, then put back to the first resource if it fell
    /// off the end, and unset if no resource is left.
    pub open spec fn cursor_after_removal(self, removed: Position) -> Option<Position> {
        match self.cursor {
            None => None,
            Some(cursor) => {
                let shifted = cursor.spec_after_removal(removed);
                if self.inactive.len() <= 1 {
                    None
                } else if shifted.0 >= self.inactive.len() - 1 {
                    Some(Position(0))
                } else {
                    Some(shifted)
                }
            },
        }
    }

    /// The pool after the removal of the resource at `removed`: the handles
    /// are renumbered, and those that referred to the removed resource are
    /// stale.
    pub open spec fn remove(self, removed: Position) -> Self {
        PoolView {
            inactive: self.inactive.remove(removed.0 as int),
            active: renumbered_all(self.active, removed),
            stale: Seq::new(
                self.stale.len(),
                |slot: int| self.stale[slot] || self.active[slot].spec_position() == removed,
            ),
            cursor: self.cursor_after_removal(removed),
        }
    }

    /// The position of the resource behind `slot`, or why there is none.
    pub open spec fn resolve(self, slot: usize) -> Result<Position, SlotError> {
        if slot >= self.active.len() {
            Err(SlotError::Index(IndexError { index: slot, len: self.active.len() as usize }))
        } else if self.stale[slot as int] {
            Err(SlotError::Stale(self.active[slot as int].spec_position()))
        } else {
            Ok(self.active[slot as int].spec_position())
        }
    }

    /// The pool after the removal of `slot` together with the resource
    /// behind it: later slots move down by one.
    pub open spec fn remove_slot(self, slot: int) -> Self {
        let removed = self.remove(self.active[slot].spec_position());
        PoolView { active: removed.active.remove(slot), stale: removed.stale.remove(slot), ..removed }
    }

    /// The position that the next allocation takes: the cursor, or the first
    /// resource while the cursor is unset. `None` if there is no resource.
    pub open spec fn next_position(self) -> Option<Position> {
        if self.inactive.len() == 0 {
            None
        } else {
            match self.cursor {
                Some(cursor) => Some(cursor),
                None => Some(Position(0)),
            }
        }
    }

    /// The pool after the cursor has moved past the position that the next
    /// allocation takes, circularly.
    pub open spec fn advance(self) -> Self {
        match self.next_position() {
            Some(taken) => PoolView { cursor: Some(taken.spec_successor(self.inactive.len())), ..self },
            None => self,
        }
    }

    /// Whether every inactive resource could have a slot of its own: there
    /// are at least as many slots as resources.
    pub open spec fn saturated(self) -> bool {
        self.active.len() >= self.inactive.len()
    }

    /// The pool after `handle` was appended as a new slot.
    pub open spec fn attach(self, handle: Active) -> Self {
        PoolView { active: self.active.push(handle), stale: self.stale.push(false), ..self }
    }

    /// The pool after the handle in `slot` was overwritten by `handle`.
    pub open spec fn replace(self, slot: int, handle: Active) -> Self {
        PoolView { active: self.active.update(slot, handle), stale: self.stale.update(slot, false), ..self }
    }

    /// Whether `activate` may be called for the next allocation into `slot`:
    /// it accepts any clone of the resource at the position taken, and the
    /// handle it returns carries that position.
    pub open spec fn may_activate<F: FnOnce(Inactive, Position, usize) -> Active>(
        self,
        activate: F,
        slot: usize,
    ) -> bool {
        self.next_position() matches Some(taken) ==> {
            &&& forall|item: Inactive| #[trigger]
                cloned(self.inactive[taken.0 as int], item) ==> call_requires(activate, (item, taken, slot))
            &&& forall|item: Inactive, handle: Active|
                cloned(self.inactive[taken.0 as int], item) && #[trigger] call_ensures(
                    activate,
                    (item, taken, slot),
                    handle,
                ) ==> handle.spec_position() == taken
        }
    }

    /// Whether `handle` is what `activate` made for the next allocation into
    /// `slot`: the result of a call with a clone of the resource at the
    /// position taken, that position and the slot.
    pub open spec fn activated<F: FnOnce(Inactive, Position, usize) -> Active>(
        self,
        activate: F,
        slot: usize,
        handle: Active,
    ) -> bool {
        self.next_position() matches Some(taken) && exists|item: Inactive|
            cloned(self.inactive[taken.0 as int], item) && #[trigger] call_ensures(
                activate,
                (item, taken, slot),
                handle,
            )
    }

    /// The pool after consecutive allocations of new slots whose activations
    /// returned `handles`, in this order.
    pub open spec fn allocated(self, handles: Seq<Active>) -> Self
        decreases handles.len(),
    {
        if handles.len() == 0 {
            self
        } else {
            self.allocated(handles.drop_last()).advance().attach(handles.last())
        }
    }

    /// The position that the allocation after the first `k` of `handles`
    /// takes, counted from this pool.
    pub open spec fn nth_taken(self, handles: Seq<Active>, k: int) -> Option<Position> {
        self.allocated(handles.take(k)).next_position()
    }
}

} // verus!
