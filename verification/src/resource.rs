//! Handles that carry the position of the item they were made from.

use vstd::prelude::*;
use crate::position::Position;

verus! {

/// An activated resource: a handle that remembers the position of the
/// inactive item it was built from.
///
/// The owner of the sequence reads the position to find the item again and
/// updates it whenever a removal renumbers the sequence. A handle is cloned
/// by value; its position is copied with it, never shared.
///
/// An implementation promises what the contracts of the two methods say:
/// `position` reads what `set_position` wrote, and `set_position` changes
/// the handle in no way but the one `spec_with_position` describes. What the
/// library proves about handles rests on that promise.
pub trait ActiveResource: Clone {
    /// The position this handle refers to.
    spec fn spec_position(&self) -> Position;

    /// This handle, made to refer to `position`.
    spec fn spec_with_position(&self, position: Position) -> Self;

    /// A handle made to refer to a position refers to it.
    proof fn lemma_with_position(&self, position: Position)
        ensures
            self.spec_with_position(position).spec_position() == position,
    ;

    /// The position this handle refers to.
    fn position(&self) -> (position: &Position)
        ensures
            *position == self.spec_position(),
    ;

    /// Makes this handle refer to `position`.
    fn set_position(&mut self, position: Position)
        ensures
            *final(self) == old(self).spec_with_position(position),
    ;
}

/// A bare position is the simplest handle: it refers to itself.
impl ActiveResource for Position {
    open spec fn spec_position(&self) -> Position {
        *self
    }

    open spec fn spec_with_position(&self, position: Position) -> Position {
        position
    }

    proof fn lemma_with_position(&self, position: Position) {
    }

    fn position(&self) -> (position: &Position) {
        self
    }

    fn set_position(&mut self, position: Position) {
        *self = position;
    }
}

/// A handle after the removal of the item at `removed`: it follows the
/// renumbering rule of [`Position::spec_after_removal`], and is left untouched
/// where the rule keeps its position.
pub open spec fn renumbered<A: ActiveResource>(handle: A, removed: Position) -> A {
    if handle.spec_position().0 > removed.0 {
        handle.spec_with_position(handle.spec_position().spec_after_removal(removed))
    } else {
        handle
    }
}

/// Every handle of `handles` after the removal of the item at `removed`.
pub open spec fn renumbered_all<A: ActiveResource>(handles: Seq<A>, removed: Position) -> Seq<A> {
    Seq::new(handles.len(), |s: int| renumbered(handles[s], removed))
}

/// A renumbered handle refers to the renumbered position.
pub proof fn lemma_renumbered_position<A: ActiveResource>(handle: A, removed: Position)
    ensures
        renumbered(handle, removed).spec_position() == handle.spec_position().spec_after_removal(
            removed,
        ),
{
    if handle.spec_position().0 > removed.0 {
        handle.lemma_with_position(handle.spec_position().spec_after_removal(removed));
    }
}

} // verus!
