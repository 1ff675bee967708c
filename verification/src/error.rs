//! The ways in which an access can fail.

use vstd::prelude::*;
use crate::position::Position;

verus! {

/// An access or removal named an index outside the list it refers to: a
/// position outside the inactive resources, or a slot outside the active
/// handles.
#[derive(Clone, Copy, Debug, Eq, PartialEq, Structural)]
pub struct IndexError {
    /// The index that was asked for.
    pub index: usize,
    /// The length of the list at that time.
    pub len: usize,
}

/// Why a slot could not be resolved to the inactive resource behind it.
#[derive(Clone, Copy, Debug, Eq, PartialEq, Structural)]
pub enum SlotError {
    /// The slot is outside the list of active handles.
    Index(IndexError),
    /// The handle in the slot refers to a resource that has been removed;
    /// the position it still carries names another resource, or none.
    Stale(Position),
}

} // verus!
