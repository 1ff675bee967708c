//! A round-robin resource pool over a sequence whose positions stay valid
//! while items are removed.
//!
//! The library has two layers. [`PositionTrackedSequence`] is a dense
//! sequence that renumbers the positions of its observers when an item is
//! removed, so that each observer keeps naming the item it named before.
//! [`Circular`] is a pool on top of it: it owns inactive resources, the
//! handles that were activated from them, one per slot, and a cursor that
//! hands the resources out in a circle.
//!
//! A handle is made by an activation function, which gets a clone of the
//! resource, its position and the slot. The pool never awaits: either it is
//! given the activation function for the duration of one call
//! ([`Circular::allocate_rapacious`], [`Circular::allocate_new_position`],
//! [`Circular::reallocate_position`]), or the caller takes the position with
//! [`Circular::advance`], activates the resource in its own time and hands
//! the handle in with [`Circular::push_active`] or [`Circular::set_active`].
//!
//! What the pool holds is described by [`PoolView`]; the contracts of the
//! operations are stated over it, and [`lemmas`] holds what follows for
//! sequences of operations.

pub mod error;
pub mod lemmas;
pub mod pool;
pub mod position;
pub mod resource;
pub mod sequence;
pub mod view;

pub use error::{IndexError, SlotError};
pub use pool::Circular;
pub use position::Position;
pub use resource::ActiveResource;
pub use sequence::PositionTrackedSequence;
pub use view::PoolView;
