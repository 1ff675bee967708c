//! What holds of a pool across several operations, stated over its view.

use vstd::prelude::*;
use crate::error::SlotError;
use crate::position::{
    lemma_nth_successor, lemma_position_follows_item, lemma_successor, lemma_walk_returns,
    lemma_walk_visits_all, lemma_walk_visits_once, Position,
};
use crate::resource::{lemma_renumbered_position, ActiveResource};
use crate::view::PoolView;

verus! {

/// A removal renumbers every handle by the rule: a handle before the removed
/// position or at it keeps its position, a handle behind it moves down by
/// one. The handles that were at the removed position, and only they, turn
/// stale.
pub proof fn lemma_remove_renumbers_handles<Active: ActiveResource, Inactive: Clone>(
    pool: PoolView<Active, Inactive>,
    removed: Position,
    slot: int,
)
    requires
        pool.wf(),
        removed.0 < pool.inactive.len(),
        0 <= slot < pool.active.len(),
    ensures
        pool.remove(removed).active[slot].spec_position() == pool.active[slot].spec_position().spec_after_removal(
            removed,
        ),
        pool.remove(removed).stale[slot] == (pool.stale[slot] || pool.active[slot].spec_position() == removed),
{
    lemma_renumbered_position(pool.active[slot], removed);
}

/// A removal renumbers the cursor by the same rule, unless the cursor was
/// at the removed position and that was the last one: a cursor is never
/// left pointing past the resources.
pub proof fn lemma_remove_renumbers_cursor<Active: ActiveResource, Inactive: Clone>(
    pool: PoolView<Active, Inactive>,
    removed: Position,
)
    requires
        pool.wf(),
        removed.0 < pool.inactive.len(),
        pool.cursor is Some,
        !(pool.cursor == Some(removed) && removed.0 + 1 == pool.inactive.len()),
    ensures
        pool.remove(removed).cursor == Some(pool.cursor.unwrap().spec_after_removal(removed)),
{
}

/// A cursor at the last position, when that position is removed, goes back
/// to the first resource, or is unset if no resource is left.
pub proof fn lemma_remove_wraps_cursor<Active: ActiveResource, Inactive: Clone>(
    pool: PoolView<Active, Inactive>,
    removed: Position,
)
    requires
        pool.wf(),
        pool.cursor == Some(removed),
        removed.0 + 1 == pool.inactive.len(),
    ensures
        pool.remove(removed).cursor == if removed.0 == 0 {
            None
        } else {
            Some(Position(0))
        },
{
}

/// A removal keeps the invariant of the pool, whether a resource is removed
/// by its position or together with a slot.
pub proof fn lemma_remove_keeps_wf<Active: ActiveResource, Inactive: Clone>(
    pool: PoolView<Active, Inactive>,
    removed: Position,
)
    requires
        pool.wf(),
        removed.0 < pool.inactive.len(),
    ensures
        pool.remove(removed).wf(),
        forall|slot: usize| #[trigger]
            pool.resolve(slot) == Ok::<Position, SlotError>(removed) ==> pool.remove_slot(slot as int).wf(),
{
    let after = pool.remove(removed);
    assert forall|slot: int| 0 <= slot < after.active.len() implies after.stale[slot] || (
        #[trigger] after.active[slot]
    ).spec_position().0 < after.inactive.len() by {
        lemma_renumbered_position(pool.active[slot], removed);
    }
}

/// Growing the pool, moving the cursor on and filling a slot with a handle
/// for a resource that is there keep the invariant of the pool, as far as
/// the lists still fit the machine.
pub proof fn lemma_growth_keeps_wf<Active: ActiveResource, Inactive: Clone>(
    pool: PoolView<Active, Inactive>,
    values: Seq<Inactive>,
    handle: Active,
    slot: int,
)
    requires
        pool.wf(),
    ensures
        pool.inactive.len() + values.len() <= usize::MAX ==> pool.append(values).wf(),
        pool.inactive.len() < usize::MAX ==> forall|value: Inactive| #[trigger] pool.push(value).wf(),
        pool.advance().wf(),
        handle.spec_position().0 < pool.inactive.len() && pool.active.len() < usize::MAX ==> pool.attach(
            handle,
        ).wf(),
        handle.spec_position().0 < pool.inactive.len() && 0 <= slot < pool.active.len() ==> pool.replace(
            slot,
            handle,
        ).wf(),
{
    if pool.next_position() is Some {
        lemma_successor(pool.next_position().unwrap(), pool.inactive.len());
    }
}

/// Growing the pool, moving the cursor on and appending a slot leave every
/// slot with the resource it resolves to.
pub proof fn lemma_slot_keeps_resource<Active: ActiveResource, Inactive: Clone>(
    pool: PoolView<Active, Inactive>,
    slot: usize,
    values: Seq<Inactive>,
    handle: Active,
)
    requires
        pool.wf(),
        pool.resolve(slot) is Ok,
    ensures
        ({
            let position = pool.resolve(slot).unwrap();
            &&& pool.append(values).resolve(slot) == pool.resolve(slot)
            &&& pool.append(values).inactive[position.0 as int] == pool.inactive[position.0 as int]
            &&& forall|value: Inactive| #[trigger] pool.push(value).resolve(slot) == pool.resolve(slot)
            &&& forall|value: Inactive| (#[trigger] pool.push(value)).inactive[position.0 as int]
                == pool.inactive[position.0 as int]
            &&& pool.advance().resolve(slot) == pool.resolve(slot)
            &&& pool.advance().inactive == pool.inactive
            &&& pool.attach(handle).resolve(slot) == pool.resolve(slot)
            &&& pool.attach(handle).inactive == pool.inactive
        }),
{
}

/// Overwriting a slot leaves every other slot with the resource it resolves
/// to.
pub proof fn lemma_slot_keeps_resource_beside<Active: ActiveResource, Inactive: Clone>(
    pool: PoolView<Active, Inactive>,
    slot: usize,
    other: int,
    handle: Active,
)
    requires
        pool.wf(),
        pool.resolve(slot) is Ok,
        0 <= other < pool.active.len(),
        other != slot,
    ensures
        pool.replace(other, handle).resolve(slot) == pool.resolve(slot),
        pool.replace(other, handle).inactive == pool.inactive,
{
}

/// While no resource is removed, consecutive allocations of new slots
/// leave the resources alone and take the positions of a circular walk: the
/// allocation after `k` others takes the position `k` steps from the one
/// that the first allocation takes.
pub proof fn lemma_allocations_walk<Active: ActiveResource, Inactive: Clone>(
    pool: PoolView<Active, Inactive>,
    handles: Seq<Active>,
)
    requires
        pool.wf(),
        pool.inactive.len() > 0,
    ensures
        pool.allocated(handles).inactive == pool.inactive,
        pool.allocated(handles).next_position() == Some(
            pool.next_position().unwrap().spec_nth_successor(pool.inactive.len(), handles.len()),
        ),
    decreases handles.len(),
{
    if handles.len() > 0 {
        lemma_allocations_walk(pool, handles.drop_last());
        lemma_nth_successor(
            pool.next_position().unwrap(),
            pool.inactive.len(),
            (handles.len() - 1) as nat,
        );
    }
}

/// Round robin: in a pool of `n` resources that loses none, `n` consecutive
/// allocations of new slots take `n` different positions, every position is
/// taken by one of them, and the allocation after them takes the position
/// that the first one took: the first position, in a pool whose cursor has
/// not been moved.
pub proof fn lemma_round_robin<Active: ActiveResource, Inactive: Clone>(
    pool: PoolView<Active, Inactive>,
    handles: Seq<Active>,
)
    requires
        pool.wf(),
        pool.inactive.len() > 0,
        handles.len() == pool.inactive.len(),
    ensures
        forall|i: int, j: int|
            0 <= i < j < handles.len() ==> #[trigger] pool.nth_taken(handles, i) != #[trigger] pool.nth_taken(
                handles,
                j,
            ),
        forall|target: Position|
            target.0 < pool.inactive.len() ==> exists|k: int|
                0 <= k < handles.len() && #[trigger] pool.nth_taken(handles, k) == Some(target),
        pool.nth_taken(handles, 0) == pool.next_position(),
        pool.allocated(handles).next_position() == pool.next_position(),
        pool.cursor == Some(Position(0)) ==> pool.allocated(handles).next_position() == Some(Position(0)),
{
    let len: nat = pool.inactive.len();
    let start: Position = pool.next_position().unwrap();
    assert forall|k: int| 0 <= k <= len implies #[trigger] pool.nth_taken(handles, k) == Some(
        start.spec_nth_successor(len, k as nat),
    ) by {
        lemma_allocations_walk(pool, handles.take(k));
    }
    assert forall|i: int, j: int| 0 <= i < j < len implies #[trigger] pool.nth_taken(handles, i)
        != #[trigger] pool.nth_taken(handles, j) by {
        lemma_walk_visits_once(start, len, i as nat, j as nat);
    }
    assert forall|target: Position| target.0 < len implies exists|k: int|
        0 <= k < handles.len() && #[trigger] pool.nth_taken(handles, k) == Some(target) by {
        lemma_walk_visits_all(start, len, target);
        assert(pool.nth_taken(handles, start.spec_steps_to(target, len) as int) == Some(target));
    }
    lemma_walk_returns(start, len);
    lemma_allocations_walk(pool, handles);
    assert(handles.take(0) =~= Seq::<Active>::empty());
}

/// A pool that was cleared behaves as one that was never filled: it is the
/// empty pool, which has no position to hand out. An allocation from it
/// returns `None` and leaves it as it is, and so does moving the cursor on.
pub proof fn lemma_cleared_pool_allocates_nothing<Active: ActiveResource, Inactive: Clone>(
    cleared: PoolView<Active, Inactive>,
)
    requires
        cleared == PoolView::<Active, Inactive>::empty(),
    ensures
        cleared.wf(),
        cleared.inactive.len() == 0,
        cleared.next_position() is None,
        cleared.saturated(),
        cleared.advance() == cleared,
{
}

/// Round trip, first half: the slot that an allocation has just filled
/// resolves to the position the allocation took, where the resource still
/// lies that the handle was activated from. Removing the slot returns that
/// resource.
pub proof fn lemma_new_slot_resolves<Active: ActiveResource, Inactive: Clone>(
    pool: PoolView<Active, Inactive>,
    handle: Active,
)
    requires
        pool.wf(),
        pool.active.len() < usize::MAX,
        pool.next_position() is Some,
        handle.spec_position() == pool.next_position().unwrap(),
    ensures
        pool.advance().attach(handle).wf(),
        pool.advance().attach(handle).resolve(pool.active.len() as usize) == Ok::<Position, SlotError>(
            pool.next_position().unwrap(),
        ),
        pool.advance().attach(handle).inactive == pool.inactive,
{
    lemma_successor(pool.next_position().unwrap(), pool.inactive.len());
}

/// Round trip, second half: a slot keeps resolving to the resource it was
/// activated from while other resources are removed. Its position is
/// renumbered, and the renumbered position names the same resource.
pub proof fn lemma_slot_follows_resource<Active: ActiveResource, Inactive: Clone>(
    pool: PoolView<Active, Inactive>,
    slot: usize,
    removed: Position,
)
    requires
        pool.wf(),
        pool.resolve(slot) is Ok,
        removed.0 < pool.inactive.len(),
        pool.resolve(slot) != Ok::<Position, SlotError>(removed),
    ensures
        pool.remove(removed).resolve(slot) is Ok,
        pool.remove(removed).inactive[pool.remove(removed).resolve(slot).unwrap().0 as int]
            == pool.inactive[pool.resolve(slot).unwrap().0 as int],
{
    let position: Position = pool.resolve(slot).unwrap();
    lemma_renumbered_position(pool.active[slot as int], removed);
    lemma_position_follows_item(pool.inactive, position, removed);
}

/// Round trip, second half, for the removal of another slot: the slots
/// behind the removed one move down by one, and each still resolves to the
/// resource it was activated from, unless it shared that resource with the
/// removed slot.
pub proof fn lemma_slot_follows_resource_by_slot<Active: ActiveResource, Inactive: Clone>(
    pool: PoolView<Active, Inactive>,
    slot: usize,
    removed: usize,
)
    requires
        pool.wf(),
        pool.resolve(slot) is Ok,
        pool.resolve(removed) is Ok,
        slot != removed,
        pool.resolve(slot) != pool.resolve(removed),
    ensures
        ({
            let after = pool.remove_slot(removed as int);
            let moved: usize = if slot > removed {
                (slot - 1) as usize
            } else {
                slot
            };
            &&& after.resolve(moved) is Ok
            &&& after.inactive[after.resolve(moved).unwrap().0 as int] == pool.inactive[pool.resolve(
                slot,
            ).unwrap().0 as int]
        }),
{
    let gone: Position = pool.resolve(removed).unwrap();
    lemma_slot_follows_resource(pool, slot, gone);
}

/// A slot whose resource is removed turns stale and no longer resolves.
pub proof fn lemma_slot_turns_stale<Active: ActiveResource, Inactive: Clone>(
    pool: PoolView<Active, Inactive>,
    slot: usize,
)
    requires
        pool.wf(),
        pool.resolve(slot) is Ok,
    ensures
        pool.remove(pool.resolve(slot).unwrap()).resolve(slot) == Err::<Position, SlotError>(
            SlotError::Stale(pool.resolve(slot).unwrap()),
        ),
{
}

} // verus!
