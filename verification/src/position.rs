//! Positions into a sequence, and how they move when an item is removed.

use vstd::prelude::*;

verus! {

/// An index into a sequence at a point in time.
///
/// A position is no stable identity: it names an item only as long as it is
/// renumbered whenever an item of the sequence is removed, see
/// [`Position::after_removal`]. Positions compare by their index.
#[derive(Clone, Copy, Debug, Hash, Ord, PartialOrd, Eq, PartialEq, Structural)]
pub struct Position(pub usize);

impl Position {
    /// Where this position points once the item at `removed` is gone:
    /// a position behind the removed item moves down by one, every other
    /// position keeps its index. A position equal to `removed` is stale
    /// afterwards: it names whatever item slid into the gap, if any.
    pub open spec fn spec_after_removal(self, removed: Position) -> Position {
        if self.0 > removed.0 {
            Position((self.0 - 1) as usize)
        } else {
            self
        }
    }

    /// The position that follows this one in a circular walk over `len` items.
    pub open spec fn spec_successor(self, len: nat) -> Position {
        Position(((self.0 + 1) % (len as int)) as usize)
    }

    /// The position reached from this one by `steps` circular steps over
    /// `len` items.
    pub open spec fn spec_nth_successor(self, len: nat, steps: nat) -> Position
        decreases steps,
    {
        if steps == 0 {
            self
        } else {
            self.spec_nth_successor(len, (steps - 1) as nat).spec_successor(len)
        }
    }

    /// The number of circular steps over `len` items that lead from this
    /// position to `target`.
    pub open spec fn spec_steps_to(self, target: Position, len: nat) -> nat {
        if target.0 >= self.0 {
            (target.0 - self.0) as nat
        } else {
            (target.0 + len - self.0) as nat
        }
    }

    /// Renumbers this position for the removal of the item at `removed`.
    pub fn after_removal(self, removed: Position) -> (shifted: Position)
        ensures
            shifted == self.spec_after_removal(removed),
    {
        if self.0 > removed.0 {
            Position(self.0 - 1)
        } else {
            self
        }
    }

    /// The circular successor of this position among `len` items.
    pub(crate) fn successor(self, len: usize) -> (next: Position)
        requires
            self.0 < len,
        ensures
            next == self.spec_successor(len as nat),
            next.0 < len,
    {
        proof {
            lemma_successor(self, len as nat);
        }
        if self.0 + 1 != len {
            Position(self.0 + 1)
        } else {
            Position(0)
        }
    }
}

/// The renumbering rule, case by case: a position before the removed index
/// is unchanged, a position at the removed index is unchanged (and stale), a
/// position behind it is decremented by one.
pub proof fn lemma_after_removal_cases(p: Position, removed: Position)
    ensures
        p.0 < removed.0 ==> p.spec_after_removal(removed) == p,
        p.0 == removed.0 ==> p.spec_after_removal(removed) == p,
        p.0 > removed.0 ==> p.spec_after_removal(removed).0 == p.0 - 1,
{
}

/// A renumbered position follows its item: if `p` names an item other than
/// the removed one, then after the removal the renumbered position is in
/// range and names the same item.
pub proof fn lemma_position_follows_item<T>(items: Seq<T>, p: Position, removed: Position)
    requires
        p.0 < items.len(),
        removed.0 < items.len(),
        p != removed,
    ensures
        p.spec_after_removal(removed).0 < items.remove(removed.0 as int).len(),
        items.remove(removed.0 as int)[p.spec_after_removal(removed).0 as int] == items[p.0 as int],
{
}

/// A position at the removed index is stale: unless the removed item was
/// the last one, it now names the item that followed the removed one.
pub proof fn lemma_stale_position_names_follower<T>(items: Seq<T>, removed: Position)
    requires
        removed.0 + 1 < items.len(),
    ensures
        removed.spec_after_removal(removed) == removed,
        items.remove(removed.0 as int)[removed.0 as int] == items[removed.0 + 1],
{
}

/// The circular successor of a position among `len` items is one of them:
/// the next position, or the first one after the last.
pub proof fn lemma_successor(p: Position, len: nat)
    requires
        p.0 < len <= usize::MAX,
    ensures
        p.spec_successor(len).0 < len,
        p.spec_successor(len).0 == if p.0 + 1 == len {
            0
        } else {
            p.0 + 1
        },
{
    if p.0 + 1 == len {
        vstd::arithmetic::div_mod::lemma_mod_self_0(len as int);
    } else {
        vstd::arithmetic::div_mod::lemma_small_mod((p.0 + 1) as nat, len);
    }
}

/// Circular steps add up modulo the length.
pub proof fn lemma_nth_successor(start: Position, len: nat, steps: nat)
    requires
        start.0 < len <= usize::MAX,
    ensures
        start.spec_nth_successor(len, steps).0 == (start.0 + steps) % (len as int),
        start.spec_nth_successor(len, steps).0 < len,
    decreases steps,
{
    let m: int = len as int;
    if steps == 0 {
        vstd::arithmetic::div_mod::lemma_small_mod(start.0 as nat, len);
    } else {
        let before = start.spec_nth_successor(len, (steps - 1) as nat);
        lemma_nth_successor(start, len, (steps - 1) as nat);
        let x: int = start.0 + steps - 1;
        assert(before.0 == x % m);
        vstd::arithmetic::div_mod::lemma_add_mod_noop(x, 1, m);
        vstd::arithmetic::div_mod::lemma_mod_twice(x, m);
        vstd::arithmetic::div_mod::lemma_add_mod_noop(x % m, 1, m);
        assert((x % m + 1) % m == (x + 1) % m);
        vstd::arithmetic::div_mod::lemma_mod_bound(x + 1, m);
    }
}

/// Within one round a circular walk comes to no position twice.
pub proof fn lemma_walk_visits_once(start: Position, len: nat, i: nat, j: nat)
    requires
        start.0 < len <= usize::MAX,
        i < j < len,
    ensures
        start.spec_nth_successor(len, i) != start.spec_nth_successor(len, j),
{
    lemma_nth_successor(start, len, i);
    lemma_nth_successor(start, len, j);
    vstd::arithmetic::div_mod::lemma_mod_equivalence(start.0 + j, start.0 + i, len as int);
    vstd::arithmetic::div_mod::lemma_small_mod((j - i) as nat, len);
}

/// Within one round a circular walk comes to every position: to `target`
/// after [`Position::spec_steps_to`] steps, which are fewer than `len`.
pub proof fn lemma_walk_visits_all(start: Position, len: nat, target: Position)
    requires
        start.0 < len <= usize::MAX,
        target.0 < len,
    ensures
        start.spec_steps_to(target, len) < len,
        start.spec_nth_successor(len, start.spec_steps_to(target, len)) == target,
{
    let steps: nat = start.spec_steps_to(target, len);
    lemma_nth_successor(start, len, steps);
    if target.0 >= start.0 {
        vstd::arithmetic::div_mod::lemma_small_mod(target.0 as nat, len);
    } else {
        vstd::arithmetic::div_mod::lemma_mod_multiples_vanish(1, target.0 as int, len as int);
        vstd::arithmetic::div_mod::lemma_small_mod(target.0 as nat, len);
        assert(start.0 + steps == len * 1 + target.0) by (nonlinear_arith)
            requires
                steps == target.0 + len - start.0,
        ;
    }
}

/// After a full round a circular walk is back where it started.
pub proof fn lemma_walk_returns(start: Position, len: nat)
    requires
        start.0 < len <= usize::MAX,
    ensures
        start.spec_nth_successor(len, len) == start,
{
    lemma_nth_successor(start, len, len);
    vstd::arithmetic::div_mod::lemma_mod_multiples_vanish(1, start.0 as int, len as int);
    vstd::arithmetic::div_mod::lemma_small_mod(start.0 as nat, len);
    assert(start.0 + len == len * 1 + start.0) by (nonlinear_arith);
}

} // verus!
