use vstd::prelude::*;

verus! {

/// Entering `pool_id` in the registry `active`: the new registry and whether
/// the pool was entered (it was not active before).
pub open spec fn spec_enter(active: Seq<usize>, pool_id: usize) -> (Seq<usize>, bool) {
    if active.contains(pool_id) {
        (active, false)
    } else {
        (active.push(pool_id), true)
    }
}

/// The position of the most recent entry of `pool_id`, or `-1` if none.
pub open spec fn last_position(active: Seq<usize>, pool_id: usize) -> int
    decreases active.len(),
{
    if active.len() == 0 {
        -1
    } else if active.last() == pool_id {
        active.len() - 1
    } else {
        last_position(active.drop_last(), pool_id)
    }
}

/// Leaving `pool_id`: its most recent entry is removed, if it has one.
pub open spec fn spec_leave(active: Seq<usize>, pool_id: usize) -> Seq<usize> {
    let position = last_position(active, pool_id);
    if position < 0 {
        active
    } else {
        active.remove(position)
    }
}

/// The entry at `k` is the most recent one of `pool_id` when no later entry
/// holds it; with no entry at all, the position is `-1`.
proof fn lemma_last_position(active: Seq<usize>, pool_id: usize, k: int)
    requires
        -1 <= k < active.len(),
        k >= 0 ==> active[k] == pool_id,
        forall|j: int| k < j < active.len() ==> active[j] != pool_id,
    ensures
        last_position(active, pool_id) == k,
    decreases active.len(),
{
    if active.len() > 0 && k != active.len() - 1 {
        assert(active.last() != pool_id);
        assert forall|j: int| k < j < active.drop_last().len() implies active.drop_last()[j] != pool_id by {
            assert(active.drop_last()[j] == active[j]);
        }
        lemma_last_position(active.drop_last(), pool_id, k);
    }
}

/// The pools that have a batch running on the current thread, identified by
/// the address of their shared handle, in the order they were entered.
///
/// A thread consults this registry before it starts producing a batch for a
/// pool: entering a pool that is already active means the call is nested
/// inside a batch of that same pool, and the nested batch must run
/// sequentially.
pub struct ActiveBatchRegistry {
    active: Vec<usize>,
}

impl ActiveBatchRegistry {
    /// No pool appears twice.
    #[verifier::type_invariant]
    closed spec fn distinct(self) -> bool {
        self.active@.no_duplicates()
    }

    /// The active pool identities, oldest first.
    pub closed spec fn spec_active(self) -> Seq<usize> {
        self.active@
    }

    /// Whether `pool_id` has a batch running on this thread.
    pub open spec fn spec_is_active(self, pool_id: usize) -> bool {
        self.spec_active().contains(pool_id)
    }

    /// Creates a registry in which no pool is active.
    pub fn new() -> (registry: Self)
        ensures
            registry.spec_active() == Seq::<usize>::empty(),
    {
        ActiveBatchRegistry { active: Vec::new() }
    }

    /// Returns whether `pool_id` has a batch running on this thread.
    pub fn is_active(&self, pool_id: usize) -> (active: bool)
        ensures
            active == self.spec_is_active(pool_id),
            active <==> exists|i: int| 0 <= i < self.spec_active().len() && self.spec_active()[i] == pool_id,
    {
        let mut i: usize = 0;
        while i < self.active.len()
            invariant
                0 <= i <= self.active@.len(),
                forall|j: int| 0 <= j < i ==> self.active@[j] != pool_id,
            decreases self.active@.len() - i,
        {
            if self.active[i] == pool_id {
                return true;
            }
            i = i + 1;
        }
        false
    }

    /// Marks `pool_id` active. Returns `false`, changing nothing, when the
    /// pool is already active on this thread (the call is a reentry).
    pub fn enter(&mut self, pool_id: usize) -> (entered: bool)
        ensures
            (final(self).spec_active(), entered) == spec_enter(old(self).spec_active(), pool_id),
            entered <==> !old(self).spec_is_active(pool_id),
            final(self).spec_is_active(pool_id),
            forall|other: usize|
                #[trigger] final(self).spec_is_active(other) <==> (other == pool_id || old(
                    self,
                ).spec_is_active(other)),
    {
        proof {
            use_type_invariant(&*self);
        }
        if self.is_active(pool_id) {
            return false;
        }
        let mut active = Vec::new();
        std::mem::swap(&mut active, &mut self.active);
        active.push(pool_id);
        proof {
            assert(active@.no_duplicates()) by {
                assert forall|a: int, b: int| 0 <= a < b < active@.len() implies active@[a] != active@[b] by {
                    if b == active@.len() - 1 {
                        assert(old(self).active@.contains(active@[a]));
                    }
                }
            }
        }
        self.active = active;
        proof {
            lemma_push_membership(old(self).active@, pool_id);
        }
        true
    }

    /// Marks `pool_id` inactive again, removing its most recent entry.
    /// Leaving a pool that is not active changes nothing.
    pub fn leave(&mut self, pool_id: usize)
        ensures
            final(self).spec_active() == spec_leave(old(self).spec_active(), pool_id),
            !final(self).spec_is_active(pool_id),
            forall|other: usize|
                other != pool_id ==> (#[trigger] final(self).spec_is_active(other) <==> old(
                    self,
                ).spec_is_active(other)),
    {
        proof {
            use_type_invariant(&*self);
        }
        let mut i: usize = self.active.len();
        while i > 0
            invariant
                0 <= i <= self.active@.len(),
                self.active@ == old(self).active@,
                old(self).active@.no_duplicates(),
                forall|j: int| i <= j < self.active@.len() ==> self.active@[j] != pool_id,
            decreases i,
        {
            if self.active[i - 1] == pool_id {
                let mut active = Vec::new();
                std::mem::swap(&mut active, &mut self.active);
                let ghost before = active@;
                active.remove(i - 1);
                proof {
                    assert(active@.no_duplicates()) by {
                        assert forall|a: int, b: int| 0 <= a < b < active@.len() implies active@[a] != active@[b] by {
                            let a0 = if a < i - 1 { a } else { a + 1 };
                            let b0 = if b < i - 1 { b } else { b + 1 };
                            assert(active@[a] == before[a0]);
                            assert(active@[b] == before[b0]);
                        }
                    }
                }
                self.active = active;
                proof {
                    lemma_last_position(old(self).active@, pool_id, i - 1);
                    lemma_leave_membership(old(self).active@, pool_id);
                }
                return;
            }
            i = i - 1;
        }
        proof {
            lemma_last_position(old(self).active@, pool_id, -1);
            lemma_leave_membership(old(self).active@, pool_id);
        }
    }
}

/// After leaving, the pool is gone from a registry that held it at most once,
/// and every other pool is exactly as active as before.
proof fn lemma_leave_membership(active: Seq<usize>, pool_id: usize)
    requires
        active.no_duplicates(),
    ensures
        !spec_leave(active, pool_id).contains(pool_id),
        forall|other: usize|
            other != pool_id ==> (#[trigger] spec_leave(active, pool_id).contains(other)
                <==> active.contains(other)),
{
    lemma_last_position_in_range(active, pool_id);
    let position = last_position(active, pool_id);
    if position >= 0 {
        let left = active.remove(position);
        if left.contains(pool_id) {
            let k = choose|k: int| 0 <= k < left.len() && left[k] == pool_id;
            if k < position {
                assert(active[k] == pool_id);
            } else {
                assert(active[k + 1] == pool_id);
            }
        }
    }
    assert forall|other: usize| other != pool_id implies (#[trigger] spec_leave(active, pool_id).contains(other)
        <==> active.contains(other)) by {
        law_other_pools_unaffected(active, pool_id, other);
    }
}

/// After pushing `pool_id`, exactly it and the pools listed before are
/// listed.
proof fn lemma_push_membership(active: Seq<usize>, pool_id: usize)
    ensures
        forall|other: usize|
            #[trigger] active.push(pool_id).contains(other) <==> (other == pool_id || active.contains(
                other,
            )),
{
    assert(active.push(pool_id)[active.len() as int] == pool_id);
    assert forall|other: usize| #[trigger] active.push(pool_id).contains(other) <==> (other == pool_id
        || active.contains(other)) by {
        if active.contains(other) {
            let k = choose|k: int| 0 <= k < active.len() && active[k] == other;
            assert(active.push(pool_id)[k] == other);
        }
        if active.push(pool_id).contains(other) && other != pool_id {
            let k = choose|k: int| 0 <= k < active.push(pool_id).len() && active.push(pool_id)[k] == other;
            assert(active[k] == other);
        }
    }
}

/// Law: a pool is active exactly when the registry lists it, wherever in the
/// list it stands.
pub proof fn law_active_means_listed(registry: &ActiveBatchRegistry, pool_id: usize)
    ensures
        registry.spec_is_active(pool_id) <==> exists|i: int|
            0 <= i < registry.spec_active().len() && registry.spec_active()[i] == pool_id,
{
}

/// Law: once a pool is entered it stays active while other pools are
/// entered after it; it stops being active only when it is left.
pub proof fn law_entered_pool_stays_active(active: Seq<usize>, pool_id: usize, later: Seq<usize>)
    requires
        !active.contains(pool_id),
        forall|i: int| 0 <= i < later.len() ==> #[trigger] later[i] != pool_id,
    ensures
        enter_all(spec_enter(active, pool_id).0, later).contains(pool_id),
        !spec_enter(enter_all(spec_enter(active, pool_id).0, later), pool_id).1,
{
    lemma_push_membership(active, pool_id);
    lemma_enter_all_keeps(spec_enter(active, pool_id).0, later, pool_id);
}

/// Enters each pool of `pools` in turn.
pub open spec fn enter_all(active: Seq<usize>, pools: Seq<usize>) -> Seq<usize>
    decreases pools.len(),
{
    if pools.len() == 0 {
        active
    } else {
        enter_all(spec_enter(active, pools[0]).0, pools.drop_first())
    }
}

/// Entering more pools never removes one that is already listed.
proof fn lemma_enter_all_keeps(active: Seq<usize>, pools: Seq<usize>, pool_id: usize)
    ensures
        active.contains(pool_id) ==> enter_all(active, pools).contains(pool_id),
    decreases pools.len(),
{
    if pools.len() > 0 && active.contains(pool_id) {
        let next = spec_enter(active, pools[0]).0;
        if !active.contains(pools[0]) {
            let k = choose|k: int| 0 <= k < active.len() && active[k] == pool_id;
            assert(next[k] == pool_id);
        }
        lemma_enter_all_keeps(next, pools.drop_first(), pool_id);
    }
}

/// Law: leaving a pool right after entering it restores the registry as it
/// was, so a finished batch leaves no trace on its thread.
pub proof fn law_leave_undoes_enter(active: Seq<usize>, pool_id: usize)
    requires
        !active.contains(pool_id),
    ensures
        spec_enter(active, pool_id).1,
        spec_leave(spec_enter(active, pool_id).0, pool_id) == active,
{
    let entered = active.push(pool_id);
    lemma_last_position(entered, pool_id, active.len() as int);
    assert(entered.remove(active.len() as int) =~= active);
}

/// Law: while a pool is active on a thread, entering it again from that
/// thread is refused (the nested call is a reentry) and changes nothing.
pub proof fn law_reentry_is_refused(active: Seq<usize>, pool_id: usize)
    ensures
        !spec_enter(spec_enter(active, pool_id).0, pool_id).1,
        spec_enter(spec_enter(active, pool_id).0, pool_id).0 == spec_enter(active, pool_id).0,
{
    if !active.contains(pool_id) {
        assert(active.push(pool_id)[active.len() as int] == pool_id);
    }
}

/// Law: entering or leaving one pool does not change whether any other pool
/// is active, so independent pools stay parallel.
pub proof fn law_other_pools_unaffected(active: Seq<usize>, pool_id: usize, other: usize)
    requires
        other != pool_id,
    ensures
        spec_enter(active, pool_id).0.contains(other) == active.contains(other),
        spec_leave(active, pool_id).contains(other) == active.contains(other),
{
    if !active.contains(pool_id) {
        if active.contains(other) {
            let k = choose|k: int| 0 <= k < active.len() && active[k] == other;
            assert(active.push(pool_id)[k] == other);
        }
        if active.push(pool_id).contains(other) {
            let k = choose|k: int| 0 <= k < active.push(pool_id).len() && active.push(pool_id)[k] == other;
            assert(active[k] == other);
        }
    }
    lemma_last_position_in_range(active, pool_id);
    let position = last_position(active, pool_id);
    if position >= 0 {
        let left = active.remove(position);
        if active.contains(other) {
            let k = choose|k: int| 0 <= k < active.len() && active[k] == other;
            if k < position {
                assert(left[k] == other);
            } else {
                assert(left[k - 1] == other);
            }
        }
        if left.contains(other) {
            let k = choose|k: int| 0 <= k < left.len() && left[k] == other;
            if k < position {
                assert(active[k] == other);
            } else {
                assert(active[k + 1] == other);
            }
        }
    }
}

/// The most recent position of a pool, when it has one, holds that pool.
proof fn lemma_last_position_in_range(active: Seq<usize>, pool_id: usize)
    ensures
        -1 <= last_position(active, pool_id) < active.len(),
        last_position(active, pool_id) >= 0 ==> active[last_position(active, pool_id)] == pool_id,
        last_position(active, pool_id) < 0 ==> !active.contains(pool_id),
    decreases active.len(),
{
    if active.len() > 0 && active.last() != pool_id {
        lemma_last_position_in_range(active.drop_last(), pool_id);
        if last_position(active, pool_id) < 0 && active.contains(pool_id) {
            let k = choose|k: int| 0 <= k < active.len() && active[k] == pool_id;
            assert(active.drop_last()[k] == pool_id);
        }
    }
}

/// Law: batches of two different pools nested on one thread unwind in
/// reverse order back to the registry the thread started with.
pub proof fn law_nested_pools_unwind(active: Seq<usize>, outer: usize, inner: usize)
    requires
        outer != inner,
        !active.contains(outer),
        !active.contains(inner),
    ensures
        spec_enter(active, outer).1,
        spec_enter(spec_enter(active, outer).0, inner).1,
        spec_leave(spec_leave(spec_enter(spec_enter(active, outer).0, inner).0, inner), outer)
            == active,
{
    law_leave_undoes_enter(active, outer);
    law_other_pools_unaffected(active, outer, inner);
    law_leave_undoes_enter(active.push(outer), inner);
}

} // verus!
