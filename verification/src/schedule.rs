//! Loader visiting order.
//!
//! On every supported family the loader walks the constructor-table
//! sections before the entry point and the destructor-table sections
//! after it; within one phase the only ordering control is the
//! numeric priority encoded into the section names.  This module
//! computes the order in which the registered procedures of a set of
//! bindings run: ascending priority for the construct phase and, by
//! this system's documented convention, descending priority for the
//! destruct phase.  Bindings with equal priority have unspecified
//! relative order.

use vstd::prelude::*;

verus! {

/// One binding's place in a phase's visiting order: its priority and
/// its position in the process's binding table.
#[derive(Clone, Copy, Debug, PartialEq, Eq, Structural)]
pub struct ScheduledEntry {
    /// The binding's declared priority.
    pub priority: u16,
    /// The binding's position in the binding table.
    pub index: usize,
}

/// Entries appear in non-decreasing priority order.
pub open spec fn ascending_by_priority(s: Seq<ScheduledEntry>) -> bool {
    forall|i: int, j: int| 0 <= i < j < s.len() ==> s[i].priority <= s[j].priority
}

/// Entries appear in non-increasing priority order.
pub open spec fn descending_by_priority(s: Seq<ScheduledEntry>) -> bool {
    forall|i: int, j: int| 0 <= i < j < s.len() ==> s[i].priority >= s[j].priority
}

/// The scheduled entry of each binding, in table order.
pub open spec fn entries_of(priorities: Seq<u16>) -> Seq<ScheduledEntry> {
    Seq::new(
        priorities.len(),
        |i: int| ScheduledEntry { priority: priorities[i], index: i as usize },
    )
}

/// Places one entry at its sorted position.
fn insert_sorted(out: &mut Vec<ScheduledEntry>, e: ScheduledEntry)
    requires
        ascending_by_priority(old(out)@),
    ensures
        ascending_by_priority(final(out)@),
        final(out)@.to_multiset() == old(out)@.to_multiset().insert(e),
        final(out)@.len() == old(out)@.len() + 1,
{
    let mut j: usize = 0;
    while j < out.len() && out[j].priority <= e.priority
        invariant
            j <= out@.len(),
            out == old(out),
            forall|k: int| 0 <= k < j ==> out@[k].priority <= e.priority,
        decreases out@.len() - j,
    {
        j = j + 1;
    }
    out.insert(j, e);
    proof {
        vstd::seq_lib::to_multiset_insert(old(out)@, j as int, e);
        assert forall|a: int, b: int| 0 <= a < b < out@.len() implies out@[a].priority
            <= out@[b].priority by {
            if b < j {
                assert(out@[a] == old(out)@[a]);
                assert(out@[b] == old(out)@[b]);
            } else if a > j {
                assert(out@[a] == old(out)@[a - 1]);
                assert(out@[b] == old(out)@[b - 1]);
            } else if a < j && b == j {
                assert(out@[a] == old(out)@[a]);
            } else if a < j && b > j {
                assert(out@[a] == old(out)@[a]);
                assert(out@[b] == old(out)@[b - 1]);
            } else if a == j && b > j {
                // e sits below every element at or past the insertion
                // point, since the scan stopped there.
                assert(out@[b] == old(out)@[b - 1]);
                assert(old(out)@[j as int].priority > e.priority);
            }
        }
    }
}

/// The construct-phase visiting order: every binding exactly once, in
/// ascending priority order.
pub fn construction_schedule(priorities: &Vec<u16>) -> (order: Vec<ScheduledEntry>)
    ensures
        order@.len() == priorities@.len(),
        ascending_by_priority(order@),
        order@.to_multiset() == entries_of(priorities@).to_multiset(),
{
    let ghost ent = entries_of(priorities@);
    let mut order: Vec<ScheduledEntry> = Vec::new();
    let mut i: usize = 0;
    proof {
        assert(order@.to_multiset() =~= ent.take(0).to_multiset()) by {
            assert(order@ =~= ent.take(0));
        }
    }
    while i < priorities.len()
        invariant
            i <= priorities@.len(),
            ent == entries_of(priorities@),
            ascending_by_priority(order@),
            order@.len() == i,
            order@.to_multiset() == ent.take(i as int).to_multiset(),
        decreases priorities@.len() - i,
    {
        let e = ScheduledEntry { priority: priorities[i], index: i };
        proof {
            assert(e == ent[i as int]);
            assert(ent.take(i + 1) =~= ent.take(i as int).push(e));
            vstd::seq_lib::to_multiset_build(ent.take(i as int), e);
        }
        insert_sorted(&mut order, e);
        i = i + 1;
    }
    proof {
        assert(ent.take(priorities@.len() as int) =~= ent);
    }
    order
}

/// The destruct-phase visiting order: every binding exactly once, in
/// descending priority order — the reverse of the construct phase,
/// the convention this system fixes for the families whose loaders
/// walk the destructor table in reverse section order.
pub fn destruction_schedule(priorities: &Vec<u16>) -> (order: Vec<ScheduledEntry>)
    ensures
        order@.len() == priorities@.len(),
        descending_by_priority(order@),
        order@.to_multiset() == entries_of(priorities@).to_multiset(),
{
    let asc = construction_schedule(priorities);
    let n = asc.len();
    let mut order: Vec<ScheduledEntry> = Vec::new();
    let mut i: usize = n;
    while i > 0
        invariant
            i <= n,
            n == asc@.len(),
            order@.len() == n - i,
            forall|k: int| 0 <= k < order@.len() ==> order@[k] == asc@[n - 1 - k],
        decreases i,
    {
        i = i - 1;
        order.push(asc[i]);
    }
    proof {
        assert(order@ =~= asc@.reverse());
        asc@.lemma_reverse_to_multiset();
        assert(order@.to_multiset() == asc@.to_multiset());
    }
    order
}

/// A phase order that is a permutation of a binding table's entries
/// visits every binding exactly once, and each visited entry carries
/// that binding's declared priority.
pub proof fn lemma_schedule_is_permutation(order: Seq<ScheduledEntry>, priorities: Seq<u16>)
    requires
        priorities.len() <= usize::MAX,
        order.to_multiset() == entries_of(priorities).to_multiset(),
    ensures
        order.len() == priorities.len(),
        forall|k: int|
            0 <= k < order.len() ==> (#[trigger] order[k]).index < priorities.len()
                && priorities[order[k].index as int] == order[k].priority,
        forall|i: int|
            0 <= i < priorities.len() ==> #[trigger] order.to_multiset().count(
                entries_of(priorities)[i],
            ) == 1,
        forall|k1: int, k2: int|
            0 <= k1 < k2 < order.len() ==> order[k1].index != order[k2].index,
{
    broadcast use vstd::seq_lib::group_to_multiset_ensures;

    let ent = entries_of(priorities);
    assert(order.len() == order.to_multiset().len());
    assert(ent.len() == ent.to_multiset().len());

    assert forall|k: int|
        0 <= k < order.len() implies (#[trigger] order[k]).index < priorities.len()
        && priorities[order[k].index as int] == order[k].priority by {
        assert(order.contains(order[k]));
        assert(order.to_multiset().count(order[k]) > 0);
        assert(ent.to_multiset().count(order[k]) > 0);
        assert(ent.contains(order[k]));
        let j = choose|j: int| 0 <= j < ent.len() && ent[j] == order[k];
        assert(order[k].index == j as usize);
    }
    assert(ent.no_duplicates()) by {
        assert forall|a: int, b: int|
            0 <= a < ent.len() && 0 <= b < ent.len() && a != b implies ent[a] != ent[b] by {
            assert(ent[a].index == a as usize);
            assert(ent[b].index == b as usize);
        }
    }
    ent.lemma_multiset_has_no_duplicates();
    order.lemma_multiset_has_no_duplicates_conv();
    assert forall|i: int|
        0 <= i < priorities.len() implies #[trigger] order.to_multiset().count(ent[i])
        == 1 by {
        assert(ent.contains(ent[i]));
        assert(ent.to_multiset().count(ent[i]) > 0);
    }
    assert forall|k1: int, k2: int|
        0 <= k1 < k2 < order.len() implies order[k1].index != order[k2].index by {
        if order[k1].index == order[k2].index {
            assert(ent.contains(order[k1])) by {
                assert(order.contains(order[k1]));
            }
            assert(ent.contains(order[k2])) by {
                assert(order.contains(order[k2]));
            }
            let j1 = choose|j: int| 0 <= j < ent.len() && ent[j] == order[k1];
            let j2 = choose|j: int| 0 <= j < ent.len() && ent[j] == order[k2];
            assert(order[k1].index == j1 as usize);
            assert(order[k2].index == j2 as usize);
            assert(j1 == j2);
            assert(order[k1] == order[k2]);
        }
    }
}

} // verus!
