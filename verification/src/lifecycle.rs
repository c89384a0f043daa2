//! Deterministic simulation of the two loader-driven phases.
//!
//! The platform loader, not this system, invokes the registered
//! procedures: sequentially, single threaded, before the entry point
//! (construct phase) and after it returns (destruct phase).  This
//! module models that walk so that callers and tests can drive both
//! phases in isolation: constructors run in ascending priority order,
//! destructors in descending priority order (the convention this
//! system fixes), and a failing initializer is a fatal startup fault
//! that stops the walk — never a silently uninitialized cell
//! presented as live.

use vstd::prelude::*;

use vstd::pervasive::VecAdditionalExecFns;

use crate::schedule::{
    ScheduledEntry,
    ascending_by_priority,
    construction_schedule,
    descending_by_priority,
    destruction_schedule,
    entries_of,
    lemma_schedule_is_permutation,
};
use crate::storage::StorageCell;

verus! {

/// What one binding's initializer procedure did when the loader
/// invoked it.
pub enum InitOutcome<V> {
    /// The initializer returned this value to be stored.
    Value { value: V },
    /// The initializer failed; there is no value and no recovery.
    Fault,
}

/// The value of a successful initializer outcome.
pub open spec fn outcome_value<V>(o: InitOutcome<V>) -> V
    recommends
        o is Value,
{
    o->value
}

/// A failing constructor procedure before the entry point: fatal, not
/// recoverable, attributed to the binding whose initializer failed.
#[derive(Clone, Copy, Debug, PartialEq, Eq, Structural)]
pub struct StartupFault {
    /// Position in the binding table of the failing binding.
    pub index: usize,
}

/// The process state after a completed construct phase: every cell
/// initialized, and the order in which the loader visited the
/// bindings.
pub struct StartupImage<V> {
    /// One cell per binding, in table order, all initialized.
    pub cells: Vec<StorageCell<V>>,
    /// The visit order of the construct phase.
    pub trace: Vec<ScheduledEntry>,
}

/// Binding `i` has been visited among the first `k` schedule entries.
pub open spec fn visited(sched: Seq<ScheduledEntry>, k: int, i: int) -> bool {
    exists|a: int| 0 <= a < k && (#[trigger] sched[a]).index == i
}

/// The outcomes in binding-table order, each wrapped so the walk can
/// move one out when its turn comes.
fn wrap_outcomes<V>(outcomes: Vec<InitOutcome<V>>) -> (slots: Vec<Option<InitOutcome<V>>>)
    ensures
        slots@.len() == outcomes@.len(),
        forall|i: int| 0 <= i < slots@.len() ==> slots@[i] == Some(outcomes@[i]),
{
    let ghost orig = outcomes@;
    let mut rest = outcomes;
    let mut rev: Vec<Option<InitOutcome<V>>> = Vec::new();
    while rest.len() > 0
        invariant
            rest@ == orig.take(rest@.len() as int),
            rev@.len() + rest@.len() == orig.len(),
            forall|j: int| 0 <= j < rev@.len() ==> rev@[j] == Some(orig[orig.len() - 1 - j]),
        decreases rest@.len(),
    {
        let x = rest.pop().unwrap();
        proof {
            assert(orig.take(rest@.len() as int + 1).last() == orig[orig.len() - 1 - rev@.len()]);
            assert(orig.take(rest@.len() as int + 1).drop_last() =~= orig.take(rest@.len() as int));
        }
        rev.push(Some(x));
    }
    let mut slots: Vec<Option<InitOutcome<V>>> = Vec::new();
    while rev.len() > 0
        invariant
            forall|j: int| 0 <= j < rev@.len() ==> rev@[j] == Some(orig[orig.len() - 1 - j]),
            slots@.len() + rev@.len() == orig.len(),
            forall|i: int| 0 <= i < slots@.len() ==> slots@[i] == Some(orig[i]),
        decreases rev@.len(),
    {
        let x = rev.pop().unwrap();
        slots.push(x);
    }
    slots
}

/// A table of fresh, uninitialized cells, one per binding.
fn fresh_cells<V>(n: usize) -> (cells: Vec<StorageCell<V>>)
    ensures
        cells@.len() == n,
        forall|i: int|
            0 <= i < n ==> (#[trigger] cells@[i]).state()
                is Uninitialized && cells@[i].wf(),
{
    let mut cells: Vec<StorageCell<V>> = Vec::new();
    let mut i: usize = 0;
    while i < n
        invariant
            i <= n,
            cells@.len() == i,
            forall|j: int|
                0 <= j < i ==> (#[trigger] cells@[j]).state()
                    is Uninitialized && cells@[j].wf(),
        decreases n - i,
    {
        cells.push(StorageCell::new());
        i = i + 1;
    }
    cells
}

/// The construct phase: walks the bindings in ascending priority
/// order and lets each initializer's outcome be written into that
/// binding's cell.  Succeeds exactly when every initializer produced
/// a value; the first failure aborts the walk as a startup fault that
/// names the failing binding.
pub fn run_construct_phase<V>(priorities: &Vec<u16>, outcomes: Vec<InitOutcome<V>>) -> (r: Result<
    StartupImage<V>,
    StartupFault,
>)
    requires
        priorities@.len() == outcomes@.len(),
    ensures
        r is Ok <==> (forall|i: int| 0 <= i < outcomes@.len() ==> outcomes@[i] is Value),
        r matches Ok(image) ==> {
            &&& image.cells@.len() == outcomes@.len()
            &&& forall|i: int|
                0 <= i < outcomes@.len() ==> (#[trigger] image.cells@[i]).wf()
                    && image.cells@[i].holds(outcome_value(outcomes@[i]))
            &&& image.trace@.len() == outcomes@.len()
            &&& ascending_by_priority(image.trace@)
            &&& image.trace@.to_multiset() == entries_of(priorities@).to_multiset()
        },
        r matches Err(f) ==> f.index < outcomes@.len() && outcomes@[f.index as int] is Fault,
{
    broadcast use vstd::seq_lib::group_to_multiset_ensures;

    let n = priorities.len();
    let sched = construction_schedule(priorities);
    proof {
        lemma_schedule_is_permutation(sched@, priorities@);
    }
    let ghost outc = outcomes@;
    let mut slots = wrap_outcomes(outcomes);
    let mut cells = fresh_cells::<V>(n);
    let mut k: usize = 0;
    while k < n
        invariant
            k <= n,
            n == priorities@.len(),
            outc == outcomes@,
            outc.len() == n,
            slots@.len() == n,
            cells@.len() == n,
            sched@.len() == n,
            ascending_by_priority(sched@),
            sched@.to_multiset() == entries_of(priorities@).to_multiset(),
            forall|a: int|
                0 <= a < n ==> (#[trigger] sched@[a]).index < n && priorities@[sched@[a].index
                    as int] == sched@[a].priority,
            forall|a: int, b: int| 0 <= a < b < n ==> sched@[a].index != sched@[b].index,
            forall|a: int| 0 <= a < k ==> outc[(#[trigger] sched@[a]).index as int] is Value,
            forall|i: int|
                0 <= i < n && #[trigger] visited(sched@, k as int, i) ==> slots@[i] is None
                    && cells@[i].holds(outcome_value(outc[i])) && cells@[i].wf(),
            forall|i: int|
                0 <= i < n && !(#[trigger] visited(sched@, k as int, i)) ==> slots@[i] == Some(
                    outc[i],
                ) && cells@[i].state() is Uninitialized
                    && cells@[i].wf(),
        decreases n - k,
    {
        let idx = sched[k].index;
        proof {
            assert(!visited(sched@, k as int, idx as int));
        }
        let mut slot: Option<InitOutcome<V>> = None;
        slots.set_and_swap(idx, &mut slot);
        match slot {
            None => {
                proof {
                    assert(false);
                }
                return Err(StartupFault { index: 0 });
            },
            Some(InitOutcome::Fault) => {
                proof {
                    assert(outc[idx as int] is Fault);
                }
                return Err(StartupFault { index: idx });
            },
            Some(InitOutcome::Value { value }) => {
                let mut cell = StorageCell::new();
                cells.set_and_swap(idx, &mut cell);
                cell.construct(value);
                cells.set(idx, cell);
            },
        }
        k = k + 1;
        proof {
            assert forall|i: int| 0 <= i < n && #[trigger] visited(sched@, k as int, i) implies
                slots@[i] is None && cells@[i].holds(outcome_value(outc[i]))
                && cells@[i].wf() by {
                let a = choose|a: int| 0 <= a < k && (#[trigger] sched@[a]).index == i;
                if a < k - 1 {
                    assert(visited(sched@, k - 1, i));
                } else {
                    assert(i == idx as int);
                }
            }
            assert forall|i: int|
                0 <= i < n && !(#[trigger] visited(sched@, k as int, i)) implies slots@[i]
                == Some(outc[i]) && cells@[i].state()
                is Uninitialized && cells@[i].wf() by {
                assert(!visited(sched@, k - 1, i));
                assert(i != idx as int);
            }
        }
    }
    proof {
        let ent = entries_of(priorities@);
        assert forall|i: int| 0 <= i < n implies #[trigger] visited(sched@, n as int, i) by {
            assert(sched@.to_multiset().count(ent[i]) == 1);
            assert(sched@.contains(ent[i]));
            let a = choose|a: int| 0 <= a < sched@.len() && sched@[a] == ent[i];
            assert(sched@[a].index == i as usize);
        }
        assert forall|i: int| 0 <= i < n implies (#[trigger] outc[i]) is Value by {
            assert(visited(sched@, n as int, i));
            let a = choose|a: int| 0 <= a < n && (#[trigger] sched@[a]).index == i;
            assert(outc[sched@[a].index as int] is Value);
        }
        assert forall|i: int|
            0 <= i < n implies (#[trigger] cells@[i]).wf() && cells@[i].holds(
            outcome_value(outc[i]),
        ) by {
            assert(visited(sched@, n as int, i));
        }
    }
    Ok(StartupImage { cells, trace: sched })
}

/// The destruct phase: walks the bindings in descending priority
/// order (the reverse of the construct phase) and destroys each
/// binding's cell exactly once.  Runs only on normal exit, after the
/// entry point has returned, with every cell still initialized.
pub fn run_destruct_phase<V>(priorities: &Vec<u16>, cells: &mut Vec<StorageCell<V>>) -> (trace:
    Vec<ScheduledEntry>)
    requires
        priorities@.len() == old(cells)@.len(),
        forall|i: int|
            0 <= i < old(cells)@.len() ==> (#[trigger] old(cells)@[i]).state()
                is Initialized && old(cells)@[i].wf(),
    ensures
        final(cells)@.len() == old(cells)@.len(),
        forall|i: int|
            0 <= i < final(cells)@.len() ==> (#[trigger] final(cells)@[i]).state()
                is Destroyed && final(cells)@[i].wf(),
        trace@.len() == priorities@.len(),
        descending_by_priority(trace@),
        trace@.to_multiset() == entries_of(priorities@).to_multiset(),
{
    broadcast use vstd::seq_lib::group_to_multiset_ensures;

    let n = priorities.len();
    let sched = destruction_schedule(priorities);
    proof {
        lemma_schedule_is_permutation(sched@, priorities@);
    }
    let mut k: usize = 0;
    while k < n
        invariant
            k <= n,
            n == priorities@.len(),
            cells@.len() == n,
            sched@.len() == n,
            sched@.to_multiset() == entries_of(priorities@).to_multiset(),
            forall|a: int| 0 <= a < n ==> (#[trigger] sched@[a]).index < n,
            forall|a: int, b: int| 0 <= a < b < n ==> sched@[a].index != sched@[b].index,
            forall|i: int|
                0 <= i < n && #[trigger] visited(sched@, k as int, i) ==> cells@[i].state()
                    is Destroyed && cells@[i].wf(),
            forall|i: int|
                0 <= i < n && !(#[trigger] visited(sched@, k as int, i)) ==> cells@[i].state()
                    is Initialized && cells@[i].wf(),
        decreases n - k,
    {
        let idx = sched[k].index;
        proof {
            assert(!visited(sched@, k as int, idx as int));
        }
        let mut cell = StorageCell::new();
        cells.set_and_swap(idx, &mut cell);
        cell.destruct();
        cells.set(idx, cell);
        k = k + 1;
        proof {
            assert forall|i: int| 0 <= i < n && #[trigger] visited(sched@, k as int, i) implies
                cells@[i].state() is Destroyed
                && cells@[i].wf() by {
                let a = choose|a: int| 0 <= a < k && (#[trigger] sched@[a]).index == i;
                if a < k - 1 {
                    assert(visited(sched@, k - 1, i));
                } else {
                    assert(i == idx as int);
                }
            }
            assert forall|i: int|
                0 <= i < n && !(#[trigger] visited(sched@, k as int, i)) implies cells@[i].state()
                is Initialized && cells@[i].wf() by {
                assert(!visited(sched@, k - 1, i));
                assert(i != idx as int);
            }
        }
    }
    proof {
        let ent = entries_of(priorities@);
        assert forall|i: int| 0 <= i < n implies #[trigger] visited(sched@, n as int, i) by {
            assert(sched@.to_multiset().count(ent[i]) == 1);
            assert(sched@.contains(ent[i]));
            let a = choose|a: int| 0 <= a < sched@.len() && sched@[a] == ent[i];
            assert(sched@[a].index == i as usize);
        }
        assert forall|i: int|
            0 <= i < n implies (#[trigger] cells@[i]).state() is Destroyed
            && cells@[i].wf() by {
            assert(visited(sched@, n as int, i));
        }
    }
    sched
}

} // verus!
