//! The storage cell lifecycle protocol and the access facade.
//!
//! Each binding owns one storage cell: a slot that starts without a
//! value, is written exactly once by the generated constructor
//! procedure, and is destroyed exactly once by the generated
//! destructor procedure.  Reading is permitted only while the cell is
//! in the `Initialized` state; the preconditions below make a read in
//! the `Uninitialized` or `Destroyed` state impossible in verified
//! callers rather than checked at run time, which is the whole point
//! of eager initialization.

use vstd::prelude::*;

verus! {

/// Lifecycle state of one storage cell.  The only transitions are
/// `Uninitialized -> Initialized` (construct phase) and
/// `Initialized -> Destroyed` (destruct phase), each taken at most
/// once.
#[derive(Clone, Copy, Debug, PartialEq, Eq, Structural)]
pub enum CellState {
    /// No value has been written yet; reading is forbidden.
    Uninitialized,
    /// The constructor procedure has run; reading is permitted.
    Initialized,
    /// The destructor procedure has run; reading is forbidden again.
    Destroyed,
}

/// The slot backing one eagerly initialized global.
pub struct StorageCell<V> {
    st: CellState,
    val: Option<V>,
}

impl<V> StorageCell<V> {
    /// Lifecycle state of the cell.
    pub closed spec fn state(self) -> CellState {
        self.st
    }

    /// The stored value, present exactly in the `Initialized` state.
    pub closed spec fn value_opt(self) -> Option<V> {
        self.val
    }

    /// Well-formedness: a value is held exactly while the cell is
    /// initialized.
    pub open spec fn wf(self) -> bool {
        self.value_opt() is Some <==> self.state() is Initialized
    }

    /// The cell is initialized and holds `v`.
    pub open spec fn holds(self, v: V) -> bool {
        &&& self.state() is Initialized
        &&& self.value_opt() == Some(v)
    }

    /// A fresh cell: uninitialized, holding nothing.
    pub fn new() -> (c: Self)
        ensures
            c.state() is Uninitialized,
            c.wf(),
    {
        StorageCell { st: CellState::Uninitialized, val: None }
    }

    /// The single write of the constructor procedure: evaluates to
    /// the initializer's result being stored, moving the cell from
    /// `Uninitialized` to `Initialized`.
    pub fn construct(&mut self, v: V)
        requires
            old(self).state() is Uninitialized,
            old(self).wf(),
        ensures
            final(self).holds(v),
            final(self).wf(),
    {
        self.st = CellState::Initialized;
        self.val = Some(v);
    }

    /// The single teardown of the destructor procedure: drops the
    /// stored value, moving the cell from `Initialized` to
    /// `Destroyed`.
    pub fn destruct(&mut self)
        requires
            old(self).state() is Initialized,
            old(self).wf(),
        ensures
            final(self).state() is Destroyed,
            final(self).wf(),
    {
        self.st = CellState::Destroyed;
        self.val = None;
    }

    /// The access facade's read path: yields a reference to the live
    /// value.  No runtime check is performed; the precondition is the
    /// structural guarantee that the construct phase has completed
    /// and the destruct phase has not begun.
    pub fn read(&self) -> (r: &V)
        requires
            self.state() is Initialized,
            self.wf(),
        ensures
            self.value_opt() == Some(*r),
            self.holds(*r),
    {
        self.val.as_ref().unwrap()
    }
}

/// The externally visible handle for one binding: a non-owning read
/// path into that binding's cell within the process's cell table.
#[derive(Clone, Copy, Debug, PartialEq, Eq, Structural)]
pub struct AccessFacade {
    /// Position of the binding's cell in the process's cell table.
    pub index: usize,
}

impl AccessFacade {
    /// Reads the bound global.  Valid only between the two lifecycle
    /// phases, when the cell is `Initialized`.
    pub fn read<'a, V>(&self, cells: &'a Vec<StorageCell<V>>) -> (r: &'a V)
        requires
            self.index < cells@.len(),
            cells@[self.index as int].state() is Initialized,
            cells@[self.index as int].wf(),
        ensures
            cells@[self.index as int].value_opt() == Some(*r),
    {
        cells[self.index].read()
    }
}

} // verus!
