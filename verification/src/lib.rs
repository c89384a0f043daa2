//! Eager, pre-entry-point initialization of process-wide global values.
//!
//! A consumer declares a named global together with an initializer
//! procedure; the initializer runs exactly once before the program's
//! entry point and a matching teardown runs exactly once after it
//! returns.  Ordering between globals is controlled by a single numeric
//! priority that is encoded into the name of the binary section holding
//! the registered constructor and destructor function pointers, so that
//! the platform loader's own walking order reflects the declared
//! priority and no runtime check or synchronization is ever needed.
//!
//! Usage preconditions, documented rather than checked: an
//! initializer procedure must not start threads (the runtime
//! environment is not live yet before the entry point), must not
//! reference another binding produced by this system (relative
//! construction order across bindings is only partially controlled,
//! and bindings with equal priority run in unspecified relative
//! order), and must not reference the binding it is itself
//! initializing.  On the Apple-like family no ordering control
//! exists at all: all bindings run in loader-determined order and
//! priority is ignored — a platform limitation, not a defect.

use vstd::prelude::*;

pub mod descriptor;
pub mod generate;
pub mod lifecycle;
pub mod platform;
pub mod schedule;
pub mod section;
pub mod storage;

verus! {

} // verus!
