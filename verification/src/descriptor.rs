//! Binding descriptors and the capability checker.
//!
//! A binding descriptor is the resolved description of one declared
//! global: its name, the capabilities of its value type, its priority
//! and its visibility.  Before any code is generated for it, the
//! capability checker verifies that the value type can be shared by
//! concurrent readers without synchronization and has a fixed, known
//! memory footprint; failing either is a build-time error.

use vstd::prelude::*;

verus! {

/// The priority used when a declaration gives none: the maximum
/// value, so that defaults initialize last and destroy first.
pub const DEFAULT_PRIORITY: u16 = 65535;

/// The two compile-time capabilities a value type must have to back
/// an eagerly initialized global safely.
#[derive(Clone, Copy, Debug, PartialEq, Eq, Structural)]
pub struct TypeCapabilities {
    /// The type may be read by many threads at once with no added
    /// synchronization.
    pub cross_thread_sharing: bool,
    /// The type's storage size is statically known and fixed.
    pub fixed_layout: bool,
}

impl TypeCapabilities {
    /// Both required capabilities hold.
    pub open spec fn eager_safe(self) -> bool {
        self.cross_thread_sharing && self.fixed_layout
    }
}

/// Access scope of the generated facade.  Visibility has no effect on
/// the lifecycle; it only scopes the generated handle.
#[derive(Clone, Copy, Debug, PartialEq, Eq, Structural)]
pub enum Visibility {
    /// Visible only where the declaration stands.
    Inherited,
    /// Visible throughout the declaring crate.
    Crate,
    /// Visible to downstream users.
    Public,
}

/// A value type lacks a capability required for eager globals.
#[derive(Clone, Copy, Debug, PartialEq, Eq, Structural)]
pub enum CapabilityError {
    /// The type cannot be shared across concurrent readers.
    NotCrossThreadSharable,
    /// The type has no statically known, fixed memory footprint.
    NoFixedLayout,
}

/// The resolved, validated description of one declared global.
#[derive(Clone, Debug)]
pub struct BindingDescriptor {
    /// Unique identifier of the binding within its declaring scope.
    pub name: String,
    /// Capabilities of the value type the binding stores.
    pub capabilities: TypeCapabilities,
    /// Ordering hint; encoded into section names on families that
    /// honor it.
    pub priority: u16,
    /// Access scope of the generated facade.
    pub visibility: Visibility,
}

/// Gate of the generator: passes exactly when the value type has both
/// required capabilities, and otherwise reports the first missing
/// one, the cross-thread-sharing capability being checked first.
pub fn check_capabilities(caps: &TypeCapabilities) -> (r: Result<(), CapabilityError>)
    ensures
        r is Ok <==> caps.eager_safe(),
        !caps.cross_thread_sharing ==> r == Result::<(), CapabilityError>::Err(
            CapabilityError::NotCrossThreadSharable,
        ),
        caps.cross_thread_sharing && !caps.fixed_layout ==> r == Result::<
            (),
            CapabilityError,
        >::Err(CapabilityError::NoFixedLayout),
{
    if !caps.cross_thread_sharing {
        Err(CapabilityError::NotCrossThreadSharable)
    } else if !caps.fixed_layout {
        Err(CapabilityError::NoFixedLayout)
    } else {
        Ok(())
    }
}

} // verus!
