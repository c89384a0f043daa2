//! Storage and registration generator.
//!
//! Given a validated binding descriptor and a target platform family,
//! the generator decides everything that is emitted for the binding:
//! the name of the hidden module that owns the storage cell, and the
//! two registration entries (constructor and destructor) with the
//! section names the loader will honor.  Generation fails, before any
//! artifact exists, when the value type lacks a required capability
//! or when the platform family has no native table mechanism.

use vstd::prelude::*;

use crate::descriptor::{BindingDescriptor, CapabilityError, check_capabilities};
use crate::platform::{Phase, PlatformFamily};
use crate::section::{PlatformError, section_name, section_name_spec};

verus! {

/// What `str::to_lowercase` returns for a given character sequence.
/// The result depends on the characters alone.
pub uninterp spec fn lower_of(s: Seq<char>) -> Seq<char>;

/// Relies on `str::to_lowercase`: returns the lowercase equivalent of
/// the string, a function of its characters alone; an empty string
/// stays empty.
#[verifier::external_body]
fn lowercase(s: &str) -> (r: String)
    ensures
        r@ == lower_of(s@),
        s@.len() == 0 ==> r@.len() == 0,
{
    s.to_lowercase()
}

/// The name of the generated module that owns one binding's storage
/// cell: a fixed prefix followed by the lowercased binding name.
pub open spec fn module_ident_spec(name: Seq<char>) -> Seq<char> {
    "__static_init_module_n"@ + lower_of(name)
}

/// The identifier of the hidden module generated for a binding.
pub fn module_ident(name: &str) -> (r: String)
    ensures
        r@ == module_ident_spec(name@),
{
    let mut s = String::from_str("__static_init_module_n");
    s.append(lowercase(name).as_str());
    s
}

/// A build-time generation failure; nothing is emitted when one
/// arises.
#[derive(Clone, Copy, Debug, PartialEq, Eq, Structural)]
pub enum BuildError {
    /// The value type lacks a capability required for eager globals.
    Capability(CapabilityError),
    /// The target platform family is not supported.
    Platform(PlatformError),
}

/// One function-pointer record placed at link time into the section
/// named by the scheduler for its phase and the binding's priority.
#[derive(Clone, Debug)]
pub struct RegistrationEntry {
    /// The binary section the record is placed into.
    pub section: String,
    /// The lifecycle phase whose table the section belongs to.
    pub phase: Phase,
    /// The binding's ordering hint, as encoded into the section name.
    pub priority: u16,
}

/// Everything emitted for one binding: the owning module's name and
/// the two registration entries.  The storage cell itself starts in
/// the `Uninitialized` state when the process image is formed.
#[derive(Clone, Debug)]
pub struct GeneratedModule {
    /// Identifier of the hidden module that owns the storage cell.
    pub module_ident: String,
    /// The record the loader invokes during the construct phase.
    pub constructor: RegistrationEntry,
    /// The record the loader invokes during the destruct phase.
    pub destructor: RegistrationEntry,
}

/// The emitted artifacts agree with the descriptor and the target
/// family: correct module name, and per phase the scheduler's section
/// name at the binding's priority.
pub open spec fn generated_for(
    gm: GeneratedModule,
    desc: BindingDescriptor,
    family: PlatformFamily,
) -> bool {
    &&& gm.module_ident@ == module_ident_spec(desc.name@)
    &&& gm.constructor.phase is Construct
    &&& gm.constructor.priority == desc.priority
    &&& gm.constructor.section@ == section_name_spec(
        family,
        Phase::Construct,
        desc.priority as int,
    )
    &&& gm.destructor.phase is Destruct
    &&& gm.destructor.priority == desc.priority
    &&& gm.destructor.section@ == section_name_spec(family, Phase::Destruct, desc.priority as int)
}

/// Emits the artifacts for one binding, or fails at build time:
/// generation succeeds exactly when the value type has both required
/// capabilities and the family is supported, the capability gate
/// being checked before the scheduler.
pub fn generate(desc: &BindingDescriptor, family: PlatformFamily) -> (r: Result<
    GeneratedModule,
    BuildError,
>)
    ensures
        r is Ok <==> desc.capabilities.eager_safe() && family.is_supported(),
        r matches Ok(gm) ==> generated_for(gm, *desc, family),
        !desc.capabilities.cross_thread_sharing ==> r == Result::<
            GeneratedModule,
            BuildError,
        >::Err(BuildError::Capability(CapabilityError::NotCrossThreadSharable)),
        desc.capabilities.cross_thread_sharing && !desc.capabilities.fixed_layout ==> r
            == Result::<GeneratedModule, BuildError>::Err(
            BuildError::Capability(CapabilityError::NoFixedLayout),
        ),
        desc.capabilities.eager_safe() && family is Unsupported ==> r == Result::<
            GeneratedModule,
            BuildError,
        >::Err(BuildError::Platform(PlatformError::UnsupportedFamily)),
{
    match check_capabilities(&desc.capabilities) {
        Ok(_) => (),
        Err(e) => {
            return Err(BuildError::Capability(e));
        },
    }
    let ctor_section = match section_name(family, Phase::Construct, desc.priority) {
        Ok(s) => s,
        Err(e) => {
            return Err(BuildError::Platform(e));
        },
    };
    let dtor_section = match section_name(family, Phase::Destruct, desc.priority) {
        Ok(s) => s,
        Err(e) => {
            return Err(BuildError::Platform(e));
        },
    };
    Ok(
        GeneratedModule {
            module_ident: module_ident(desc.name.as_str()),
            constructor: RegistrationEntry {
                section: ctor_section,
                phase: Phase::Construct,
                priority: desc.priority,
            },
            destructor: RegistrationEntry {
                section: dtor_section,
                phase: Phase::Destruct,
                priority: desc.priority,
            },
        },
    )
}

} // verus!
