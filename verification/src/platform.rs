//! Platform families and lifecycle phases.
//!
//! Every supported operating system provides an ordered table of
//! function pointers that the loader walks before the entry point runs
//! (the construct phase) and after it returns (the destruct phase).
//! The three families below differ only in how the table's sections
//! are named; a target outside them is rejected at build time.

use vstd::prelude::*;

verus! {

/// The kind of native constructor/destructor table a target offers.
#[derive(Clone, Copy, Debug, PartialEq, Eq, Structural)]
pub enum PlatformFamily {
    /// Targets whose loader walks `.CRT$X..` sections.
    WindowsLike,
    /// Targets with fixed module-init / module-term section pairs and
    /// no priority control.
    AppleLike,
    /// Targets whose loader walks `.init_array` / `.fini_array`
    /// sections.
    UnixLike,
    /// Targets with no native before/after-entry-point mechanism;
    /// rejected at build time.
    Unsupported,
}

/// The two loader-driven lifecycle phases.
#[derive(Clone, Copy, Debug, PartialEq, Eq, Structural)]
pub enum Phase {
    /// Runs before the entry point: writes each storage cell once.
    Construct,
    /// Runs after the entry point returns: destroys each cell once.
    Destruct,
}

impl PlatformFamily {
    /// A family the section scheduler can target.
    pub open spec fn is_supported(self) -> bool {
        self !is Unsupported
    }
}

/// Which family a target operating system name falls in.
pub open spec fn family_of_target_os_spec(os: Seq<char>) -> PlatformFamily {
    if os == "windows"@ {
        PlatformFamily::WindowsLike
    } else if os == "macos"@ || os == "ios"@ {
        PlatformFamily::AppleLike
    } else if os == "linux"@ || os == "android"@ {
        PlatformFamily::UnixLike
    } else {
        PlatformFamily::Unsupported
    }
}

/// Character-for-character string equality.
fn str_eq_chars(a: &str, b: &str) -> (r: bool)
    ensures
        r == (a@ == b@),
{
    let na = a.unicode_len();
    let nb = b.unicode_len();
    if na != nb {
        return false;
    }
    let mut i: usize = 0;
    while i < na
        invariant
            i <= na,
            na == a@.len(),
            nb == b@.len(),
            na == nb,
            forall|j: int| 0 <= j < i ==> a@[j] == b@[j],
        decreases na - i,
    {
        if a.get_char(i) != b.get_char(i) {
            return false;
        }
        i = i + 1;
    }
    proof {
        assert(a@ =~= b@);
    }
    true
}

/// Classifies a target operating system name into the family whose
/// native table mechanism the generated code will use.
pub fn family_of_target_os(os: &str) -> (f: PlatformFamily)
    ensures
        f == family_of_target_os_spec(os@),
{
    if str_eq_chars(os, "windows") {
        PlatformFamily::WindowsLike
    } else if str_eq_chars(os, "macos") || str_eq_chars(os, "ios") {
        PlatformFamily::AppleLike
    } else if str_eq_chars(os, "linux") || str_eq_chars(os, "android") {
        PlatformFamily::UnixLike
    } else {
        PlatformFamily::Unsupported
    }
}

} // verus!
