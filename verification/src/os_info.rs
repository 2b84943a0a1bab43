use vstd::prelude::*;

verus! {

/// The system's short name.
pub const OS_NAME: &'static str = "MidAS";

/// The system's full name.
pub const OS_NAME_FULL: &'static str = "Midna Avery System";

/// The version of this release.
pub const VERSION: &'static str = "0.3.0";

/// The kernel's own version.
pub const KERNEL_VERSION: &'static str = "0.3";

/// The graphics interface's version.
pub const GUI_VERSION: &'static str = "1.0";

} // verus!
