//! The platforms the driver runs on.

use vstd::prelude::*;

verus! {

/// The platform a driver image was built for.
#[derive(Clone, Copy, Debug, PartialEq, Eq, Structural)]
pub enum PlatformProfile {
    /// Windows 7 on x64.
    Win7X64,
    /// Windows 10 on x64.
    Win10X64,
    /// Windows 10 on ARM64.
    Win10Arm64,
}

} // verus!
