//! The completion statuses the driver reports, as signed 32-bit values.

use vstd::prelude::*;

verus! {

/// The request succeeded.
pub const SUCCESS: i32 = 0;

/// The requestor may not do this.
pub const ACCESS_DENIED: i32 = -0x3FFF_FFDE;

/// The request is malformed.
pub const INVALID_PARAMETER: i32 = -0x3FFF_FFF3;

/// The request is well formed and not served.
pub const NOT_SUPPORTED: i32 = -0x3FFF_FF45;

/// The request speaks another revision of the ABI.
pub const REVISION_MISMATCH: i32 = -0x3FFF_FFA7;

/// Memory or another resource ran out.
pub const INSUFFICIENT_RESOURCES: i32 = -0x3FFF_FF66;

/// The named object does not exist.
pub const OBJECT_NAME_NOT_FOUND: i32 = -0x3FFF_FFCC;

/// The device is not in a state that admits the request.
pub const INVALID_DEVICE_STATE: i32 = -0x3FFF_FE7C;

/// The bits of a signed status.
pub open spec fn status_bits(status: i32) -> int {
    if status < 0 {
        status + 0x1_0000_0000
    } else {
        status as int
    }
}

/// Each status has the bits the kernel gives it. All but success are failures, and
/// no two are the same.
pub proof fn law_statuses_have_these_bits()
    ensures
        status_bits(SUCCESS) == 0,
        status_bits(ACCESS_DENIED) == 0xC000_0022,
        status_bits(INVALID_PARAMETER) == 0xC000_000D,
        status_bits(NOT_SUPPORTED) == 0xC000_00BB,
        status_bits(REVISION_MISMATCH) == 0xC000_0059,
        status_bits(INSUFFICIENT_RESOURCES) == 0xC000_009A,
        status_bits(OBJECT_NAME_NOT_FOUND) == 0xC000_0034,
        status_bits(INVALID_DEVICE_STATE) == 0xC000_0184,
{
}

} // verus!
