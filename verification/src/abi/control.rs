//! The control requests: their codes and the body of a security-context
//! donation.
//!
//! The function numbers and the layout of the body are this crate's own
//! definition.

use vstd::prelude::*;

use crate::abi::bytes::read_le16;
use crate::abi::bytes::read_le32;
use crate::abi::status::INVALID_PARAMETER;
use crate::abi::status::NOT_SUPPORTED;
use crate::abi::status::REVISION_MISMATCH;

verus! {

/// The device type in every control code.
pub const FILE_DEVICE_UNKNOWN: u32 = 0x22;

/// The access every control code asks for: read and write.
pub const CONTROL_IOCTL_ACCESS: u32 = 3;

/// The transfer method of every control code.
pub const METHOD_BUFFERED: u32 = 0;

pub const IOCTL_FSRING_SETUP: u32 = 0x0022_e000;

pub const IOCTL_FSRING_ENTER: u32 = 0x0022_e004;

pub const IOCTL_FSRING_ATTACH: u32 = 0x0022_e008;

pub const IOCTL_FSRING_DONATE_BACKING: u32 = 0x0022_e00c;

pub const IOCTL_FSRING_DONATE_SECURITY_CONTEXT: u32 = 0x0022_e010;

pub const IOCTL_FSRING_DETACH: u32 = 0x0022_e014;

pub const IOCTL_FSRING_RETIRE_MOUNT: u32 = 0x0022_e018;

/// The bytes every control request begins with: its size, its version and the
/// features it requires.
pub const CONTROL_HEADER_BYTES: usize = 8;

/// The version of every control request.
pub const CONTROL_VERSION_V1: u16 = 1;

/// The size of a security-context donation.
pub const DONATE_SECURITY_CONTEXT_V1_SIZE: u32 = 32;

/// Why a control request body is refused.
#[derive(Clone, Copy, Debug, PartialEq, Eq, Structural)]
pub enum ControlBodyError {
    /// The version is not one this driver speaks.
    Version,
    /// The request requires a feature this driver does not have.
    RequiredFlags,
    /// A size, a range or a reserved byte is wrong.
    Malformed,
}

impl ControlBodyError {
    /// The status a request with this error completes with.
    pub open spec fn completes_with(self) -> i32 {
        match self {
            ControlBodyError::Version => REVISION_MISMATCH,
            ControlBodyError::RequiredFlags => NOT_SUPPORTED,
            ControlBodyError::Malformed => INVALID_PARAMETER,
        }
    }

    /// The status a request with this error completes with.
    pub fn status(self) -> (status: i32)
        ensures
            status == self.completes_with(),
    {
        match self {
            ControlBodyError::Version => REVISION_MISMATCH,
            ControlBodyError::RequiredFlags => NOT_SUPPORTED,
            ControlBodyError::Malformed => INVALID_PARAMETER,
        }
    }
}

/// What is wrong with the body of a security-context donation, if anything.
///
/// A body too short for a header exposes no version and is malformed. Then an
/// unknown version decides, then an unknown required feature, and only then the
/// size and the two words that must be zero.
pub open spec fn donation_error(body: Seq<u8>) -> Option<ControlBodyError> {
    if body.len() < CONTROL_HEADER_BYTES {
        Some(ControlBodyError::Malformed)
    } else if crate::abi::bytes::u16_at(body, 4) != CONTROL_VERSION_V1 {
        Some(ControlBodyError::Version)
    } else if crate::abi::bytes::u16_at(body, 6) != 0 {
        Some(ControlBodyError::RequiredFlags)
    } else if body.len() != DONATE_SECURITY_CONTEXT_V1_SIZE || crate::abi::bytes::u32_at(body, 0)
        != DONATE_SECURITY_CONTEXT_V1_SIZE || crate::abi::bytes::u32_at(body, 24) != 0
        || crate::abi::bytes::u32_at(body, 28) != 0 {
        Some(ControlBodyError::Malformed)
    } else {
        None
    }
}

/// Check the body of a security-context donation. The two identifiers it carries
/// are not restricted.
pub fn validate_donate_security_context_v1(body: &[u8]) -> (verdict: Result<(), ControlBodyError>)
    ensures
        verdict == match donation_error(body@) {
            Some(error) => Err(error),
            None => Ok(()),
        },
{
    if body.len() < CONTROL_HEADER_BYTES {
        return Err(ControlBodyError::Malformed);
    }
    if read_le16(body, 4) != CONTROL_VERSION_V1 {
        return Err(ControlBodyError::Version);
    }
    if read_le16(body, 6) != 0 {
        return Err(ControlBodyError::RequiredFlags);
    }
    if body.len() != DONATE_SECURITY_CONTEXT_V1_SIZE as usize {
        return Err(ControlBodyError::Malformed);
    }
    if read_le32(body, 0) != DONATE_SECURITY_CONTEXT_V1_SIZE || read_le32(body, 24) != 0
        || read_le32(body, 28) != 0 {
        return Err(ControlBodyError::Malformed);
    }
    Ok(())
}

/// A donation is well formed exactly where it has 32 bytes that say so, speaks
/// revision one, requires nothing, and ends in eight zero bytes; what stands
/// between is not looked at. A body too short for a header is malformed, then an
/// unknown revision goes first, then an unknown requirement.
pub proof fn law_donation_is_checked_in_order(body: Seq<u8>)
    ensures
        ({
            let answer = donation_error(body);
            let headed = body.len() >= 8;
            let known = body[4] == 1 && body[5] == 0;
            let plain = body[6] == 0 && body[7] == 0;
            let sized = body.len() == 32 && body[0] == 32 && body[1] == 0 && body[2] == 0 && body[3]
                == 0;
            let clear = forall|i: int| 24 <= i < 32 ==> body[i] == 0;
            &&& answer is None <==> headed && known && plain && sized && clear
            &&& answer == Some(ControlBodyError::Version) <==> headed && !known
            &&& answer == Some(ControlBodyError::RequiredFlags) <==> headed && known && !plain
            &&& answer == Some(ControlBodyError::Malformed) <==> !headed || (known && plain && !(
            sized && clear))
        }),
{
    crate::abi::bytes::law_reading_adds_up(body, 0);
    crate::abi::bytes::law_reading_adds_up(body, 4);
    crate::abi::bytes::law_reading_adds_up(body, 6);
    crate::abi::bytes::law_reading_adds_up(body, 24);
    crate::abi::bytes::law_reading_adds_up(body, 28);
    let clear = forall|i: int| 24 <= i < 32 ==> body[i] == 0;
    if crate::abi::bytes::u32_at(body, 24) == 0 && crate::abi::bytes::u32_at(body, 28) == 0 {
        assert(body[24] == 0 && body[25] == 0 && body[26] == 0 && body[27] == 0);
        assert(body[28] == 0 && body[29] == 0 && body[30] == 0 && body[31] == 0);
        assert forall|i: int| 24 <= i < 32 implies body[i] == 0 by {
            assert(i == 24 || i == 25 || i == 26 || i == 27 || i == 28 || i == 29 || i == 30 || i
                == 31);
        }
    }
}

/// The identifiers of a donation are not restricted: two bodies that differ only
/// between the header and the last eight bytes get the same verdict.
pub proof fn law_donated_identifiers_are_free(first: Seq<u8>, second: Seq<u8>)
    requires
        first.len() == second.len(),
        forall|i: int| 0 <= i < 8 ==> first[i] == second[i],
        forall|i: int| 24 <= i < 32 ==> first[i] == second[i],
    ensures
        donation_error(first) == donation_error(second),
{
    law_donation_is_checked_in_order(first);
    law_donation_is_checked_in_order(second);
}

/// Each fault of a body has its own status, and none of them is a success.
pub proof fn law_body_faults_have_their_statuses(error: ControlBodyError)
    ensures
        error.completes_with() == REVISION_MISMATCH <==> error == ControlBodyError::Version,
        error.completes_with() == NOT_SUPPORTED <==> error == ControlBodyError::RequiredFlags,
        error.completes_with() == INVALID_PARAMETER <==> error == ControlBodyError::Malformed,
        error.completes_with() != 0,
{
}

/// A donation is good exactly with thirty-two bytes that say so, of the first
/// version, without flags, and with its reserved words clear. What is too short for
/// a header is malformed; then the version is refused, then the flags, and what is
/// left is malformed.
pub proof fn law_donation_is_judged_by_its_bytes(
    body: &[u8],
    verdict: Result<(), ControlBodyError>,
)
    requires
        call_ensures(validate_donate_security_context_v1, (body,), verdict),
    ensures
        ({
            let headed = body@.len() >= 8;
            let known = body@[4] == 1 && body@[5] == 0;
            let plain = body@[6] == 0 && body@[7] == 0;
            let sized = body@.len() == 32 && body@[0] == 32 && body@[1] == 0 && body@[2] == 0
                && body@[3] == 0;
            let clear = forall|i: int| 24 <= i < 32 ==> body@[i] == 0;
            &&& verdict is Ok <==> headed && known && plain && sized && clear
            &&& verdict == Err::<(), _>(ControlBodyError::Version) <==> headed && !known
            &&& verdict == Err::<(), _>(ControlBodyError::RequiredFlags) <==> headed && known
                && !plain
            &&& verdict == Err::<(), _>(ControlBodyError::Malformed) <==> !headed || (known && plain
                && !(sized && clear))
        }),
{
    law_donation_is_checked_in_order(body@);
}

/// Each fault of a body completes with its own status, and none with success.
pub proof fn law_fault_completes_with_its_status(error: ControlBodyError, status: i32)
    requires
        call_ensures(ControlBodyError::status, (error,), status),
    ensures
        status == REVISION_MISMATCH <==> error == ControlBodyError::Version,
        status == NOT_SUPPORTED <==> error == ControlBodyError::RequiredFlags,
        status == INVALID_PARAMETER <==> error == ControlBodyError::Malformed,
        status != 0,
{
    law_body_faults_have_their_statuses(error);
}

/// A control body begins with eight bytes of header, and a donation of the first
/// version is thirty-two bytes long.
pub proof fn law_control_bodies_measure_this()
    ensures
        CONTROL_HEADER_BYTES == 8,
        CONTROL_VERSION_V1 == 1,
        DONATE_SECURITY_CONTEXT_V1_SIZE == 32,
{
}

} // verus!
