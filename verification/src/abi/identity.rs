//! Who a session is: the boot, the mount and the epoch that name it.

use vstd::prelude::*;

verus! {

/// One boot of the machine.
#[derive(Clone, Copy, Debug, PartialEq, Eq, Structural)]
pub struct BootInstanceId {
    pub lo: u64,
    pub hi: u64,
}

/// One mount of one boot.
#[derive(Clone, Copy, Debug, PartialEq, Eq, Structural)]
pub struct MountId {
    pub lo: u64,
    pub hi: u64,
}

/// One session of one mount.
#[derive(Clone, Copy, Debug, PartialEq, Eq, Structural)]
pub struct SessionIdentity {
    pub boot_instance_id: BootInstanceId,
    pub mount_id: MountId,
    pub session_epoch: u64,
}

} // verus!
