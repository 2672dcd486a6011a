//! Guest addresses, and the write shortcuts that a device may offer.

use std::sync::Arc;
use vmm_sys_util::eventfd::EventFd;
use vstd::prelude::*;

verus! {

/// `EventFd` of vmm-sys-util: a counter in the kernel behind a file
/// descriptor. The bus never looks inside one; it carries them from a device
/// to whoever signals with them.
#[verifier::external_type_specification]
#[verifier::external_body]
pub struct ExEventFd(EventFd);

/// An address in the guest's physical address space.
#[derive(Clone, Copy, Debug, PartialEq, Eq, Structural)]
pub struct GuestAddress(pub u64);

/// `size` bytes of guest addresses from `base` on.
#[derive(Clone, Copy, Debug, PartialEq, Eq, Structural)]
pub struct AddressRange {
    pub base: GuestAddress,
    pub size: u64,
}

/// A write that the kernel answers by signalling `fd`, without calling the
/// device: one to `addr_range`, and, where `data_match` is set, of the value
/// `data` only.
pub struct RegionIoEventFd {
    pub fd: Arc<EventFd>,
    pub addr_range: AddressRange,
    pub data_match: bool,
    pub data: u64,
}

} // verus!
