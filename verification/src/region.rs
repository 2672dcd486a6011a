//! The way from a guest access to a device.

use crate::address::{GuestAddress, RegionIoEventFd};
use crate::device::SysBusDevOps;
use std::sync::Arc;
use std::sync::Mutex;
use vstd::prelude::*;

verus! {

/// The adapter between an address space and one device. An address space
/// keeps it for as long as it keeps the device's region. For every access
/// that falls into that region it takes the lock of `dev`, calls
/// `read_device` or `write_device` on the device behind it, and gives the
/// lock back.
#[verifier::reject_recursive_types(D)]
pub struct RegionOps<D: ?Sized> {
    pub dev: Arc<Mutex<D>>,
}

/// A region for an address space to take in: `size` bytes of guest addresses
/// whose accesses go to `ops`, and the writes in it that the kernel may
/// answer itself.
#[verifier::reject_recursive_types(D)]
pub struct Region<D: ?Sized> {
    pub size: u64,
    pub ops: RegionOps<D>,
    pub ioeventfds: Vec<RegionIoEventFd>,
}

/// The region of `size` bytes for the device `dev` with the write shortcuts
/// `ioeventfds`.
pub open spec fn io_region<D: ?Sized>(
    size: u64,
    dev: Arc<Mutex<D>>,
    ioeventfds: Vec<RegionIoEventFd>,
) -> Region<D> {
    Region { size, ops: RegionOps { dev }, ioeventfds }
}

/// A read that has reached the region of `dev`, `offset` bytes past the
/// region's base `addr`: one read of the device itself, with the same
/// buffer, the same base and the same offset. The answer is the device's
/// own, and the device and the buffer are left as that one read left them.
pub fn read_device<D: SysBusDevOps + ?Sized>(
    dev: &mut D,
    data: &mut [u8],
    addr: GuestAddress,
    offset: u64,
) -> (accepted: bool)
    ensures
        old(dev).reads(old(data)@, final(data)@, addr, offset, accepted),
        exists|d: &mut D, buf: &mut [u8]|
            {
                &&& &*d == &*old(dev)
                &&& &*final(d) == &*final(dev)
                &&& buf@ == old(data)@
                &&& final(buf)@ == final(data)@
                &&& #[trigger] call_ensures(D::read, (d, buf, addr, offset), accepted)
            },
{
    dev.read(data, addr, offset)
}

/// A write that has reached the region of `dev`, `offset` bytes past the
/// region's base `addr`: one write of the device itself, with the same
/// bytes, the same base and the same offset. The answer is the device's own,
/// and the device is left as that one write left it.
pub fn write_device<D: SysBusDevOps + ?Sized>(
    dev: &mut D,
    data: &[u8],
    addr: GuestAddress,
    offset: u64,
) -> (accepted: bool)
    ensures
        old(dev).writes(data@, addr, offset, accepted),
        exists|d: &mut D|
            {
                &&& &*d == &*old(dev)
                &&& &*final(d) == &*final(dev)
                &&& #[trigger] call_ensures(D::write, (d, data, addr, offset), accepted)
            },
{
    dev.write(data, addr, offset)
}

} // verus!
