//! The system bus of a virtual machine monitor.
//!
//! The bus keeps the ordered list of the devices attached to it, hands out
//! interrupt numbers from a fixed range, one after the other, and places each
//! device's register window in a guest address space. Guest accesses reach a
//! device through the adapter that the bus builds for it.
//!
//! The address space and the hypervisor are not part of this crate. Where
//! the bus needs one of them, it takes the call as an argument: `insert`
//! puts a region into an address space, `register` hands an interrupt
//! signal to the hypervisor. What the bus does with their answers is stated
//! in the contracts, over the rules in [`irq`] and [`bus`].
//!
//! A device is shared behind a lock. The bus never takes it: the functions
//! here that call into a device take the device itself, from whoever holds
//! its lock.

pub mod address;
pub mod bus;
pub mod device;
pub mod error;
pub mod exit_code;
pub mod irq;
pub mod region;
pub mod resource;
mod sync;

pub use address::{AddressRange, GuestAddress, RegionIoEventFd};
pub use bus::{SysBus, IRQ_BASE, IRQ_MAX};
pub use device::{SysBusDevOps, SysBusDevType};
pub use error::SysBusError;
pub use exit_code::ExitCode;
pub use region::{read_device, write_device, Region, RegionOps};
pub use resource::SysRes;
