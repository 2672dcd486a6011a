//! The ways in which building the bus can fail.

use vstd::prelude::*;

verus! {

/// Why an attachment or an allocation failed. None of these can be mended
/// where it occurs: each ends the construction of the machine.
#[derive(Clone, Copy, Debug, PartialEq, Eq, Structural)]
pub enum SysBusError {
    /// The address space turned the region down: the range is taken or is
    /// no range of that space.
    RegionConflict { base: u64, size: u64 },
    /// The interrupt cursor has passed the last number of the range.
    InterruptExhausted,
    /// The device has no resource descriptor to fill in.
    MissingResourceSlot,
    /// The hypervisor did not take the device's interrupt signal.
    AccelerationRegistrationFailure,
}

} // verus!
