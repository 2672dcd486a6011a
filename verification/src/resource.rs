//! The record of what the bus assigned to a device.

use crate::error::SysBusError;
use crate::irq::{irq_step, IrqSignal};
use vstd::prelude::*;

verus! {

/// The address range and the interrupt number of one device.
///
/// An `irq` of -1 says that no interrupt is assigned.
#[derive(Clone, Copy, Debug)]
pub struct SysRes {
    pub region_base: u64,
    pub region_size: u64,
    pub irq: i32,
}

impl SysRes {
    /// The descriptor of a device to which nothing is assigned yet.
    pub open spec fn unassigned() -> SysRes {
        SysRes { region_base: 0, region_size: 0, irq: -1i32 }
    }

    /// Writes an assignment into the descriptor that a device offers, and
    /// fails where the device offers none.
    pub fn assign(slot: Option<&mut SysRes>, region_base: u64, region_size: u64, irq: i32) -> (r:
        Result<(), SysBusError>)
        ensures
            slot matches Some(res) ==> r == Ok::<(), SysBusError>(()) && *final(res) == (SysRes {
                region_base,
                region_size,
                irq,
            }),
            slot is None ==> r == Err::<(), SysBusError>(SysBusError::MissingResourceSlot),
    {
        match slot {
            Some(res) => {
                res.region_base = region_base;
                res.region_size = region_size;
                res.irq = irq;
                Ok(())
            },
            None => Err(SysBusError::MissingResourceSlot),
        }
    }
}

impl Default for SysRes {
    fn default() -> (res: Self)
        ensures
            res == SysRes::unassigned(),
    {
        SysRes { region_base: 0, region_size: 0, irq: -1 }
    }
}

/// The outcome of giving a device its resources: where the interrupt cursor
/// stands afterwards, what the device's descriptor holds if it was written,
/// and what the caller is told.
pub struct ResourceStep {
    pub cursor: i32,
    pub written: Option<SysRes>,
    pub result: Result<(), SysBusError>,
}

/// Giving a device its resources. A device without a descriptor is turned
/// away before anything else happens. For one with a descriptor an
/// interrupt is allocated; if that fails, it ends there, and if not, the
/// descriptor is filled in.
pub open spec fn resource_step(
    cursor: i32,
    hi: i32,
    signal: IrqSignal,
    has_slot: bool,
    region_base: u64,
    region_size: u64,
) -> ResourceStep {
    if !has_slot {
        ResourceStep { cursor, written: None, result: Err(SysBusError::MissingResourceSlot) }
    } else {
        let allocated = irq_step(cursor, hi, signal);
        match allocated.result {
            Err(e) => ResourceStep { cursor: allocated.cursor, written: None, result: Err(e) },
            Ok(irq) => ResourceStep {
                cursor: allocated.cursor,
                written: Some(SysRes { region_base, region_size, irq }),
                result: Ok(()),
            },
        }
    }
}

/// A device without a descriptor fails for want of one, whatever the
/// cursor is and whatever signal the device has, and nothing has changed:
/// the cursor stands where it stood, and nothing was written.
pub proof fn lemma_missing_slot(
    cursor: i32,
    hi: i32,
    signal: IrqSignal,
    region_base: u64,
    region_size: u64,
)
    ensures
        resource_step(cursor, hi, signal, false, region_base, region_size) == (ResourceStep {
            cursor,
            written: None,
            result: Err(SysBusError::MissingResourceSlot),
        }),
{
}

/// A device gets its resources exactly when it has a descriptor and its
/// interrupt is allocated, and then the descriptor holds the range that was
/// asked for and that interrupt.
pub proof fn lemma_success_is_written(
    cursor: i32,
    hi: i32,
    signal: IrqSignal,
    has_slot: bool,
    region_base: u64,
    region_size: u64,
)
    ensures
        ({
            let step = resource_step(cursor, hi, signal, has_slot, region_base, region_size);
            step.result is Ok <==> step.written is Some
        }),
        ({
            let step = resource_step(cursor, hi, signal, has_slot, region_base, region_size);
            step.result is Ok <==> has_slot && irq_step(cursor, hi, signal).result is Ok
        }),
        ({
            let step = resource_step(cursor, hi, signal, has_slot, region_base, region_size);
            step.written matches Some(res) ==> res.region_base == region_base && res.region_size
                == region_size && irq_step(cursor, hi, signal).result == Ok::<i32, SysBusError>(
                res.irq,
            )
        }),
{
}

} // verus!
