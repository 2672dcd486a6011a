//! What a device must offer to sit on the bus.

use crate::address::{GuestAddress, RegionIoEventFd};
use crate::bus::SysBus;
use crate::error::SysBusError;
use crate::irq::{brings, irq_step, IrqSignal, IrqStep};
use crate::resource::{resource_step, SysRes};
use vmm_sys_util::eventfd::EventFd;
use vstd::prelude::*;

verus! {

/// The kind of a device. The bus reads it once, at attachment, to pick the
/// address space that the device's region goes into.
#[derive(Clone, Copy, Debug, PartialEq, Eq, Structural)]
pub enum SysBusDevType {
    Serial,
    Rtc,
    VirtioMmio,
    Plic,
    FwCfg,
    Ramfb,
    PcieMem,
    Others,
}

/// Operations for sysbus devices.
pub trait SysBusDevOps: Send {
    /// What a read of the device in this state may do to the buffer, and
    /// what it may answer: it turns the buffer `data` into `filled`, and
    /// answers `accepted`. A device that says nothing here may do anything;
    /// the bus only passes on what is said.
    open spec fn reads(
        &self,
        data: Seq<u8>,
        filled: Seq<u8>,
        base: GuestAddress,
        offset: u64,
        accepted: bool,
    ) -> bool {
        true
    }

    /// What a write of `data` to the device in this state may answer.
    open spec fn writes(&self, data: Seq<u8>, base: GuestAddress, offset: u64, accepted: bool) -> bool {
        true
    }

    /// The descriptor that the device holds in this state, if it says so.
    /// A device that hands out a descriptor says by this where the bus's
    /// writes have gone.
    open spec fn resource(&self) -> Option<SysRes> {
        None
    }

    /// Read function of device.
    ///
    /// Fills `data` with what the device holds `offset` bytes past `base`,
    /// the base address of this device, and says whether it took the access.
    fn read(&mut self, data: &mut [u8], base: GuestAddress, offset: u64) -> (accepted: bool)
        ensures
            old(self).reads(old(data)@, final(data)@, base, offset, accepted),
    ;

    /// Write function of device.
    ///
    /// Takes `data` as written `offset` bytes past `base`, the base address
    /// of this device, and says whether it took the access.
    fn write(&mut self, data: &[u8], base: GuestAddress, offset: u64) -> (accepted: bool)
        ensures
            old(self).writes(data@, base, offset, accepted),
    ;

    /// The writes that the kernel may answer in the device's place.
    fn ioeventfds(&self) -> (fds: Vec<RegionIoEventFd>)
        default_ensures
            fds@.len() == 0,
    {
        Vec::new()
    }

    /// The signal by which the device raises its interrupt, if it has one.
    fn interrupt_evt(&self) -> (evt: Option<&EventFd>)
        default_ensures
            evt is None,
    {
        None
    }

    /// Allocates the device's interrupt on `sysbus`. `register` hands the
    /// device's signal to the hypervisor under the number it is given, and
    /// says whether the hypervisor took it.
    ///
    /// Whatever a device does here, it comes to this: the device is asked
    /// for its signal, the bus's cursor moves as the bus's own rule says for
    /// that signal and the hypervisor's answer, the number is the one that
    /// rule gives, and the device stays as it was.
    fn set_irq<A, D: ?Sized, F>(&mut self, sysbus: &mut SysBus<A, D>, register: F) -> (irq: Result<
        i32,
        SysBusError,
    >) where F: FnOnce(&EventFd, i32) -> bool, Self: Sized
        requires
            forall|evt: &EventFd| #[trigger]
                call_ensures(Self::interrupt_evt, (&*old(self),), Some(evt)) ==> {
                    &&& old(sysbus).cursor_fits()
                    &&& old(sysbus).min_free_irq <= old(sysbus).free_irqs.1 ==> call_requires(
                        register,
                        (evt, old(sysbus).min_free_irq),
                    )
                },
        ensures
            final(sysbus).same_but_cursor(old(sysbus)),
            old(sysbus).wf() ==> final(sysbus).wf(),
            &*final(self) == &*old(self),
            exists|evt: Option<&EventFd>, signal: IrqSignal|
                {
                    &&& call_ensures(Self::interrupt_evt, (&*old(self),), evt)
                    &&& #[trigger] brings(
                        register,
                        evt,
                        old(sysbus).min_free_irq,
                        old(sysbus).free_irqs.1,
                        signal,
                    )
                    &&& irq_step(old(sysbus).min_free_irq, old(sysbus).free_irqs.1, signal)
                        == (IrqStep { cursor: final(sysbus).min_free_irq, result: irq })
                },
    {
        let evt = self.interrupt_evt();
        sysbus.allocate_irq(evt, register)
    }

    /// The device's resource descriptor, if it has one.
    fn get_sys_resource(&mut self) -> (res: Option<&mut SysRes>)
        ensures
            res matches Some(slot) ==> final(self).resource() == Some(*final(slot)),
        default_ensures
            res is None,
            &*final(self) == &*old(self),
    {
        None
    }

    /// Gives the device its resources. The device is asked for its
    /// descriptor first, and one without a descriptor fails for want of it
    /// with the bus untouched. Then the interrupt is allocated as `set_irq`
    /// does, the device is asked for its descriptor once more, and the
    /// region and the interrupt are written into it. The descriptor is only
    /// written where the allocation succeeded. A device that had a
    /// descriptor at the first asking and has none at the second fails for
    /// want of it, with the interrupt allocated.
    ///
    /// Whatever a device does here, success means that its descriptor, if
    /// it has one, holds the region that was asked for and an interrupt
    /// that the bus's rule gave.
    fn set_sys_resource<A, D: ?Sized, F>(
        &mut self,
        sysbus: &mut SysBus<A, D>,
        region_base: u64,
        region_size: u64,
        register: F,
    ) -> (r: Result<(), SysBusError>) where F: FnOnce(&EventFd, i32) -> bool, Self: Sized
        requires
            forall|dev: &Self, evt: &EventFd| #[trigger]
                call_ensures(Self::interrupt_evt, (dev,), Some(evt)) ==> {
                    &&& old(sysbus).cursor_fits()
                    &&& old(sysbus).min_free_irq <= old(sysbus).free_irqs.1 ==> call_requires(
                        register,
                        (evt, old(sysbus).min_free_irq),
                    )
                },
        ensures
            r is Ok ==> (final(self).resource() matches Some(res) ==> {
                &&& res.region_base == region_base
                &&& res.region_size == region_size
                &&& exists|signal: IrqSignal| #[trigger]
                    irq_step(old(sysbus).min_free_irq, old(sysbus).free_irqs.1, signal) == (IrqStep {
                        cursor: final(sysbus).min_free_irq,
                        result: Ok(res.irq),
                    })
            }),
        default_ensures
            final(sysbus).same_but_cursor(old(sysbus)),
            old(sysbus).wf() ==> final(sysbus).wf(),
            exists|asked: &mut Self, found: Option<&mut SysRes>, signal: IrqSignal, has_slot: bool|
                #![trigger
                    call_ensures(Self::get_sys_resource, (asked,), found),
                    resource_step(
                        old(sysbus).min_free_irq,
                        old(sysbus).free_irqs.1,
                        signal,
                        has_slot,
                        region_base,
                        region_size,
                    ),
                ]
                {
                    let allocated = irq_step(
                        old(sysbus).min_free_irq,
                        old(sysbus).free_irqs.1,
                        signal,
                    );
                    let step = resource_step(
                        old(sysbus).min_free_irq,
                        old(sysbus).free_irqs.1,
                        signal,
                        has_slot,
                        region_base,
                        region_size,
                    );
                    &&& &*asked == &*old(self)
                    &&& call_ensures(Self::get_sys_resource, (asked,), found)
                    &&& found matches Some(slot) ==> *final(slot) == *slot
                    &&& has_slot == (found is Some)
                    &&& step.cursor == final(sysbus).min_free_irq
                    &&& !has_slot || allocated.result is Err ==> {
                        &&& r == step.result
                        &&& &*final(self) == &*final(asked)
                    }
                    &&& has_slot ==> exists|evt: Option<&EventFd>|
                        {
                            &&& call_ensures(Self::interrupt_evt, (&*final(asked),), evt)
                            &&& #[trigger] brings(
                                register,
                                evt,
                                old(sysbus).min_free_irq,
                                old(sysbus).free_irqs.1,
                                signal,
                            )
                        }
                    &&& has_slot && allocated.result is Ok ==> exists|
                        dev: &mut Self,
                        slot: Option<&mut SysRes>,
                    |
                        {
                            &&& &*dev == &*final(asked)
                            &&& &*final(dev) == &*final(self)
                            &&& #[trigger] call_ensures(Self::get_sys_resource, (dev,), slot)
                            &&& slot is Some ==> r == step.result && final(self).resource()
                                == step.written
                            &&& slot is None ==> r == Err::<(), SysBusError>(
                                SysBusError::MissingResourceSlot,
                            )
                        }
                },
    {
        let ghost cursor = sysbus.min_free_irq;
        let ghost hi = sysbus.free_irqs.1;
        let has_slot = match self.get_sys_resource() {
            Some(_) => true,
            None => false,
        };
        if !has_slot {
            assert(resource_step(
                cursor,
                hi,
                IrqSignal::Absent,
                false,
                region_base,
                region_size,
            ).cursor == cursor);
            return Err(SysBusError::MissingResourceSlot);
        }
        let allocated = self.set_irq(sysbus, register);
        let ghost (evt, signal) = choose|evt: Option<&EventFd>, signal: IrqSignal|
            {
                &&& call_ensures(Self::interrupt_evt, (&*self,), evt)
                &&& #[trigger] brings(register, evt, cursor, hi, signal)
                &&& irq_step(cursor, hi, signal) == (IrqStep {
                    cursor: sysbus.min_free_irq,
                    result: allocated,
                })
            };
        let irq = match allocated {
            Ok(irq) => irq,
            Err(e) => {
                assert(resource_step(cursor, hi, signal, true, region_base, region_size).result
                    == Err::<(), SysBusError>(e));
                return Err(e);
            },
        };
        let slot = self.get_sys_resource();
        let r = SysRes::assign(slot, region_base, region_size, irq);
        assert(resource_step(cursor, hi, signal, true, region_base, region_size).cursor
            == sysbus.min_free_irq);
        r
    }

    /// The kind of this device.
    fn get_type(&self) -> (ty: SysBusDevType)
        default_ensures
            ty == SysBusDevType::Others,
    {
        SysBusDevType::Others
    }

    /// Brings the device back to its state at power-on.
    fn reset(&mut self) -> (r: Result<(), String>)
        default_ensures
            r is Ok,
            &*final(self) == &*old(self),
    {
        Ok(())
    }
}

} // verus!
