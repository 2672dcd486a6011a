//! The bus: the devices attached to it, in order, and the interrupt numbers
//! it has left.

use crate::address::{AddressRange, RegionIoEventFd};
use crate::device::{SysBusDevOps, SysBusDevType};
use crate::error::SysBusError;
use crate::irq::{brings, irq_step, IrqSignal, IrqStep};
use crate::region::{io_region, Region, RegionOps};
use std::sync::Arc;
use std::sync::Mutex;
use vmm_sys_util::eventfd::EventFd;
use vstd::prelude::*;

verus! {

/// The first interrupt number that a device can get. Number 0 is not used.
pub const IRQ_BASE: i32 = 1;

/// The last interrupt number that a device can get.
pub const IRQ_MAX: i32 = 1024;

/// The system bus of one machine.
///
/// `A` is the address space that the devices' regions go into, and `D` is
/// what the bus knows of a device; the bus shares both with the code that
/// builds the machine.
#[verifier::reject_recursive_types(A)]
#[verifier::reject_recursive_types(D)]
pub struct SysBus<A, D: ?Sized> {
    /// The space of the legacy I/O ports, on a machine that has one.
    pub sys_io: Option<Arc<A>>,
    /// The guest's memory.
    pub sys_mem: Arc<A>,
    /// The attached devices, in the order of their attachment.
    pub devices: Vec<Arc<Mutex<D>>>,
    /// The first and the last interrupt number of the bus.
    pub free_irqs: (i32, i32),
    /// The next interrupt number to hand out.
    pub min_free_irq: i32,
    /// The first and the last address for the devices' regions.
    pub mmio_region: (u64, u64),
    /// The next address to hand out.
    pub min_free_base: u64,
}

/// The devices of a bus after one attachment: with the new one at the end
/// where the address space took the region, unchanged where it did not.
pub open spec fn attach_step<H>(devices: Seq<H>, dev: H, inserted: bool) -> Seq<H> {
    if inserted {
        devices.push(dev)
    } else {
        devices
    }
}

/// What the caller of an attachment is told.
pub open spec fn attach_result(region_base: u64, region_size: u64, inserted: bool) -> Result<
    (),
    SysBusError,
> {
    if inserted {
        Ok(())
    } else {
        Err(SysBusError::RegionConflict { base: region_base, size: region_size })
    }
}

/// The devices of a bus after one attachment for each of `handles`, in
/// order, where `inserted` holds what the address space said to each.
pub open spec fn attach_all<H>(devices: Seq<H>, handles: Seq<H>, inserted: Seq<bool>) -> Seq<H>
    decreases handles.len(),
{
    if handles.len() == 0 {
        devices
    } else {
        attach_step(
            attach_all(devices, handles.drop_last(), inserted.drop_last()),
            handles.last(),
            inserted.last(),
        )
    }
}

/// The two ranges share an address: each begins before the other ends.
pub open spec fn overlap(a: AddressRange, b: AddressRange) -> bool {
    a.base.0 < b.base.0 + b.size && b.base.0 < a.base.0 + a.size
}

/// `inserted` is what an address space says to `ranges`, asked in order, if
/// it holds nothing at first, keeps what it takes, and turns down a range
/// exactly when it overlaps one that it holds.
pub open spec fn turns_down_overlaps(ranges: Seq<AddressRange>, inserted: Seq<bool>) -> bool {
    &&& inserted.len() == ranges.len()
    &&& forall|k: int|
        0 <= k < ranges.len() ==> (#[trigger] inserted[k] <==> forall|j: int|
            0 <= j < k && #[trigger] inserted[j] ==> !overlap(ranges[j], ranges[k]))
}

/// Attachments whose regions the address space takes, one and all: each
/// call succeeds and adds its device at the end of the list, so that the
/// list grows by one with every call and holds the devices in the order of
/// the calls.
pub proof fn lemma_attach_in_order<H>(devices: Seq<H>, handles: Seq<H>, inserted: Seq<bool>)
    requires
        inserted.len() == handles.len(),
        forall|k: int| 0 <= k < inserted.len() ==> inserted[k],
    ensures
        attach_all(devices, handles, inserted) == devices + handles,
        forall|k: int|
            0 <= k <= handles.len() ==> (#[trigger] attach_all(
                devices,
                handles.take(k),
                inserted.take(k),
            )).len() == devices.len() + k,
    decreases handles.len(),
{
    if handles.len() > 0 {
        lemma_attach_in_order(devices, handles.drop_last(), inserted.drop_last());
        assert(devices + handles == (devices + handles.drop_last()).push(handles.last()));
    } else {
        assert(devices + handles == devices);
    }
    assert forall|k: int| 0 <= k <= handles.len() implies (#[trigger] attach_all(
        devices,
        handles.take(k),
        inserted.take(k),
    )).len() == devices.len() + k by {
        if k == handles.len() {
            assert(handles.take(k) == handles);
            assert(inserted.take(k) == inserted);
        } else {
            assert(handles.drop_last().take(k) == handles.take(k));
            assert(inserted.drop_last().take(k) == inserted.take(k));
        }
    }
}

/// Regions of which no two overlap, put one after the other into an
/// address space that turns down overlaps only: every attachment succeeds,
/// and the list holds the devices in the order of the calls.
pub proof fn lemma_disjoint_regions_attach<H>(
    devices: Seq<H>,
    handles: Seq<H>,
    ranges: Seq<AddressRange>,
    inserted: Seq<bool>,
)
    requires
        handles.len() == ranges.len(),
        turns_down_overlaps(ranges, inserted),
        forall|j: int, k: int| 0 <= j < k < ranges.len() ==> !overlap(ranges[j], ranges[k]),
    ensures
        forall|k: int|
            0 <= k < ranges.len() ==> #[trigger] attach_result(
                ranges[k].base.0,
                ranges[k].size,
                inserted[k],
            ) is Ok,
        attach_all(devices, handles, inserted) == devices + handles,
        forall|k: int|
            0 <= k <= handles.len() ==> (#[trigger] attach_all(
                devices,
                handles.take(k),
                inserted.take(k),
            )).len() == devices.len() + k,
{
    assert forall|k: int| 0 <= k < inserted.len() implies inserted[k] by {
        assert(forall|j: int| 0 <= j < k && inserted[j] ==> !overlap(ranges[j], ranges[k]));
    }
    lemma_attach_in_order(devices, handles, inserted);
}

/// A region that overlaps one which the address space has taken before is
/// turned down: the attachment fails as a conflict over the range that was
/// asked for, and the list of devices stays as it was.
pub proof fn lemma_overlap_is_conflict<H>(
    devices: Seq<H>,
    handles: Seq<H>,
    ranges: Seq<AddressRange>,
    inserted: Seq<bool>,
    j: int,
    k: int,
)
    requires
        handles.len() == ranges.len(),
        turns_down_overlaps(ranges, inserted),
        0 <= j < k < ranges.len(),
        inserted[j],
        overlap(ranges[j], ranges[k]),
    ensures
        attach_result(ranges[k].base.0, ranges[k].size, inserted[k]) == Err::<(), SysBusError>(
            SysBusError::RegionConflict { base: ranges[k].base.0, size: ranges[k].size },
        ),
        attach_all(devices, handles.take(k + 1), inserted.take(k + 1)) == attach_all(
            devices,
            handles.take(k),
            inserted.take(k),
        ),
{
    assert(!inserted[k]);
    assert(handles.take(k + 1).drop_last() == handles.take(k));
    assert(inserted.take(k + 1).drop_last() == inserted.take(k));
}

impl<A, D: ?Sized> SysBus<A, D> {
    /// The interrupt cursor is where it can be: not before the first number
    /// of the range, and not past the number after the last, unless the
    /// range was empty from the start.
    pub open spec fn wf(&self) -> bool {
        &&& self.free_irqs.0 <= self.min_free_irq
        &&& (self.min_free_irq <= self.free_irqs.1 + 1 || self.min_free_irq == self.free_irqs.0)
    }

    /// The number after the cursor exists, if the cursor is in the range.
    pub open spec fn cursor_fits(&self) -> bool {
        self.min_free_irq <= self.free_irqs.1 ==> self.min_free_irq < i32::MAX
    }

    /// Nothing but the interrupt cursor tells the two buses apart.
    pub open spec fn same_but_cursor(&self, other: &Self) -> bool {
        &&& self.sys_io == other.sys_io
        &&& self.sys_mem == other.sys_mem
        &&& self.devices == other.devices
        &&& self.free_irqs == other.free_irqs
        &&& self.mmio_region == other.mmio_region
        &&& self.min_free_base == other.min_free_base
    }

    /// Nothing but the list of devices tells the two buses apart.
    pub open spec fn same_but_devices(&self, other: &Self) -> bool {
        &&& self.sys_io == other.sys_io
        &&& self.sys_mem == other.sys_mem
        &&& self.free_irqs == other.free_irqs
        &&& self.min_free_irq == other.min_free_irq
        &&& self.mmio_region == other.mmio_region
        &&& self.min_free_base == other.min_free_base
    }

    /// The address space that the region of a device of kind `ty` goes
    /// into: the I/O space for a serial device on a machine that has one,
    /// the memory in every other case.
    pub open spec fn space_for(&self, ty: SysBusDevType) -> Arc<A> {
        match self.sys_io {
            Some(io) if ty == SysBusDevType::Serial => io,
            _ => self.sys_mem,
        }
    }

    /// A bus without devices on a machine whose devices all live in memory.
    pub fn new(sys_mem: &Arc<A>, free_irqs: (i32, i32), mmio_region: (u64, u64)) -> (bus: Self)
        ensures
            bus.sys_io is None,
            bus.sys_mem == *sys_mem,
            bus.devices@.len() == 0,
            bus.free_irqs == free_irqs,
            bus.min_free_irq == free_irqs.0,
            bus.mmio_region == mmio_region,
            bus.min_free_base == mmio_region.0,
            bus.wf(),
    {
        SysBus {
            sys_io: None,
            sys_mem: sys_mem.clone(),
            devices: Vec::new(),
            free_irqs,
            min_free_irq: free_irqs.0,
            mmio_region,
            min_free_base: mmio_region.0,
        }
    }

    /// A bus without devices on a machine that has legacy I/O ports beside
    /// its memory.
    pub fn with_io(
        sys_io: &Arc<A>,
        sys_mem: &Arc<A>,
        free_irqs: (i32, i32),
        mmio_region: (u64, u64),
    ) -> (bus: Self)
        ensures
            bus.sys_io == Some(*sys_io),
            bus.sys_mem == *sys_mem,
            bus.devices@.len() == 0,
            bus.free_irqs == free_irqs,
            bus.min_free_irq == free_irqs.0,
            bus.mmio_region == mmio_region,
            bus.min_free_base == mmio_region.0,
            bus.wf(),
    {
        SysBus {
            sys_io: Some(sys_io.clone()),
            sys_mem: sys_mem.clone(),
            devices: Vec::new(),
            free_irqs,
            min_free_irq: free_irqs.0,
            mmio_region,
            min_free_base: mmio_region.0,
        }
    }

    /// Builds the adapter through which an address space reaches `dev`.
    pub fn build_region_ops(&self, dev: &Arc<Mutex<D>>) -> (ops: RegionOps<D>)
        ensures
            ops.dev == *dev,
    {
        RegionOps { dev: dev.clone() }
    }

    /// The address space for the region of a device of kind `ty`.
    pub fn target_space(&self, ty: SysBusDevType) -> (space: &Arc<A>)
        ensures
            *space == self.space_for(ty),
    {
        match &self.sys_io {
            Some(io) if ty == SysBusDevType::Serial => io,
            _ => &self.sys_mem,
        }
    }

    /// Puts `dev` on the list of the bus and nothing more: the device looks
    /// after its own region, and gets no interrupt here.
    pub fn attach_dynamic_device(&mut self, dev: &Arc<Mutex<D>>) -> (r: Result<(), SysBusError>)
        ensures
            r is Ok,
            final(self).devices@ == old(self).devices@.push(*dev),
            final(self).same_but_devices(old(self)),
            old(self).wf() ==> final(self).wf(),
    {
        self.devices.push(dev.clone());
        Ok(())
    }

    /// Allocates an interrupt for a device whose interrupt signal is `evt`.
    ///
    /// With no number left the allocation fails. A device without a signal
    /// is told -1, and the cursor stays. Otherwise `register` hands the
    /// signal to the hypervisor under the number at the cursor; if the
    /// hypervisor takes it, the device gets that number and the cursor
    /// moves on by one.
    pub fn allocate_irq<F>(&mut self, evt: Option<&EventFd>, register: F) -> (irq: Result<
        i32,
        SysBusError,
    >) where F: FnOnce(&EventFd, i32) -> bool
        requires
            evt is Some ==> old(self).cursor_fits(),
            evt matches Some(e) ==> (old(self).min_free_irq <= old(self).free_irqs.1
                ==> call_requires(register, (e, old(self).min_free_irq))),
        ensures
            final(self).same_but_cursor(old(self)),
            old(self).wf() ==> final(self).wf(),
            old(self).min_free_irq <= final(self).min_free_irq,
            exists|signal: IrqSignal|
                {
                    &&& #[trigger] brings(
                        register,
                        evt,
                        old(self).min_free_irq,
                        old(self).free_irqs.1,
                        signal,
                    )
                    &&& irq_step(old(self).min_free_irq, old(self).free_irqs.1, signal) == (IrqStep {
                        cursor: final(self).min_free_irq,
                        result: irq,
                    })
                },
    {
        let irq: i32 = self.min_free_irq;
        let ghost hi = self.free_irqs.1;
        if irq > self.free_irqs.1 {
            proof {
                let signal = if evt is None {
                    IrqSignal::Absent
                } else {
                    IrqSignal::Refused
                };
                assert(brings(register, evt, irq, hi, signal));
            }
            return Err(SysBusError::InterruptExhausted);
        }
        match evt {
            None => {
                assert(brings(register, evt, irq, hi, IrqSignal::Absent));
                Ok(-1)
            },
            Some(e) => {
                let registered = register(e, irq);
                if !registered {
                    assert(brings(register, evt, irq, hi, IrqSignal::Refused));
                    return Err(SysBusError::AccelerationRegistrationFailure);
                }
                self.min_free_irq = irq + 1;
                assert(brings(register, evt, irq, hi, IrqSignal::Registered));
                Ok(irq)
            },
        }
    }
}

impl<A, D: ?Sized> SysBus<A, D> {
    /// Attaches `dev` with a region of `region_size` bytes at `region_base`.
    ///
    /// `ty` and `ioeventfds` are the device's kind and the write shortcuts
    /// that it offers: the caller has asked the device for both. The bus
    /// builds the region, with the adapter for `dev` and those shortcuts,
    /// and picks the address space by the kind. `insert` puts the region
    /// into that space at `region_base` and says whether the space took it.
    /// If it did, the device goes to the end of the bus's list; if not, the
    /// attachment fails with the range that was asked for, and the list
    /// stays.
    pub fn attach_device<F>(
        &mut self,
        dev: &Arc<Mutex<D>>,
        ty: SysBusDevType,
        ioeventfds: Vec<RegionIoEventFd>,
        region_base: u64,
        region_size: u64,
        insert: F,
    ) -> (r: Result<(), SysBusError>) where F: FnOnce(&A, Region<D>, u64) -> bool
        requires
            call_requires(
                insert,
                (&*old(self).space_for(ty), io_region(region_size, *dev, ioeventfds), region_base),
            ),
        ensures
            final(self).same_but_devices(old(self)),
            old(self).wf() ==> final(self).wf(),
            exists|inserted: bool|
                {
                    &&& #[trigger] call_ensures(
                        insert,
                        (
                            &*old(self).space_for(ty),
                            io_region(region_size, *dev, ioeventfds),
                            region_base,
                        ),
                        inserted,
                    )
                    &&& final(self).devices@ == attach_step(old(self).devices@, *dev, inserted)
                    &&& r == attach_result(region_base, region_size, inserted)
                },
    {
        let region_ops = self.build_region_ops(dev);
        let region = Region { size: region_size, ops: region_ops, ioeventfds };
        let space: &A = &**self.target_space(ty);
        let inserted = insert(space, region, region_base);
        if !inserted {
            return Err(SysBusError::RegionConflict { base: region_base, size: region_size });
        }
        self.devices.push(dev.clone());
        Ok(())
    }
}

impl<A, D: ?Sized + SysBusDevOps> SysBus<A, D> {
    /// Attaches `dev` as `attach_device` does, and asks the device itself
    /// for its write shortcuts and its kind. `locked` is the device behind
    /// the lock of `dev`: the caller holds that lock for the call.
    pub fn attach_locked_device<F>(
        &mut self,
        dev: &Arc<Mutex<D>>,
        locked: &D,
        region_base: u64,
        region_size: u64,
        insert: F,
    ) -> (r: Result<(), SysBusError>) where F: FnOnce(&A, Region<D>, u64) -> bool
        requires
            forall|ty: SysBusDevType, ioeventfds: Vec<RegionIoEventFd>|
                call_ensures(D::ioeventfds, (locked,), ioeventfds) && call_ensures(
                    D::get_type,
                    (locked,),
                    ty,
                ) ==> #[trigger] call_requires(
                    insert,
                    (
                        &*old(self).space_for(ty),
                        io_region(region_size, *dev, ioeventfds),
                        region_base,
                    ),
                ),
        ensures
            final(self).same_but_devices(old(self)),
            old(self).wf() ==> final(self).wf(),
            exists|ty: SysBusDevType, ioeventfds: Vec<RegionIoEventFd>, inserted: bool|
                {
                    &&& call_ensures(D::ioeventfds, (locked,), ioeventfds)
                    &&& call_ensures(D::get_type, (locked,), ty)
                    &&& #[trigger] call_ensures(
                        insert,
                        (
                            &*old(self).space_for(ty),
                            io_region(region_size, *dev, ioeventfds),
                            region_base,
                        ),
                        inserted,
                    )
                    &&& final(self).devices@ == attach_step(old(self).devices@, *dev, inserted)
                    &&& r == attach_result(region_base, region_size, inserted)
                },
    {
        let ioeventfds = locked.ioeventfds();
        let ty = locked.get_type();
        self.attach_device(dev, ty, ioeventfds, region_base, region_size, insert)
    }
}

} // verus!
