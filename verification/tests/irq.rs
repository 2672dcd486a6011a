use std::sync::{Arc, Mutex};

use sysbus::{GuestAddress, SysBus, SysBusDevOps, SysBusError, SysRes, IRQ_BASE, IRQ_MAX};
use vmm_sys_util::eventfd::EventFd;

/// A device with or without an interrupt signal and a descriptor.
struct Card {
    evt: Option<EventFd>,
    res: Option<SysRes>,
}

impl Card {
    fn new(with_evt: bool, with_res: bool) -> Card {
        Card {
            evt: if with_evt { Some(EventFd::new(0).unwrap()) } else { None },
            res: if with_res { Some(SysRes::default()) } else { None },
        }
    }
}

impl SysBusDevOps for Card {
    fn read(&mut self, _data: &mut [u8], _base: GuestAddress, _offset: u64) -> bool {
        true
    }

    fn write(&mut self, _data: &[u8], _base: GuestAddress, _offset: u64) -> bool {
        true
    }

    fn interrupt_evt(&self) -> Option<&EventFd> {
        self.evt.as_ref()
    }

    fn get_sys_resource(&mut self) -> Option<&mut SysRes> {
        self.res.as_mut()
    }
}

struct Space;

fn bus(lo: i32, hi: i32) -> SysBus<Space, Card> {
    SysBus::new(&Arc::new(Space), (lo, hi), (0x1000, 0x2000))
}

fn taken(_evt: &EventFd, _irq: i32) -> bool {
    true
}

fn refused(_evt: &EventFd, _irq: i32) -> bool {
    false
}

#[test]
fn irq_range_of_the_platform() {
    assert_eq!(IRQ_BASE, 1);
    assert_eq!(IRQ_MAX, 1024);
}

#[test]
fn devices_with_a_signal_get_consecutive_numbers() {
    let mut bus = bus(32, 40);
    for n in 0..6 {
        let mut card = Card::new(true, true);
        assert_eq!(card.set_irq(&mut bus, taken), Ok(32 + n));
        assert_eq!(bus.min_free_irq, 33 + n);
    }
    assert_eq!(bus.free_irqs, (32, 40));
}

#[test]
fn device_without_a_signal_gets_minus_one() {
    let mut bus = bus(32, 40);
    let mut silent = Card::new(false, true);
    assert_eq!(silent.set_irq(&mut bus, taken), Ok(-1));
    assert_eq!(bus.min_free_irq, 32);
    let mut loud = Card::new(true, true);
    assert_eq!(loud.set_irq(&mut bus, taken), Ok(32));
    assert_eq!(silent.set_irq(&mut bus, taken), Ok(-1));
    assert_eq!(bus.min_free_irq, 33);
    assert_eq!(loud.set_irq(&mut bus, taken), Ok(33));
    assert_eq!(bus.min_free_irq, 34);
}

#[test]
fn register_is_asked_with_the_signal_and_the_number() {
    let mut bus = bus(7, 9);
    let card = Card::new(true, false);
    let asked = Arc::new(Mutex::new(Vec::new()));
    let log = asked.clone();
    let evt = card.evt.as_ref().unwrap();
    let r = bus.allocate_irq(Some(evt), move |e: &EventFd, irq: i32| {
        log.lock().unwrap().push((std::ptr::eq(e, evt), irq));
        true
    });
    assert_eq!(r, Ok(7));
    assert_eq!(*asked.lock().unwrap(), vec![(true, 7)]);
}

#[test]
fn register_is_not_asked_without_a_signal_or_a_number() {
    let mut bus = bus(7, 7);
    let asked = Arc::new(Mutex::new(0));
    let log = asked.clone();
    let r = bus.allocate_irq(None, move |_e: &EventFd, _irq: i32| {
        *log.lock().unwrap() += 1;
        true
    });
    assert_eq!(r, Ok(-1));
    let evt = EventFd::new(0).unwrap();
    assert_eq!(bus.allocate_irq(Some(&evt), taken), Ok(7));
    let log = asked.clone();
    let r = bus.allocate_irq(Some(&evt), move |_e: &EventFd, _irq: i32| {
        *log.lock().unwrap() += 1;
        true
    });
    assert_eq!(r, Err(SysBusError::InterruptExhausted));
    assert_eq!(*asked.lock().unwrap(), 0);
}

#[test]
fn last_number_goes_out_and_then_the_range_is_exhausted() {
    let mut bus = bus(5, 6);
    let mut loud = Card::new(true, true);
    let mut silent = Card::new(false, true);
    assert_eq!(loud.set_irq(&mut bus, taken), Ok(5));
    assert_eq!(loud.set_irq(&mut bus, taken), Ok(6));
    assert_eq!(bus.min_free_irq, 7);
    assert_eq!(loud.set_irq(&mut bus, taken), Err(SysBusError::InterruptExhausted));
    assert_eq!(bus.min_free_irq, 7);
    // With the range used up a device without a signal is turned away too.
    assert_eq!(silent.set_irq(&mut bus, taken), Err(SysBusError::InterruptExhausted));
    assert_eq!(loud.set_irq(&mut bus, refused), Err(SysBusError::InterruptExhausted));
    assert_eq!(bus.min_free_irq, 7);
}

#[test]
fn empty_range_is_exhausted_from_the_start() {
    let mut bus = bus(10, 9);
    let mut loud = Card::new(true, true);
    assert_eq!(loud.set_irq(&mut bus, taken), Err(SysBusError::InterruptExhausted));
    assert_eq!(bus.min_free_irq, 10);
}

#[test]
fn range_of_one_number() {
    let mut bus = bus(-3, -3);
    let mut loud = Card::new(true, true);
    assert_eq!(loud.set_irq(&mut bus, taken), Ok(-3));
    assert_eq!(bus.min_free_irq, -2);
    assert_eq!(loud.set_irq(&mut bus, taken), Err(SysBusError::InterruptExhausted));
}

#[test]
fn refused_registration_fails_and_keeps_the_number() {
    let mut bus = bus(32, 40);
    let mut loud = Card::new(true, true);
    assert_eq!(
        loud.set_irq(&mut bus, refused),
        Err(SysBusError::AccelerationRegistrationFailure)
    );
    assert_eq!(bus.min_free_irq, 32);
    assert_eq!(loud.set_irq(&mut bus, taken), Ok(32));
    assert_eq!(bus.min_free_irq, 33);
}

#[test]
fn sys_resource_is_filled_in() {
    let mut bus = bus(32, 40);
    let mut first = Card::new(true, true);
    let mut second = Card::new(true, true);
    let mut silent = Card::new(false, true);
    assert_eq!(first.set_sys_resource(&mut bus, 0x1000, 0x200, taken), Ok(()));
    assert_eq!(second.set_sys_resource(&mut bus, 0x1200, 0x80, taken), Ok(()));
    assert_eq!(silent.set_sys_resource(&mut bus, 0x1280, 0x8, taken), Ok(()));
    let res = first.res.unwrap();
    assert_eq!((res.region_base, res.region_size, res.irq), (0x1000, 0x200, 32));
    let res = second.res.unwrap();
    assert_eq!((res.region_base, res.region_size, res.irq), (0x1200, 0x80, 33));
    let res = silent.res.unwrap();
    assert_eq!((res.region_base, res.region_size, res.irq), (0x1280, 0x8, -1));
    assert_eq!(bus.min_free_irq, 34);
}

#[test]
fn missing_descriptor_fails_and_changes_nothing() {
    let mut bus = bus(32, 40);
    let mut bare = Card::new(false, false);
    assert_eq!(
        bare.set_sys_resource(&mut bus, 0x1000, 0x200, taken),
        Err(SysBusError::MissingResourceSlot)
    );
    assert_eq!(bus.min_free_irq, 32);
    assert_eq!(bus.free_irqs, (32, 40));
    assert_eq!(bus.devices.len(), 0);
    assert_eq!(bus.mmio_region, (0x1000, 0x2000));
    assert_eq!(bus.min_free_base, 0x1000);
}

#[test]
fn missing_descriptor_of_a_device_with_a_signal_changes_nothing() {
    let mut bus = bus(1, 1024);
    let mut bare = Card::new(true, false);
    let asked = Arc::new(Mutex::new(0));
    let log = asked.clone();
    let r = bare.set_sys_resource(&mut bus, 0x1000, 0x100, move |_e: &EventFd, _irq: i32| {
        *log.lock().unwrap() += 1;
        true
    });
    assert_eq!(r, Err(SysBusError::MissingResourceSlot));
    assert_eq!(bus.min_free_irq, 1);
    assert_eq!(*asked.lock().unwrap(), 0);
    // The number is still there for the next device.
    let mut next = Card::new(true, true);
    assert_eq!(next.set_sys_resource(&mut bus, 0x1000, 0x100, taken), Ok(()));
    assert_eq!(next.res.unwrap().irq, 1);
    assert_eq!(bus.min_free_irq, 2);
}

#[test]
fn missing_descriptor_is_found_whatever_the_cursor() {
    let mut bus = bus(5, 4);
    let mut loud = Card::new(true, false);
    let mut silent = Card::new(false, false);
    assert_eq!(
        loud.set_sys_resource(&mut bus, 0x1000, 0x100, taken),
        Err(SysBusError::MissingResourceSlot)
    );
    assert_eq!(
        silent.set_sys_resource(&mut bus, 0x1000, 0x100, refused),
        Err(SysBusError::MissingResourceSlot)
    );
    assert_eq!(bus.min_free_irq, 5);
}

#[test]
fn failed_allocation_leaves_the_descriptor_alone() {
    let mut bus = bus(32, 32);
    let mut first = Card::new(true, true);
    let mut late = Card::new(true, true);
    let mut bare = Card::new(false, false);
    assert_eq!(first.set_sys_resource(&mut bus, 0x1000, 0x10, taken), Ok(()));
    assert_eq!(
        late.set_sys_resource(&mut bus, 0x1010, 0x10, taken),
        Err(SysBusError::InterruptExhausted)
    );
    let res = late.res.unwrap();
    assert_eq!((res.region_base, res.region_size, res.irq), (0, 0, -1));
    // The missing descriptor is found before the exhausted range.
    assert_eq!(
        bare.set_sys_resource(&mut bus, 0x1020, 0x10, taken),
        Err(SysBusError::MissingResourceSlot)
    );
    assert_eq!(bus.min_free_irq, 33);
    let mut other = bus_with_refusal();
    let mut card = Card::new(true, true);
    assert_eq!(
        card.set_sys_resource(&mut other, 0x1000, 0x10, refused),
        Err(SysBusError::AccelerationRegistrationFailure)
    );
    let res = card.res.unwrap();
    assert_eq!((res.region_base, res.region_size, res.irq), (0, 0, -1));
    assert_eq!(other.min_free_irq, 1);
}

fn bus_with_refusal() -> SysBus<Space, Card> {
    bus(IRQ_BASE, IRQ_MAX)
}

#[test]
fn assign_writes_the_descriptor_it_is_given() {
    let mut res = SysRes::default();
    assert_eq!(SysRes::assign(Some(&mut res), 0xfee0_0000, 0x1000, 17), Ok(()));
    assert_eq!((res.region_base, res.region_size, res.irq), (0xfee0_0000, 0x1000, 17));
    assert_eq!(SysRes::assign(None, 1, 2, 3), Err(SysBusError::MissingResourceSlot));
    assert_eq!((res.region_base, res.region_size, res.irq), (0xfee0_0000, 0x1000, 17));
}

#[test]
fn whole_platform_range_goes_out_in_order() {
    let mut bus = bus(IRQ_BASE, IRQ_MAX);
    let evt = EventFd::new(0).unwrap();
    for n in IRQ_BASE..=IRQ_MAX {
        assert_eq!(bus.allocate_irq(Some(&evt), taken), Ok(n));
    }
    assert_eq!(bus.min_free_irq, IRQ_MAX + 1);
    assert_eq!(bus.allocate_irq(Some(&evt), taken), Err(SysBusError::InterruptExhausted));
    assert_eq!(bus.allocate_irq(None, taken), Err(SysBusError::InterruptExhausted));
}

#[test]
fn device_takes_its_resources_from_a_bus_of_mixed_devices() {
    let mut bus: SysBus<Space, dyn SysBusDevOps> =
        SysBus::new(&Arc::new(Space), (IRQ_BASE, IRQ_MAX), (0x1000_0000, 0x2000_0000));
    let mut card = Card::new(true, true);
    assert_eq!(card.set_sys_resource(&mut bus, 0x1000_0000, 0x1000, taken), Ok(()));
    let res = card.res.unwrap();
    assert_eq!((res.region_base, res.region_size, res.irq), (0x1000_0000, 0x1000, IRQ_BASE));
    let dev: Arc<Mutex<dyn SysBusDevOps>> = Arc::new(Mutex::new(card));
    assert_eq!(
        bus.attach_device(
            &dev,
            sysbus::SysBusDevType::Others,
            Vec::new(),
            0x1000_0000,
            0x1000,
            |_space, _region, _base| true
        ),
        Ok(())
    );
    assert_eq!(bus.devices.len(), 1);
    assert_eq!(bus.min_free_irq, IRQ_BASE + 1);
    let res = *bus.devices[0].lock().unwrap().get_sys_resource().unwrap();
    assert_eq!((res.region_base, res.region_size, res.irq), (0x1000_0000, 0x1000, IRQ_BASE));
}
