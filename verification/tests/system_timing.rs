use lib::arm_core::{
    barrier_arrive, boot_path, reset, secondary_core_release_address, wait_cycles, BootPath, ExceptionLevel,
    RmrElx, SystemRegister, TpidrElx, CORE_COUNT,
};
use lib::hal::counter::{
    disable_interrupt, enable_interrupt, frequency, is_interrupt_enabled, is_interrupt_masked,
    is_timer_condition_met, mask_interrupt, set_timer_val, unmask_interrupt, uptime, PointInTime,
};
use lib::hal::thread::{id, set_id, spin_wait_cycles, spin_wait_done, spin_wait_for};
use lib::registers::special::{CntVOffEl2, ElrEl, SpEl, VbarEl};
use lib::screen::{Offset, Overscan, ScreenGeometry, Size};
use lib::system::{initialize, InitStep};

#[test]
fn points_in_time() {
    let start = PointInTime::now(1000, 0x1_0000_0064);
    assert_eq!(start.frequency, 100);
    assert_eq!(start.counter_val, 1000);
    let later = start.add(1_000_000_000);
    assert_eq!(later.counter_val, 1100);
    assert_eq!(later.sub(start), 1_000_000_000);
    assert_eq!(start.elapsed(later), 1_000_000_000);
    assert!(later.is_in_the_future(1099));
    assert!(!later.is_in_the_future(1100));
    assert!(!later.is_in_the_future_ordered(1200));
    assert_eq!(later.set_as_compare_val(), 1100);
    assert_eq!(uptime(PointInTime { counter_val: 250, frequency: 100 }), 2_500_000_000);
    assert_eq!(PointInTime::now_ordered(7, 19_200_000).time_since_zero(), 364);
}

#[test]
fn add_then_sub_never_exceeds_the_duration() {
    // 19.2 MHz: a third of a microsecond rounds down to 6 ticks, 312 ns
    let start = PointInTime::now(0, 19_200_000);
    let later = start.add(333);
    assert_eq!(later.counter_val, 6);
    assert_eq!(later.sub(start), 312);
}

#[test]
fn timer_control_bits() {
    assert_eq!(enable_interrupt(0), 1);
    assert!(is_interrupt_enabled(1));
    assert_eq!(disable_interrupt(7), 6);
    assert_eq!(mask_interrupt(1), 3);
    assert!(is_interrupt_masked(3));
    assert_eq!(unmask_interrupt(3), 1);
    assert!(is_timer_condition_met(4));
    assert!(!is_timer_condition_met(3));
    assert_eq!(set_timer_val(1_000_000, 1_000_000), 1000);
    assert_eq!(frequency(0xABCD_0000_0012_3456), 0x0012_3456);
}

#[test]
fn waits() {
    wait_cycles(150);
    spin_wait_cycles(0);
    let deadline = spin_wait_for(PointInTime::now(500, 1000), 2_000_000);
    assert_eq!(deadline.counter_val, 502);
    assert!(!spin_wait_done(deadline, 501));
    assert!(spin_wait_done(deadline, 502));
}

#[test]
fn exception_levels_and_registers() {
    assert!(ExceptionLevel::from_current_el(0b1000) == ExceptionLevel::EL2);
    assert!(ExceptionLevel::from_current_el(0b0100) == ExceptionLevel::EL1);
    assert!(ExceptionLevel::from_current_el(0b1100) == ExceptionLevel::EL3);
    assert!(ExceptionLevel::from_current_el(0b0011) == ExceptionLevel::EL0);
    assert!(TpidrElx::read_register(ExceptionLevel::EL1) == SystemRegister::TpidrEl1);
    assert!(id(ExceptionLevel::EL0) == SystemRegister::TpidrEl0);
    assert!(set_id(ExceptionLevel::EL2, 5) == (SystemRegister::TpidrEl2, 5));
    let (register, value) = reset(ExceptionLevel::EL3);
    assert!(register == SystemRegister::RmrEl3);
    assert_eq!(value.0, 3);
    assert!(reset(ExceptionLevel::EL1).0 == SystemRegister::RmrEl1);
    assert_eq!(RmrElx::zero().0, 0);
    assert_eq!(VbarEl::<1>::new(0x8_0800).value(), 0x8_0800);
    assert_eq!(ElrEl::<2>::new(0x8_0000).value(), 0x8_0000);
    assert_eq!(SpEl::<1>::new(0x8_0000).value(), 0x8_0000);
    assert_eq!(CntVOffEl2::new(0).value(), 0);
}

#[test]
fn screen_geometry() {
    let g = ScreenGeometry::with_size(Size { width: 640, height: 480 });
    assert!(g.physical_size == Size { width: 640, height: 480 });
    assert!(g.virtual_size == g.physical_size);
    assert!(g.virtual_offset == Offset { x: 0, y: 0 });
    assert!(g.overscan == Overscan { top: 0, bottom: 0, left: 0, right: 0 });
    assert_eq!(g.pixel_count(), 307_200);
}

#[test]
fn start_up_sequence() {
    assert!(initialize(false, false, false).is_empty());
    assert!(initialize(true, true, false) == vec![InitStep::MmuInit, InitStep::SerialUart, InitStep::PrintMemoryMap]);
    assert!(initialize(false, false, true) == vec![InitStep::CreateScreen(0x50_0000), InitStep::FramebufferConsole(0x60_0000)]);
    assert_eq!(initialize(true, true, true).len(), 5);
}

#[test]
fn points_in_time_order_by_counter_at_one_frequency() {
    let a = PointInTime::now(1, 100);
    let b = PointInTime::now(2, 100);
    assert!(a < b);
    assert!(b > a);
    assert!(a <= a);
    assert_eq!(a.partial_cmp(&b), Some(core::cmp::Ordering::Less));
    assert_eq!(a.partial_cmp(&PointInTime::now(1, 200)), None);
    assert!(!(a < PointInTime::now(5, 200)));
}

#[test]
fn start_up_decisions() {
    assert_eq!(barrier_arrive(4), 3);
    assert_eq!(barrier_arrive(2), 1);
    assert_eq!(barrier_arrive(1), CORE_COUNT);
    assert!(boot_path(ExceptionLevel::EL3) == BootPath::LeaveEl3);
    assert!(boot_path(ExceptionLevel::EL2) == BootPath::LeaveEl2);
    assert!(boot_path(ExceptionLevel::EL1) == BootPath::Main);
    assert!(boot_path(ExceptionLevel::EL0) == BootPath::Halt);
    assert_eq!(secondary_core_release_address(1, false), 0x4000_009C);
    assert_eq!(secondary_core_release_address(3, false), 0x4000_00BC);
    assert_eq!(secondary_core_release_address(1, true), 0xe0);
    assert_eq!(secondary_core_release_address(3, true), 0xf0);
}
