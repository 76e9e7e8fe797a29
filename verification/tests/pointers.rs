use rustacuda::event::{Event, EventFlags, EventStatus};
use rustacuda::function::{assert_device_copy, FunctionAttribute};
use rustacuda::memory::{CopyDestination, DevicePointer, UnifiedPointer};
use rustacuda::module::Symbol;

#[test]
fn device_pointer_null_and_wrap() {
    let null: DevicePointer<u64> = DevicePointer::null();
    assert!(null.is_null());
    let p: DevicePointer<u64> = DevicePointer::wrap(4096);
    assert!(!p.is_null());
    assert_eq!(p.as_raw(), 4096);
}

#[test]
fn device_pointer_offsets_scale_by_element_size() {
    let p: DevicePointer<u64> = DevicePointer::wrap(4096);
    assert_eq!(p.offset(1).as_raw(), 4104);
    assert_eq!(p.offset(-1).as_raw(), 4088);
    assert_eq!(p.add(4).as_raw(), 4128);
    assert_eq!(p.add(4).sub(3).as_raw(), 4104);
}

#[test]
fn device_pointer_wrapping_arithmetic_wraps_the_address_space() {
    let p: DevicePointer<u8> = DevicePointer::wrap(5);
    assert_eq!(p.wrapping_sub(10).as_raw(), usize::MAX - 4);
    assert_eq!(p.wrapping_sub(10).wrapping_add(10).as_raw(), 5);
    assert_eq!(p.wrapping_offset(-6).as_raw(), usize::MAX);

    let q: DevicePointer<u64> = DevicePointer::wrap(16);
    assert_eq!(q.wrapping_sub(3).as_raw(), usize::MAX - 7);
}

#[test]
fn unified_pointer_mirrors_device_pointer_arithmetic() {
    let p: UnifiedPointer<u64> = UnifiedPointer::wrap(4096);
    assert_eq!(p.offset(2).as_raw(), 4112);
    assert_eq!(p.wrapping_add(1).as_raw(), 4104);
    assert_eq!(p.sub(1).as_raw(), 4088);
    assert!(UnifiedPointer::<u64>::null().is_null());
}

#[test]
fn symbol_copies_like_a_device_box_but_never_frees() {
    let mut symbol: Symbol<u32> = Symbol::from_raw(0x2000);
    symbol.copy_from(&314).unwrap();
    let mut host_const = 0u32;
    symbol.copy_to(&mut host_const).unwrap();
    assert_eq!(314, host_const);

    symbol.copy_from(&100).unwrap();
    let mut copy_back = 0u32;
    symbol.copy_to(&mut copy_back).unwrap();
    assert_eq!(100, copy_back);
}

#[test]
fn event_carries_its_handle_and_flags() {
    let event = Event::from_raw(0x33);
    assert_eq!(event.as_inner(), 0x33);
    let flags = EventFlags::blocking_sync().union(EventFlags::disable_timing());
    assert_eq!(flags.bits(), 3);
    assert_eq!(EventFlags::empty().bits(), 0);
    assert_eq!(EventFlags::interprocess().bits(), 4);
    assert!(EventStatus::Ready != EventStatus::NotReady);
}

#[test]
fn function_attributes_map_to_their_driver_codes() {
    assert_eq!(FunctionAttribute::MaxThreadsPerBlock.to_raw(), 0);
    assert_eq!(FunctionAttribute::SharedMemorySizeBytes.to_raw(), 1);
    assert_eq!(FunctionAttribute::ConstSizeBytes.to_raw(), 2);
    assert_eq!(FunctionAttribute::LocalSizeBytes.to_raw(), 3);
    assert_eq!(FunctionAttribute::NumRegisters.to_raw(), 4);
    assert_eq!(FunctionAttribute::PtxVersion.to_raw(), 5);
    assert_eq!(FunctionAttribute::BinaryVersion.to_raw(), 6);
    assert_eq!(FunctionAttribute::CacheModeCa.to_raw(), 7);
}

#[test]
fn launch_arguments_pass_the_capability_guard() {
    let p: DevicePointer<u64> = DevicePointer::wrap(4096);
    assert_device_copy(&p);
    assert_device_copy(&42u64);
    assert_device_copy(&(1u32, 2u64));
    assert_device_copy(&[0u8; 16]);
    assert_device_copy(&Some(3i32));
}
