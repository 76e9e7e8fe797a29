use rustacuda::error::CudaError;
use rustacuda::memory::CopyDestination;
use rustacuda::memory::DeviceBox;
use rustacuda::quick_init;

#[derive(Clone, Copy, Debug)]
struct ZeroSizedType;
impl rustacuda::memory::DeviceCopy for ZeroSizedType {}

#[test]
fn device_test_allocate_and_free_device_box() {
    let mut ctx = quick_init().unwrap();
    let x = DeviceBox::new(&mut ctx, &5u64).unwrap();
    drop(x);
}

#[test]
fn device_test_device_box_allocates_for_non_zst() {
    let mut ctx = quick_init().unwrap();
    let x = DeviceBox::new(&mut ctx, &5u64).unwrap();
    let ptr = DeviceBox::into_device(x);
    assert!(!ptr.is_null());
    let _ = DeviceBox::from_device(ptr);
}

#[test]
fn device_test_device_box_doesnt_allocate_for_zero_sized_type() {
    let mut ctx = quick_init().unwrap();
    let x = DeviceBox::new(&mut ctx, &ZeroSizedType).unwrap();
    let ptr = DeviceBox::into_device(x);
    assert!(ptr.is_null());
    let _ = DeviceBox::from_device(ptr);
}

#[test]
fn device_test_into_from_device() {
    let mut ctx = quick_init().unwrap();
    let x = DeviceBox::new(&mut ctx, &5u64).unwrap();
    let ptr = DeviceBox::into_device(x);
    let _ = DeviceBox::from_device(ptr);
}

#[test]
fn device_test_copy_host_to_device() {
    let mut ctx = quick_init().unwrap();
    let y = 5u64;
    let mut x = DeviceBox::new(&mut ctx, &0u64).unwrap();
    x.copy_from(&y).unwrap();
    let mut z = 10u64;
    x.copy_to(&mut z).unwrap();
    assert_eq!(y, z);
}

#[test]
fn device_test_copy_device_to_host() {
    let mut ctx = quick_init().unwrap();
    let x = DeviceBox::new(&mut ctx, &5u64).unwrap();
    let mut y = 0u64;
    x.copy_to(&mut y).unwrap();
    assert_eq!(5, y);
}

#[test]
fn device_test_copy_device_to_device() {
    let mut ctx = quick_init().unwrap();
    let x = DeviceBox::new(&mut ctx, &5u64).unwrap();
    let mut y = DeviceBox::new(&mut ctx, &0u64).unwrap();
    let mut z = DeviceBox::new(&mut ctx, &0u64).unwrap();
    x.copy_to(&mut y).unwrap();
    z.copy_from(&y).unwrap();

    let mut h = 0u64;
    z.copy_to(&mut h).unwrap();
    assert_eq!(5, h);
}

#[test]
fn device_box_test_allocate_and_free_device_box() {
    let mut ctx = quick_init().unwrap();
    let x = DeviceBox::new(&mut ctx, &5u64).unwrap();
    drop(x);
}

#[test]
fn device_box_test_device_box_allocates_for_non_zst() {
    let mut ctx = quick_init().unwrap();
    let x = DeviceBox::new(&mut ctx, &5u64).unwrap();
    let ptr = DeviceBox::into_device(x);
    assert!(!ptr.is_null());
    let _ = DeviceBox::from_device(ptr);
}

#[test]
fn device_box_test_device_box_doesnt_allocate_for_zero_sized_type() {
    let mut ctx = quick_init().unwrap();
    let x = DeviceBox::new(&mut ctx, &ZeroSizedType).unwrap();
    let ptr = DeviceBox::into_device(x);
    assert!(ptr.is_null());
    let _ = DeviceBox::from_device(ptr);
}

#[test]
fn device_box_test_into_from_device() {
    let mut ctx = quick_init().unwrap();
    let x = DeviceBox::new(&mut ctx, &5u64).unwrap();
    let ptr = DeviceBox::into_device(x);
    let _ = DeviceBox::from_device(ptr);
}

#[test]
fn device_box_test_copy_host_to_device() {
    let mut ctx = quick_init().unwrap();
    let y = 5u64;
    let mut x = DeviceBox::new(&mut ctx, &0u64).unwrap();
    x.copy_from(&y).unwrap();
    let mut z = 10u64;
    x.copy_to(&mut z).unwrap();
    assert_eq!(y, z);
}

#[test]
fn device_box_test_copy_device_to_host() {
    let mut ctx = quick_init().unwrap();
    let x = DeviceBox::new(&mut ctx, &5u64).unwrap();
    let mut y = 0u64;
    x.copy_to(&mut y).unwrap();
    assert_eq!(5, y);
}

#[test]
fn device_box_test_copy_device_to_device() {
    let mut ctx = quick_init().unwrap();
    let x = DeviceBox::new(&mut ctx, &5u64).unwrap();
    let mut y = DeviceBox::new(&mut ctx, &0u64).unwrap();
    let mut z = DeviceBox::new(&mut ctx, &0u64).unwrap();
    x.copy_to(&mut y).unwrap();
    z.copy_from(&y).unwrap();

    let mut h = 0u64;
    z.copy_to(&mut h).unwrap();
    assert_eq!(5, h);
}

#[test]
fn device_box_double_release_is_ruled_out_by_moves() {
    let mut ctx = quick_init().unwrap();
    let x = DeviceBox::new(&mut ctx, &5u64).unwrap();
    let ptr = DeviceBox::into_device(x);
    let rebuilt = DeviceBox::from_device(ptr);
    assert!(DeviceBox::drop(rebuilt).is_ok());
}

#[test]
fn device_box_explicit_drop_of_zero_sized_box_is_a_no_op() {
    let mut ctx = quick_init().unwrap();
    let x = DeviceBox::new(&mut ctx, &ZeroSizedType).unwrap();
    assert!(DeviceBox::drop(x).is_ok());
}

#[test]
fn device_box_zero_sized_round_trip() {
    let mut ctx = quick_init().unwrap();
    let x = DeviceBox::new(&mut ctx, &ZeroSizedType).unwrap();
    let mut out = ZeroSizedType;
    x.copy_to(&mut out).unwrap();
}

#[test]
fn cuda_error_driver_code_is_preserved() {
    assert_eq!(rustacuda::error::to_result(0), Ok(()));
    assert_eq!(rustacuda::error::to_result(700), Err(CudaError::Driver(700)));
}
