use rustacuda::error::CudaError;
use rustacuda::memory::{LockedBox, LockedBuffer};
use rustacuda::quick_init;

#[derive(Clone, Copy, Debug)]
struct ZeroSizedType;
impl rustacuda::memory::DeviceCopy for ZeroSizedType {}

#[test]
fn test_new() {
    let mut ctx = quick_init().unwrap();
    let val = 0u64;
    let mut buffer = LockedBuffer::new(&mut ctx, &val, 5).unwrap();
    buffer.set(0, 1);
    assert_eq!(*buffer.get(0), 1);
}

#[test]
fn test_from_slice() {
    let mut ctx = quick_init().unwrap();
    let values = [0u64; 10];
    let mut buffer = LockedBuffer::from_slice(&mut ctx, &values).unwrap();
    for i in buffer.as_mut_slice()[0..3].iter_mut() {
        *i = 10;
    }
    assert_eq!(buffer.as_slice()[..3], [10u64, 10, 10]);
    assert_eq!(buffer.as_slice()[3..], [0u64; 7]);
}

#[test]
fn zero_length_buffer() {
    let mut ctx = quick_init().unwrap();
    let buffer = LockedBuffer::new(&mut ctx, &0u64, 0).unwrap();
    drop(buffer);
}

#[test]
fn zero_size_type() {
    let mut ctx = quick_init().unwrap();
    let buffer = LockedBuffer::new(&mut ctx, &ZeroSizedType, 10).unwrap();
    drop(buffer);
}

#[test]
fn overflows_usize() {
    let mut ctx = quick_init().unwrap();
    let err = LockedBuffer::new(&mut ctx, &0u64, usize::MAX - 1).unwrap_err();
    assert_eq!(CudaError::InvalidMemoryAllocation, err);
}

#[test]
fn locked_box_holds_and_updates_a_value() {
    let mut ctx = quick_init().unwrap();
    let mut five = LockedBox::new(&mut ctx, 5u64).unwrap();
    assert_eq!(*five.value(), 5);
    five.set_value(6);
    assert_eq!(*five.value(), 6);
    assert!(LockedBox::drop(five).is_ok());
}

#[test]
fn locked_box_into_from_raw_round_trip() {
    let mut ctx = quick_init().unwrap();
    let x = LockedBox::new(&mut ctx, 5u64).unwrap();
    let ptr = LockedBox::into_raw(x);
    assert_ne!(ptr, 0);
    let rebuilt: LockedBox<u64> = LockedBox::from_raw(ptr);
    assert!(LockedBox::drop(rebuilt).is_ok());
}

#[test]
fn locked_buffer_new_fills_every_element() {
    let mut ctx = quick_init().unwrap();
    let buffer = LockedBuffer::new(&mut ctx, &3u64, 4).unwrap();
    assert_eq!(buffer.as_slice(), &[3u64, 3, 3, 3]);
    assert_eq!(buffer.len(), 4);
    assert!(!buffer.is_empty());
}
