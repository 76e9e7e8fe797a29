use rustacuda::error::CudaError;
use rustacuda::memory::{
    cuda_free, cuda_free_locked, cuda_malloc, cuda_malloc_locked, cuda_malloc_unified,
    DevicePointer,
};
use rustacuda::quick_init;

#[derive(Clone, Copy, Debug)]
struct ZeroSizedType;
impl rustacuda::memory::DeviceCopy for ZeroSizedType {}

#[test]
fn test_cuda_malloc() {
    let mut ctx = quick_init().unwrap();
    let device_mem = cuda_malloc::<u64>(&mut ctx, 1).unwrap();
    assert!(!device_mem.is_null());
    cuda_free(device_mem).unwrap();
}

#[test]
fn test_cuda_malloc_zero_bytes() {
    let mut ctx = quick_init().unwrap();
    assert_eq!(
        CudaError::InvalidValue,
        cuda_malloc::<u64>(&mut ctx, 0).unwrap_err()
    );
}

#[test]
fn test_cuda_malloc_zero_sized() {
    let mut ctx = quick_init().unwrap();
    assert_eq!(
        CudaError::InvalidValue,
        cuda_malloc::<ZeroSizedType>(&mut ctx, 10).unwrap_err()
    );
}

#[test]
fn test_cuda_alloc_overflow() {
    let mut ctx = quick_init().unwrap();
    assert_eq!(
        CudaError::InvalidValue,
        cuda_malloc::<u64>(&mut ctx, usize::MAX - 1).unwrap_err()
    );
}

#[test]
fn test_cuda_malloc_unified() {
    let mut ctx = quick_init().unwrap();
    let unified = cuda_malloc_unified::<u64>(&mut ctx, 1).unwrap();
    assert!(!unified.is_null());
    rustacuda::memory::cuda_free_unified(unified).unwrap();
}

#[test]
fn test_cuda_malloc_unified_zero_bytes() {
    let mut ctx = quick_init().unwrap();
    assert_eq!(
        CudaError::InvalidValue,
        cuda_malloc_unified::<u64>(&mut ctx, 0).unwrap_err()
    );
}

#[test]
fn test_cuda_malloc_unified_zero_sized() {
    let mut ctx = quick_init().unwrap();
    assert_eq!(
        CudaError::InvalidValue,
        cuda_malloc_unified::<ZeroSizedType>(&mut ctx, 10).unwrap_err()
    );
}

#[test]
fn test_cuda_malloc_unified_overflow() {
    let mut ctx = quick_init().unwrap();
    assert_eq!(
        CudaError::InvalidValue,
        cuda_malloc_unified::<u64>(&mut ctx, usize::MAX - 1).unwrap_err()
    );
}

#[test]
fn test_cuda_free_null() {
    let null: DevicePointer<u64> = DevicePointer::null();
    assert_eq!(CudaError::InvalidValue, cuda_free(null).unwrap_err());
}

#[test]
fn test_cuda_malloc_locked() {
    let mut ctx = quick_init().unwrap();
    let locked = cuda_malloc_locked::<u64>(&mut ctx, 1).unwrap();
    assert_ne!(locked, 0);
    cuda_free_locked(locked).unwrap();
}

#[test]
fn test_cuda_malloc_locked_zero_bytes() {
    let mut ctx = quick_init().unwrap();
    assert_eq!(
        CudaError::InvalidValue,
        cuda_malloc_locked::<u64>(&mut ctx, 0).unwrap_err()
    );
}

#[test]
fn test_cuda_malloc_locked_zero_sized() {
    let mut ctx = quick_init().unwrap();
    assert_eq!(
        CudaError::InvalidValue,
        cuda_malloc_locked::<ZeroSizedType>(&mut ctx, 10).unwrap_err()
    );
}

#[test]
fn test_cuda_malloc_locked_overflow() {
    let mut ctx = quick_init().unwrap();
    assert_eq!(
        CudaError::InvalidValue,
        cuda_malloc_locked::<u64>(&mut ctx, usize::MAX - 1).unwrap_err()
    );
}

#[test]
fn test_cuda_free_locked_null() {
    assert_eq!(CudaError::InvalidValue, cuda_free_locked(0).unwrap_err());
}

#[test]
fn distinct_allocations_get_distinct_addresses() {
    let mut ctx = quick_init().unwrap();
    let a = cuda_malloc::<u64>(&mut ctx, 4).unwrap();
    let b = cuda_malloc::<u64>(&mut ctx, 4).unwrap();
    assert_ne!(a.as_raw(), b.as_raw());
    assert!(a.as_raw() + 32 <= b.as_raw());
    cuda_free(a).unwrap();
    cuda_free(b).unwrap();
}
