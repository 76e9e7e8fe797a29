use rustacuda::init;
use rustacuda::CudaApiVersion;
use rustacuda::CudaFlags;

#[test]
fn test_api_version() {
    let version = CudaApiVersion::from_raw(9020);
    assert_eq!(version.major(), 9);
    assert_eq!(version.minor(), 2);
}

#[test]
fn test_init_twice() {
    init(CudaFlags::empty()).unwrap();
    init(CudaFlags::empty()).unwrap();
}

#[test]
fn quick_init_yields_a_fresh_context() {
    let mut ctx = rustacuda::quick_init().unwrap();
    let first = rustacuda::memory::cuda_malloc::<u64>(&mut ctx, 1).unwrap();
    assert!(!first.is_null());
}
