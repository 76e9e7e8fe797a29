//! Access to the modeled memory spaces and transfer operations.
//!
//! Three distinct memory spaces are modeled: device-exclusive memory
//! ([`DeviceBox`], [`DeviceBuffer`]), host/device-shared unified memory
//! ([`UnifiedBox`]), and page-locked host memory ([`LockedBox`],
//! [`LockedBuffer`]). Pointers into device memory are represented by
//! [`DevicePointer`], pointers into unified memory by [`UnifiedPointer`].
//!
//! Device memory cannot be read or written by the host directly; data moves
//! through the [`CopyDestination`] protocol. Unified and page-locked memory
//! are host-visible and can be read and written in place.

pub mod device;
pub mod locked;
pub mod malloc;
pub mod pointer;
pub mod unified;

pub use self::device::{
    AsyncCopyDestination, CopyDestination, DeviceBox, DeviceBuffer, DeviceChunks, DeviceSlice,
};
pub use self::locked::{LockedBox, LockedBuffer};
pub use self::malloc::{
    cuda_free, cuda_free_locked, cuda_free_unified, cuda_malloc, cuda_malloc_locked,
    cuda_malloc_unified,
};
pub use self::pointer::{DevicePointer, UnifiedPointer};
pub use self::unified::UnifiedBox;

use vstd::prelude::*;
use core::marker::PhantomData;

verus! {

/// Marker trait for types which can safely be copied to or from the compute
/// device.
///
/// A type can be safely copied if its value can be duplicated simply by
/// copying bits and if it does not contain a reference to memory which is not
/// accessible to the device. User aggregate types obtain the marker by
/// implementing this trait once every one of their fields carries it.
pub trait DeviceCopy {
}

impl DeviceCopy for usize {}

impl DeviceCopy for u8 {}

impl DeviceCopy for u16 {}

impl DeviceCopy for u32 {}

impl DeviceCopy for u64 {}

impl DeviceCopy for u128 {}

impl DeviceCopy for isize {}

impl DeviceCopy for i8 {}

impl DeviceCopy for i16 {}

impl DeviceCopy for i32 {}

impl DeviceCopy for i64 {}

impl DeviceCopy for i128 {}

impl DeviceCopy for bool {}

impl DeviceCopy for char {}

impl DeviceCopy for () {}

impl<T: DeviceCopy> DeviceCopy for Option<T> {}

impl<L: DeviceCopy, R: DeviceCopy> DeviceCopy for Result<L, R> {}

impl<T: DeviceCopy> DeviceCopy for PhantomData<T> {}

impl<A: DeviceCopy, B: DeviceCopy> DeviceCopy for (A, B) {}

impl<A: DeviceCopy, B: DeviceCopy, C: DeviceCopy> DeviceCopy for (A, B, C) {}

impl<A: DeviceCopy, B: DeviceCopy, C: DeviceCopy, D: DeviceCopy> DeviceCopy for (A, B, C, D) {}

impl<A: DeviceCopy, B: DeviceCopy, C: DeviceCopy, D: DeviceCopy, E: DeviceCopy> DeviceCopy for (
    A,
    B,
    C,
    D,
    E,
) {}

impl<
    A: DeviceCopy,
    B: DeviceCopy,
    C: DeviceCopy,
    D: DeviceCopy,
    E: DeviceCopy,
    F: DeviceCopy,
> DeviceCopy for (A, B, C, D, E, F) {}

impl<
    A: DeviceCopy,
    B: DeviceCopy,
    C: DeviceCopy,
    D: DeviceCopy,
    E: DeviceCopy,
    F: DeviceCopy,
    G: DeviceCopy,
> DeviceCopy for (A, B, C, D, E, F, G) {}

impl<
    A: DeviceCopy,
    B: DeviceCopy,
    C: DeviceCopy,
    D: DeviceCopy,
    E: DeviceCopy,
    F: DeviceCopy,
    G: DeviceCopy,
    H: DeviceCopy,
> DeviceCopy for (A, B, C, D, E, F, G, H) {}

impl<T: DeviceCopy, const N: usize> DeviceCopy for [T; N] {}

} // verus!
