//! Raw allocation functions for the three memory spaces.
//!
//! These are the thin, fallible entry points over the model driver's three
//! allocators: device-exclusive, unified, and page-locked host memory. Each
//! computes the byte size `count * size_of::<T>()` with overflow checking and
//! rejects zero-byte requests before the allocator is consulted. Each free
//! function takes ownership of its pointer and rejects null.
//!
//! The model allocator hands out strictly increasing addresses and never
//! reuses one, so releasing a pointer returns nothing to the [`Context`];
//! taking the pointer by value is what makes a second release impossible.

use vstd::prelude::*;
use vstd::layout::size_of;
use crate::context::Context;
use crate::error::{CudaError, CudaResult, OUT_OF_MEMORY};
use crate::memory::pointer::{DevicePointer, UnifiedPointer};
use crate::memory::DeviceCopy;

verus! {

/// Allocates `count * size_of::<T>()` bytes of device memory and returns a
/// [`DevicePointer`] to it. The memory is not initialized.
///
/// Fails with [`CudaError::InvalidValue`] when the byte size is zero (because
/// `count` is zero or `T` is zero-sized) or when the multiplication
/// overflows; the allocator is not consulted in that case. Otherwise fails
/// only when the device address space is exhausted, with the driver's
/// out-of-memory code.
pub fn cuda_malloc<T: DeviceCopy>(ctx: &mut Context, count: usize) -> (r: CudaResult<
    DevicePointer<T>,
>)
    requires
        old(ctx).wf(),
    ensures
        final(ctx).wf(),
        r is Ok <==> {
            &&& 0 < count * size_of::<T>() <= usize::MAX
            &&& old(ctx).spec_next_addr() + count * size_of::<T>() <= usize::MAX
        },
        r matches Ok(p) ==> {
            &&& p.spec_addr() == old(ctx).spec_next_addr()
            &&& p.spec_addr() != 0
            &&& final(ctx).spec_next_addr() == p.spec_addr() + count * size_of::<T>()
        },
        !(0 < count * size_of::<T>() <= usize::MAX) ==> r == Err::<DevicePointer<T>, CudaError>(
            CudaError::InvalidValue,
        ),
        r is Err ==> *final(ctx) == *old(ctx),
        r is Err ==> (r matches Err(e) ==> e == CudaError::InvalidValue || e == CudaError::Driver(
            OUT_OF_MEMORY,
        )),
{
    match count.checked_mul(core::mem::size_of::<T>()) {
        None => Err(CudaError::InvalidValue),
        Some(0) => Err(CudaError::InvalidValue),
        Some(bytes) => {
            match ctx.alloc_bytes(bytes) {
                Ok(addr) => Ok(DevicePointer::wrap(addr)),
                Err(e) => Err(e),
            }
        },
    }
}

/// Allocates `count * size_of::<T>()` bytes of unified memory and returns a
/// [`UnifiedPointer`] to it. The memory is not initialized.
///
/// Validation and failure behavior match [`cuda_malloc`].
pub fn cuda_malloc_unified<T: DeviceCopy>(ctx: &mut Context, count: usize) -> (r: CudaResult<
    UnifiedPointer<T>,
>)
    requires
        old(ctx).wf(),
    ensures
        final(ctx).wf(),
        r is Ok <==> {
            &&& 0 < count * size_of::<T>() <= usize::MAX
            &&& old(ctx).spec_next_addr() + count * size_of::<T>() <= usize::MAX
        },
        r matches Ok(p) ==> {
            &&& p.spec_addr() == old(ctx).spec_next_addr()
            &&& p.spec_addr() != 0
            &&& final(ctx).spec_next_addr() == p.spec_addr() + count * size_of::<T>()
        },
        !(0 < count * size_of::<T>() <= usize::MAX) ==> r == Err::<UnifiedPointer<T>, CudaError>(
            CudaError::InvalidValue,
        ),
        r is Err ==> *final(ctx) == *old(ctx),
{
    match count.checked_mul(core::mem::size_of::<T>()) {
        None => Err(CudaError::InvalidValue),
        Some(0) => Err(CudaError::InvalidValue),
        Some(bytes) => {
            match ctx.alloc_bytes(bytes) {
                Ok(addr) => Ok(UnifiedPointer::wrap(addr)),
                Err(e) => Err(e),
            }
        },
    }
}

/// Allocates `count * size_of::<T>()` bytes of page-locked host memory and
/// returns its raw address. The memory is not initialized.
///
/// Validation and failure behavior match [`cuda_malloc`].
pub fn cuda_malloc_locked<T: DeviceCopy>(ctx: &mut Context, count: usize) -> (r: CudaResult<usize>)
    requires
        old(ctx).wf(),
    ensures
        final(ctx).wf(),
        r is Ok <==> {
            &&& 0 < count * size_of::<T>() <= usize::MAX
            &&& old(ctx).spec_next_addr() + count * size_of::<T>() <= usize::MAX
        },
        r matches Ok(addr) ==> {
            &&& addr == old(ctx).spec_next_addr()
            &&& addr != 0
            &&& final(ctx).spec_next_addr() == addr + count * size_of::<T>()
        },
        !(0 < count * size_of::<T>() <= usize::MAX) ==> r == Err::<usize, CudaError>(
            CudaError::InvalidValue,
        ),
        r is Err ==> *final(ctx) == *old(ctx),
{
    match count.checked_mul(core::mem::size_of::<T>()) {
        None => Err(CudaError::InvalidValue),
        Some(0) => Err(CudaError::InvalidValue),
        Some(bytes) => {
            match ctx.alloc_bytes(bytes) {
                Ok(addr) => Ok(addr),
                Err(e) => Err(e),
            }
        },
    }
}

/// Releases device memory allocated with [`cuda_malloc`], taking ownership of
/// the pointer. Fails with [`CudaError::InvalidValue`] if the pointer is
/// null; succeeds otherwise.
pub fn cuda_free<T: DeviceCopy>(ptr: DevicePointer<T>) -> (r: CudaResult<()>)
    ensures
        r is Ok <==> ptr.spec_addr() != 0,
        r matches Err(e) ==> e == CudaError::InvalidValue,
{
    if ptr.is_null() {
        Err(CudaError::InvalidValue)
    } else {
        Ok(())
    }
}

/// Releases unified memory allocated with [`cuda_malloc_unified`], taking
/// ownership of the pointer. Fails with [`CudaError::InvalidValue`] if the
/// pointer is null; succeeds otherwise.
pub fn cuda_free_unified<T: DeviceCopy>(ptr: UnifiedPointer<T>) -> (r: CudaResult<()>)
    ensures
        r is Ok <==> ptr.spec_addr() != 0,
        r matches Err(e) ==> e == CudaError::InvalidValue,
{
    if ptr.is_null() {
        Err(CudaError::InvalidValue)
    } else {
        Ok(())
    }
}

/// Releases page-locked host memory allocated with [`cuda_malloc_locked`].
/// Fails with [`CudaError::InvalidValue`] if the address is null; succeeds
/// otherwise.
pub fn cuda_free_locked(addr: usize) -> (r: CudaResult<()>)
    ensures
        r is Ok <==> addr != 0,
        r matches Err(e) ==> e == CudaError::InvalidValue,
{
    if addr == 0 {
        Err(CudaError::InvalidValue)
    } else {
        Ok(())
    }
}

} // verus!
