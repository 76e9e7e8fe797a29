//! Unified memory: allocations shared between host and device.
//!
//! A [`UnifiedBox`] owns one allocation that both processors can reach, so
//! it behaves like an ordinary box: the held value can be read and written
//! in place on the host, and comparisons go by the held value.

use vstd::prelude::*;
use vstd::layout::size_of;
use vstd::std_specs::cmp::{PartialEqSpec, PartialOrdSpec};
use core::cmp::Ordering;
use crate::context::Context;
use crate::error::{CudaResult, DropResult};
use crate::memory::malloc::{cuda_free_unified, cuda_malloc_unified};
use crate::memory::pointer::UnifiedPointer;
use crate::memory::DeviceCopy;

verus! {

/// An owned box holding exactly one value in unified memory.
///
/// For a zero-sized `T` no allocation is made at all and the box holds the
/// null pointer.
#[derive(Debug)]
pub struct UnifiedBox<T: DeviceCopy> {
    ptr: UnifiedPointer<T>,
    data: Option<T>,
}

impl<T: DeviceCopy> crate::private::Sealed for UnifiedBox<T> {}

impl<T: DeviceCopy> UnifiedBox<T> {
    /// The unified pointer this box owns.
    pub closed spec fn spec_ptr(&self) -> UnifiedPointer<T> {
        self.ptr
    }

    /// What the owned memory holds: `None` while it is uninitialized.
    pub closed spec fn spec_contents(&self) -> Option<T> {
        self.data
    }

    /// Allocates unified memory and places `val` into it.
    ///
    /// This does not allocate when `T` is zero-sized; the box then holds the
    /// null pointer and the context is untouched.
    pub fn new(ctx: &mut Context, val: T) -> (r: CudaResult<UnifiedBox<T>>)
        requires
            old(ctx).wf(),
        ensures
            final(ctx).wf(),
            r is Ok <==> size_of::<T>() == 0 || old(ctx).spec_next_addr() + size_of::<T>()
                <= usize::MAX,
            r matches Ok(b) ==> {
                &&& b.spec_contents() == Some(val)
                &&& (size_of::<T>() == 0 ==> b.spec_ptr().spec_addr() == 0 && *final(ctx) == *old(
                    ctx,
                ))
                &&& (size_of::<T>() != 0 ==> b.spec_ptr().spec_addr() == old(
                    ctx,
                ).spec_next_addr() && b.spec_ptr().spec_addr() != 0 && final(ctx).spec_next_addr()
                    == b.spec_ptr().spec_addr() + size_of::<T>())
            },
            r is Err ==> *final(ctx) == *old(ctx),
    {
        if core::mem::size_of::<T>() == 0 {
            Ok(UnifiedBox { ptr: UnifiedPointer::null(), data: Some(val) })
        } else {
            proof {
                vstd::arithmetic::mul::lemma_mul_basics(size_of::<T>() as int);
            }
            let ptr = cuda_malloc_unified::<T>(ctx, 1)?;
            Ok(UnifiedBox { ptr, data: Some(val) })
        }
    }

    /// Allocates unified memory without initializing it. Reading the box
    /// first requires writing a value in.
    pub fn uninitialized(ctx: &mut Context) -> (r: CudaResult<UnifiedBox<T>>)
        requires
            old(ctx).wf(),
        ensures
            final(ctx).wf(),
            r is Ok <==> size_of::<T>() == 0 || old(ctx).spec_next_addr() + size_of::<T>()
                <= usize::MAX,
            r matches Ok(b) ==> {
                &&& b.spec_contents() is None
                &&& (size_of::<T>() == 0 ==> b.spec_ptr().spec_addr() == 0 && *final(ctx) == *old(
                    ctx,
                ))
                &&& (size_of::<T>() != 0 ==> b.spec_ptr().spec_addr() == old(
                    ctx,
                ).spec_next_addr() && b.spec_ptr().spec_addr() != 0 && final(ctx).spec_next_addr()
                    == b.spec_ptr().spec_addr() + size_of::<T>())
            },
            r is Err ==> *final(ctx) == *old(ctx),
    {
        if core::mem::size_of::<T>() == 0 {
            Ok(UnifiedBox { ptr: UnifiedPointer::null(), data: None })
        } else {
            proof {
                vstd::arithmetic::mul::lemma_mul_basics(size_of::<T>() as int);
            }
            let ptr = cuda_malloc_unified::<T>(ctx, 1)?;
            Ok(UnifiedBox { ptr, data: None })
        }
    }

    /// Constructs a `UnifiedBox` from a raw address, taking ownership. The
    /// adopted memory is not tracked by the model and counts as
    /// uninitialized until written.
    pub fn from_raw(addr: usize) -> (r: UnifiedBox<T>)
        ensures
            r.spec_ptr().spec_addr() == addr,
            r.spec_contents() is None,
    {
        UnifiedBox { ptr: UnifiedPointer::wrap(addr), data: None }
    }

    /// Constructs a `UnifiedBox` from a [`UnifiedPointer`], taking
    /// ownership. The adopted memory counts as uninitialized until written.
    pub fn from_unified(ptr: UnifiedPointer<T>) -> (r: UnifiedBox<T>)
        ensures
            r.spec_ptr() == ptr,
            r.spec_contents() is None,
    {
        UnifiedBox { ptr, data: None }
    }

    /// Consumes the box, returning the wrapped [`UnifiedPointer`]. The
    /// caller becomes responsible for the memory previously managed by the
    /// box.
    pub fn into_unified(b: UnifiedBox<T>) -> (r: UnifiedPointer<T>)
        ensures
            r == b.spec_ptr(),
    {
        b.ptr
    }

    /// Reads the held value; unified memory is host-visible. The box must
    /// have been initialized.
    pub fn value(&self) -> (r: &T)
        requires
            self.spec_contents() is Some,
        ensures
            Some(*r) == self.spec_contents(),
    {
        self.data.as_ref().unwrap()
    }

    /// Writes the held value in place; unified memory is host-visible.
    pub fn set_value(&mut self, val: T)
        ensures
            final(self).spec_contents() == Some(val),
            final(self).spec_ptr() == old(self).spec_ptr(),
    {
        self.data = Some(val);
    }

    /// Destroys a `UnifiedBox`, releasing its allocation.
    ///
    /// A box holding the null pointer is destroyed without any driver work.
    /// The model driver's release never fails, so this always succeeds.
    pub fn drop(ubox: UnifiedBox<T>) -> (r: DropResult<UnifiedBox<T>>)
        ensures
            r is Ok,
    {
        if ubox.ptr.is_null() {
            return Ok(());
        }
        match cuda_free_unified(ubox.ptr) {
            Ok(()) => Ok(()),
            Err(e) => Err((e, ubox)),
        }
    }
}

impl<T: DeviceCopy + PartialEq> PartialEq for UnifiedBox<T> {
    /// Equality goes by the held values, never by the addresses.
    fn eq(&self, other: &Self) -> (r: bool) {
        match (self.data.as_ref(), other.data.as_ref()) {
            (Some(a), Some(b)) => *a == *b,
            (None, None) => true,
            _ => false,
        }
    }
}

impl<T: DeviceCopy + PartialEq> vstd::std_specs::cmp::PartialEqSpecImpl for UnifiedBox<T> {
    open spec fn obeys_eq_spec() -> bool {
        <T as vstd::std_specs::cmp::PartialEqSpec>::obeys_eq_spec()
    }

    open spec fn eq_spec(&self, other: &Self) -> bool {
        match (self.spec_contents(), other.spec_contents()) {
            (Some(a), Some(b)) => a.eq_spec(&b),
            (None, None) => true,
            _ => false,
        }
    }
}

impl<T: DeviceCopy + Eq> Eq for UnifiedBox<T> {}

impl<T: DeviceCopy + PartialOrd> PartialOrd for UnifiedBox<T> {
    /// Ordering goes by the held values, never by the addresses.
    fn partial_cmp(&self, other: &Self) -> (r: Option<Ordering>) {
        match (self.data.as_ref(), other.data.as_ref()) {
            (Some(a), Some(b)) => a.partial_cmp(b),
            (None, None) => Some(Ordering::Equal),
            _ => None,
        }
    }
}

impl<T: DeviceCopy + PartialOrd> vstd::std_specs::cmp::PartialOrdSpecImpl for UnifiedBox<T> {
    open spec fn obeys_partial_cmp_spec() -> bool {
        <T as vstd::std_specs::cmp::PartialOrdSpec>::obeys_partial_cmp_spec()
    }

    open spec fn partial_cmp_spec(&self, other: &Self) -> Option<Ordering> {
        match (self.spec_contents(), other.spec_contents()) {
            (Some(a), Some(b)) => a.partial_cmp_spec(&b),
            (None, None) => Some(Ordering::Equal),
            _ => None,
        }
    }
}

} // verus!
