//! Page-locked host memory: boxes and buffers the host can touch directly.
//!
//! Page-locked memory is host-resident memory the operating system will not
//! page out, which makes it the fast staging ground for transfers. Unlike
//! device memory it is host-visible, so a [`LockedBox`] and a
//! [`LockedBuffer`] expose their contents directly.

use vstd::prelude::*;
use vstd::layout::size_of;
use crate::context::Context;
use crate::error::{CudaError, CudaResult, DropResult};
use crate::memory::malloc::{cuda_free_locked, cuda_malloc_locked};
use crate::memory::DeviceCopy;

verus! {

/// An owned box holding exactly one value in page-locked host memory.
///
/// For a zero-sized `T` no allocation is made at all and the box holds the
/// null address.
#[derive(Debug)]
pub struct LockedBox<T: DeviceCopy> {
    addr: usize,
    data: Option<T>,
}

impl<T: DeviceCopy> crate::private::Sealed for LockedBox<T> {}

impl<T: DeviceCopy> LockedBox<T> {
    /// The raw address of the owned allocation.
    pub closed spec fn spec_addr(&self) -> usize {
        self.addr
    }

    /// What the owned memory holds: `None` while it is uninitialized.
    pub closed spec fn spec_contents(&self) -> Option<T> {
        self.data
    }

    /// Allocates page-locked memory and places `val` into it.
    ///
    /// This does not allocate when `T` is zero-sized; the box then holds the
    /// null address and the context is untouched.
    pub fn new(ctx: &mut Context, val: T) -> (r: CudaResult<LockedBox<T>>)
        requires
            old(ctx).wf(),
        ensures
            final(ctx).wf(),
            r is Ok <==> size_of::<T>() == 0 || old(ctx).spec_next_addr() + size_of::<T>()
                <= usize::MAX,
            r matches Ok(b) ==> {
                &&& b.spec_contents() == Some(val)
                &&& (size_of::<T>() == 0 ==> b.spec_addr() == 0 && *final(ctx) == *old(ctx))
                &&& (size_of::<T>() != 0 ==> b.spec_addr() == old(ctx).spec_next_addr()
                    && b.spec_addr() != 0 && final(ctx).spec_next_addr() == b.spec_addr()
                    + size_of::<T>())
            },
            r is Err ==> *final(ctx) == *old(ctx),
    {
        if core::mem::size_of::<T>() == 0 {
            Ok(LockedBox { addr: 0, data: Some(val) })
        } else {
            proof {
                vstd::arithmetic::mul::lemma_mul_basics(size_of::<T>() as int);
            }
            let addr = cuda_malloc_locked::<T>(ctx, 1)?;
            Ok(LockedBox { addr, data: Some(val) })
        }
    }

    /// Constructs a `LockedBox` from a raw page-locked address, taking
    /// ownership. The adopted memory is not tracked by the model and counts
    /// as uninitialized until written.
    pub fn from_raw(addr: usize) -> (r: LockedBox<T>)
        ensures
            r.spec_addr() == addr,
            r.spec_contents() is None,
    {
        LockedBox { addr, data: None }
    }

    /// Consumes the box, returning the raw address of the underlying data.
    /// The caller becomes responsible for the memory previously managed by
    /// the box.
    pub fn into_raw(b: LockedBox<T>) -> (r: usize)
        ensures
            r == b.spec_addr(),
    {
        b.addr
    }

    /// Returns the contained address without consuming the box.
    pub fn as_ptr(&self) -> (r: usize)
        ensures
            r == self.spec_addr(),
    {
        self.addr
    }

    /// Returns the contained address for mutation, without consuming the
    /// box.
    pub fn as_mut_ptr(&mut self) -> (r: usize)
        ensures
            r == old(self).spec_addr(),
            *final(self) == *old(self),
    {
        self.addr
    }

    /// Reads the held value; the memory is host-visible. The box must have
    /// been initialized.
    pub fn value(&self) -> (r: &T)
        requires
            self.spec_contents() is Some,
        ensures
            Some(*r) == self.spec_contents(),
    {
        self.data.as_ref().unwrap()
    }

    /// Writes the held value in place; the memory is host-visible.
    pub fn set_value(&mut self, val: T)
        ensures
            final(self).spec_contents() == Some(val),
            final(self).spec_addr() == old(self).spec_addr(),
    {
        self.data = Some(val);
    }

    /// Destroys a `LockedBox`, releasing its allocation.
    ///
    /// A box holding the null address is destroyed without any driver work.
    /// The model driver's release never fails, so this always succeeds.
    pub fn drop(locked_box: LockedBox<T>) -> (r: DropResult<LockedBox<T>>)
        ensures
            r is Ok,
    {
        if locked_box.addr == 0 {
            return Ok(());
        }
        match cuda_free_locked(locked_box.addr) {
            Ok(()) => Ok(()),
            Err(e) => Err((e, locked_box)),
        }
    }
}

/// A fixed-size buffer of `T`s in page-locked host memory.
///
/// The memory is host-resident, so the buffer's elements can be read and
/// written in place, and the whole buffer can be viewed as a slice. A buffer
/// of zero bytes makes no driver allocation and holds the dangling-but-
/// non-null sentinel address instead.
#[derive(Debug)]
pub struct LockedBuffer<T: DeviceCopy> {
    addr: usize,
    data: Vec<T>,
}

impl<T: DeviceCopy> crate::private::Sealed for LockedBuffer<T> {}

impl<T: DeviceCopy> LockedBuffer<T> {
    /// The raw address of the owned allocation.
    pub closed spec fn spec_addr(&self) -> usize {
        self.addr
    }

    /// What the buffer holds, element by element.
    pub closed spec fn spec_data(&self) -> Seq<T> {
        self.data@
    }

    /// Returns the number of elements in the buffer.
    pub fn len(&self) -> (r: usize)
        ensures
            r == self.spec_data().len(),
    {
        self.data.len()
    }

    /// Returns true if the buffer holds no elements.
    pub fn is_empty(&self) -> (r: bool)
        ensures
            r == (self.spec_data().len() == 0),
    {
        self.data.len() == 0
    }

    /// Extracts a slice containing the entire buffer.
    pub fn as_slice(&self) -> (r: &[T])
        ensures
            r@ == self.spec_data(),
    {
        self.data.as_slice()
    }

    /// Extracts a mutable slice of the entire buffer; the memory is
    /// host-visible and writes through the slice land in the buffer.
    pub fn as_mut_slice(&mut self) -> (r: &mut [T])
        ensures
            r@ == old(self).spec_data(),
            final(self).spec_data() == final(r)@,
            final(self).spec_addr() == old(self).spec_addr(),
    {
        self.data.as_mut_slice()
    }

    /// Reads the element at `index`; the memory is host-visible.
    pub fn get(&self, index: usize) -> (r: &T)
        requires
            index < self.spec_data().len(),
        ensures
            *r == self.spec_data()[index as int],
    {
        &self.data[index]
    }

    /// Writes the element at `index` in place; the memory is host-visible.
    pub fn set(&mut self, index: usize, value: T)
        requires
            index < old(self).spec_data().len(),
        ensures
            final(self).spec_data() == old(self).spec_data().update(index as int, value),
            final(self).spec_addr() == old(self).spec_addr(),
    {
        self.data[index] = value;
    }


    /// Replaces the whole buffer contents in place, for a completed
    /// device-to-host transfer.
    pub(crate) fn set_all(&mut self, data: Vec<T>)
        requires
            data@.len() == old(self).spec_data().len(),
        ensures
            final(self).spec_data() == data@,
            final(self).spec_addr() == old(self).spec_addr(),
    {
        self.data = data;
    }

    /// Destroys a `LockedBuffer`, releasing its allocation.
    ///
    /// A buffer that never allocated (null address, zero length, or
    /// zero-sized `T`) is destroyed without any driver work. The model
    /// driver's release never fails, so this always succeeds.
    pub fn drop(buf: LockedBuffer<T>) -> (r: DropResult<LockedBuffer<T>>)
        ensures
            r is Ok,
    {
        if buf.addr == 0 {
            return Ok(());
        }
        if buf.data.len() > 0 && core::mem::size_of::<T>() > 0 {
            match cuda_free_locked(buf.addr) {
                Ok(()) => Ok(()),
                Err(e) => Err((e, buf)),
            }
        } else {
            Ok(())
        }
    }
}

impl<T: DeviceCopy + Copy> LockedBuffer<T> {
    /// Allocates a new page-locked buffer large enough to hold `size`
    /// elements, each initialized with a copy of `value`.
    ///
    /// When the byte size `size * size_of::<T>()` is zero, no driver
    /// allocation is made: the buffer holds a dangling, non-null sentinel
    /// address and the context is untouched.
    pub fn new(ctx: &mut Context, value: &T, size: usize) -> (r: CudaResult<LockedBuffer<T>>)
        requires
            old(ctx).wf(),
        ensures
            final(ctx).wf(),
            r is Ok <==> size * size_of::<T>() <= usize::MAX && (size * size_of::<T>() == 0 || old(
                ctx,
            ).spec_next_addr() + size * size_of::<T>() <= usize::MAX),
            r matches Ok(b) ==> {
                &&& b.spec_data() == Seq::new(size as nat, |i: int| *value)
                &&& b.spec_addr() != 0
                &&& (size * size_of::<T>() == 0 ==> *final(ctx) == *old(ctx))
                &&& (size * size_of::<T>() > 0 ==> b.spec_addr() == old(ctx).spec_next_addr()
                    && final(ctx).spec_next_addr() == b.spec_addr() + size * size_of::<T>())
            },
            size * size_of::<T>() > usize::MAX ==> r == Err::<LockedBuffer<T>, CudaError>(
                CudaError::InvalidMemoryAllocation,
            ),
            r is Err ==> *final(ctx) == *old(ctx),
    {
        let addr = LockedBuffer::<T>::alloc_addr(ctx, size)?;
        let mut data: Vec<T> = Vec::new();
        let mut i: usize = 0;
        while i < size
            invariant
                i <= size,
                data@ == Seq::new(i as nat, |j: int| *value),
            decreases size - i,
        {
            data.push(*value);
            proof {
                assert(data@ =~= Seq::new((i + 1) as nat, |j: int| *value));
            }
            i = i + 1;
        }
        Ok(LockedBuffer { addr, data })
    }

    /// Allocates a new page-locked buffer of the same size as `slice`,
    /// initialized with a copy of its data.
    pub fn from_slice(ctx: &mut Context, slice: &[T]) -> (r: CudaResult<LockedBuffer<T>>)
        requires
            old(ctx).wf(),
        ensures
            final(ctx).wf(),
            r is Ok <==> slice@.len() * size_of::<T>() <= usize::MAX && (slice@.len()
                * size_of::<T>() == 0 || old(ctx).spec_next_addr() + slice@.len() * size_of::<T>()
                <= usize::MAX),
            r matches Ok(b) ==> {
                &&& b.spec_data() == slice@
                &&& b.spec_addr() != 0
                &&& (slice@.len() * size_of::<T>() == 0 ==> *final(ctx) == *old(ctx))
                &&& (slice@.len() * size_of::<T>() > 0 ==> b.spec_addr() == old(
                    ctx,
                ).spec_next_addr() && final(ctx).spec_next_addr() == b.spec_addr() + slice@.len()
                    * size_of::<T>())
            },
            r is Err ==> *final(ctx) == *old(ctx),
    {
        let addr = LockedBuffer::<T>::alloc_addr(ctx, slice.len())?;
        let mut data: Vec<T> = Vec::new();
        let n = slice.len();
        let mut i: usize = 0;
        while i < n
            invariant
                i <= n,
                n == slice@.len(),
                data@ == slice@.subrange(0, i as int),
            decreases n - i,
        {
            let x = slice[i];
            data.push(x);
            proof {
                assert(data@ =~= slice@.subrange(0, (i + 1) as int));
            }
            i = i + 1;
        }
        proof {
            assert(data@ =~= slice@);
        }
        Ok(LockedBuffer { addr, data })
    }

    /// Grants the address for a buffer of `size` elements: a fresh
    /// allocation when the byte size is positive, the dangling sentinel when
    /// it is zero, and the buffer-family error when it overflows.
    fn alloc_addr(ctx: &mut Context, size: usize) -> (r: CudaResult<usize>)
        requires
            old(ctx).wf(),
        ensures
            final(ctx).wf(),
            r is Ok <==> size * size_of::<T>() <= usize::MAX && (size * size_of::<T>() == 0 || old(
                ctx,
            ).spec_next_addr() + size * size_of::<T>() <= usize::MAX),
            r matches Ok(addr) ==> {
                &&& addr != 0
                &&& (size * size_of::<T>() == 0 ==> *final(ctx) == *old(ctx))
                &&& (size * size_of::<T>() > 0 ==> addr == old(ctx).spec_next_addr()
                    && final(ctx).spec_next_addr() == addr + size * size_of::<T>())
            },
            size * size_of::<T>() > usize::MAX ==> r == Err::<usize, CudaError>(
                CudaError::InvalidMemoryAllocation,
            ),
            r is Err ==> *final(ctx) == *old(ctx),
    {
        let bytes = match size.checked_mul(core::mem::size_of::<T>()) {
            Some(b) => b,
            None => {
                return Err(CudaError::InvalidMemoryAllocation);
            },
        };
        if bytes > 0 {
            proof {
                if size_of::<T>() != 0 {
                    assert(size * size_of::<T>() == size as int * size_of::<T>() as int);
                }
            }
            cuda_malloc_locked::<T>(ctx, size)
        } else {
            vstd::layout::layout_for_type_is_valid::<T>();
            Ok(core::mem::align_of::<T>())
        }
    }
}

} // verus!
