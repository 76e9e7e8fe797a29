//! Device-exclusive memory: owned boxes and buffers, borrowless slice views,
//! and the direction-dispatching copy protocol.
//!
//! Device memory is opaque to the host. The model keeps, for every owned
//! device allocation, the address it was granted and the values the device
//! memory holds, element by element; an element is `None` until something has
//! been copied into it, and reading an element back to the host requires it
//! to have been written. That turns the underlying API's "reading
//! uninitialized memory is undefined behavior" into a precondition.

use vstd::prelude::*;
use vstd::layout::size_of;
use crate::context::Context;
use crate::error::{CudaError, CudaResult, DropResult};
use crate::memory::locked::LockedBuffer;
use crate::memory::pointer::DevicePointer;
use crate::memory::DeviceCopy;
use crate::stream::{Stream, StreamOp};

verus! {

/// The protocol for copying data between host and device memory, or from one
/// device allocation to another.
///
/// The direction of the transfer is selected by the pair of concrete types.
/// Each implementation states, through its four specification functions,
/// exactly when a copy is allowed and exactly what it leaves behind. A copy
/// whose precondition holds always succeeds in the model driver.
pub trait CopyDestination<O>: crate::private::Sealed {
    /// When `self.copy_from(source)` is allowed: the sizes must agree and the
    /// source must be readable.
    spec fn can_copy_from(&self, source: &O) -> bool;

    /// When `self.copy_to(dest)` is allowed: the sizes must agree and `self`
    /// must be readable.
    spec fn can_copy_to(&self, dest: &O) -> bool;

    /// Exactly how `copy_from` rewrites `self` (the receiver is the value
    /// before the call, `updated` the value after it).
    spec fn copy_from_rel(&self, source: &O, updated: &Self) -> bool;

    /// Exactly how `copy_to` rewrites `dest`.
    spec fn copy_to_rel(&self, old_dest: &O, dest: &O) -> bool;

    /// Copy data from `source`. `source` must be the same size as `self`.
    fn copy_from(&mut self, source: &O) -> (r: CudaResult<()>)
        requires
            old(self).can_copy_from(source),
        ensures
            r is Ok,
            old(self).copy_from_rel(source, final(self)),
    ;

    /// Copy data to `dest`. `dest` must be the same size as `self`.
    fn copy_to(&self, dest: &mut O) -> (r: CudaResult<()>)
        requires
            self.can_copy_to(old(dest)),
        ensures
            r is Ok,
            self.copy_to_rel(old(dest), final(dest)),
    ;
}

/// An owned box holding exactly one value in device memory.
///
/// The host cannot touch the value directly; it moves through the
/// [`CopyDestination`] protocol. For a zero-sized `T` no allocation is made
/// at all and the box holds the null pointer.
#[derive(Debug)]
pub struct DeviceBox<T: DeviceCopy> {
    ptr: DevicePointer<T>,
    data: Option<T>,
}

impl<T: DeviceCopy> crate::private::Sealed for DeviceBox<T> {}

impl<T: DeviceCopy> DeviceBox<T> {
    /// The device pointer this box owns.
    pub closed spec fn spec_ptr(&self) -> DevicePointer<T> {
        self.ptr
    }

    /// What the owned device memory holds: `None` while it is uninitialized.
    pub closed spec fn spec_contents(&self) -> Option<T> {
        self.data
    }

    /// Allocates device memory for one `T`, but does not initialize it.
    /// Reading the box back to the host first requires copying a value in.
    ///
    /// This does not allocate when `T` is zero-sized; the box then holds the
    /// null pointer and the context is untouched.
    pub fn uninitialized(ctx: &mut Context) -> (r: CudaResult<DeviceBox<T>>)
        requires
            old(ctx).wf(),
        ensures
            final(ctx).wf(),
            r is Ok <==> size_of::<T>() == 0 || old(ctx).spec_next_addr() + size_of::<T>()
                <= usize::MAX,
            r matches Ok(b) ==> {
                &&& b.spec_contents() is None
                &&& (size_of::<T>() == 0 ==> b.spec_ptr().spec_addr() == 0 && *final(ctx) == *old(
                    ctx,
                ))
                &&& (size_of::<T>() != 0 ==> b.spec_ptr().spec_addr() == old(
                    ctx,
                ).spec_next_addr() && b.spec_ptr().spec_addr() != 0 && final(ctx).spec_next_addr()
                    == b.spec_ptr().spec_addr() + size_of::<T>())
            },
            r is Err ==> *final(ctx) == *old(ctx),
    {
        if core::mem::size_of::<T>() == 0 {
            Ok(DeviceBox { ptr: DevicePointer::null(), data: None })
        } else {
            proof {
                vstd::arithmetic::mul::lemma_mul_basics(size_of::<T>() as int);
            }
            let ptr = crate::memory::malloc::cuda_malloc::<T>(ctx, 1)?;
            Ok(DeviceBox { ptr, data: None })
        }
    }

    /// Constructs a `DeviceBox` from a raw address.
    ///
    /// The box takes ownership of the address; the adopted memory is not
    /// tracked by the model and counts as uninitialized until written.
    pub fn from_raw(addr: usize) -> (r: DeviceBox<T>)
        ensures
            r.spec_ptr().spec_addr() == addr,
            r.spec_contents() is None,
    {
        DeviceBox { ptr: DevicePointer::wrap(addr), data: None }
    }

    /// Constructs a `DeviceBox` from a [`DevicePointer`], taking ownership.
    /// The adopted memory counts as uninitialized until written.
    pub fn from_device(ptr: DevicePointer<T>) -> (r: DeviceBox<T>)
        ensures
            r.spec_ptr() == ptr,
            r.spec_contents() is None,
    {
        DeviceBox { ptr, data: None }
    }

    /// Consumes the box, returning the wrapped [`DevicePointer`]. The caller
    /// becomes responsible for the memory previously managed by the box; the
    /// box itself no longer releases anything.
    pub fn into_device(b: DeviceBox<T>) -> (r: DevicePointer<T>)
        ensures
            r == b.spec_ptr(),
    {
        b.ptr
    }

    /// Returns the contained device pointer without consuming the box. This
    /// is useful for passing the box to a kernel launch.
    pub fn as_device_ptr(&mut self) -> (r: DevicePointer<T>)
        ensures
            r == old(self).spec_ptr(),
            *final(self) == *old(self),
    {
        self.ptr
    }

    /// Destroys a `DeviceBox`, releasing its allocation.
    ///
    /// A box holding the null pointer is destroyed without any driver work.
    /// The model driver's release never fails, so this always succeeds; the
    /// failing branch of [`DropResult`] would return the error together with
    /// the still-owned box.
    pub fn drop(dev_box: DeviceBox<T>) -> (r: DropResult<DeviceBox<T>>)
        ensures
            r is Ok,
    {
        if dev_box.ptr.is_null() {
            return Ok(());
        }
        match crate::memory::malloc::cuda_free(dev_box.ptr) {
            Ok(()) => Ok(()),
            Err(e) => Err((e, dev_box)),
        }
    }
}

impl<T: DeviceCopy + Copy> DeviceBox<T> {
    /// Allocates device memory and places `val` into it.
    ///
    /// This does not allocate when `T` is zero-sized; the box then holds the
    /// null pointer, and the context is untouched.
    pub fn new(ctx: &mut Context, val: &T) -> (r: CudaResult<DeviceBox<T>>)
        requires
            old(ctx).wf(),
        ensures
            final(ctx).wf(),
            r is Ok <==> size_of::<T>() == 0 || old(ctx).spec_next_addr() + size_of::<T>()
                <= usize::MAX,
            r matches Ok(b) ==> {
                &&& b.spec_contents() == Some(*val)
                &&& (size_of::<T>() == 0 ==> b.spec_ptr().spec_addr() == 0 && *final(ctx) == *old(
                    ctx,
                ))
                &&& (size_of::<T>() != 0 ==> b.spec_ptr().spec_addr() == old(
                    ctx,
                ).spec_next_addr() && b.spec_ptr().spec_addr() != 0 && final(ctx).spec_next_addr()
                    == b.spec_ptr().spec_addr() + size_of::<T>())
            },
            r is Err ==> *final(ctx) == *old(ctx),
    {
        let mut dev_box = DeviceBox::uninitialized(ctx)?;
        let _ = dev_box.copy_from(val);
        Ok(dev_box)
    }
}

impl<T: DeviceCopy + Copy> CopyDestination<T> for DeviceBox<T> {
    /// A host value can always be copied in: the sizes agree by type.
    open spec fn can_copy_from(&self, source: &T) -> bool {
        true
    }

    /// Reading back to the host requires the device memory to hold a value.
    open spec fn can_copy_to(&self, dest: &T) -> bool {
        self.spec_contents() is Some
    }

    /// The device memory holds exactly the copied value afterwards.
    open spec fn copy_from_rel(&self, source: &T, updated: &Self) -> bool {
        &&& updated.spec_contents() == Some(*source)
        &&& updated.spec_ptr() == self.spec_ptr()
    }

    /// The host value is exactly what the device memory holds.
    open spec fn copy_to_rel(&self, old_dest: &T, dest: &T) -> bool {
        self.spec_contents() == Some(*dest)
    }

    fn copy_from(&mut self, source: &T) -> (r: CudaResult<()>) {
        self.data = Some(*source);
        Ok(())
    }

    fn copy_to(&self, dest: &mut T) -> (r: CudaResult<()>) {
        let held = self.data;
        *dest = held.unwrap();
        Ok(())
    }
}

impl<T: DeviceCopy + Copy> CopyDestination<DeviceBox<T>> for DeviceBox<T> {
    /// A device-to-device copy is always allowed; an uninitialized source
    /// leaves the destination uninitialized.
    open spec fn can_copy_from(&self, source: &DeviceBox<T>) -> bool {
        true
    }

    open spec fn can_copy_to(&self, dest: &DeviceBox<T>) -> bool {
        true
    }

    /// The destination's memory afterwards holds what the source held.
    open spec fn copy_from_rel(&self, source: &DeviceBox<T>, updated: &Self) -> bool {
        &&& updated.spec_contents() == source.spec_contents()
        &&& updated.spec_ptr() == self.spec_ptr()
    }

    open spec fn copy_to_rel(&self, old_dest: &DeviceBox<T>, dest: &DeviceBox<T>) -> bool {
        &&& dest.spec_contents() == self.spec_contents()
        &&& dest.spec_ptr() == old_dest.spec_ptr()
    }

    fn copy_from(&mut self, source: &DeviceBox<T>) -> (r: CudaResult<()>) {
        self.data = source.data;
        Ok(())
    }

    fn copy_to(&self, dest: &mut DeviceBox<T>) -> (r: CudaResult<()>) {
        dest.data = self.data;
        Ok(())
    }
}

/// The round trip a value takes through a device box: copying `v` in and
/// then copying back out yields `v` again, bit for bit.
///
/// `before` is any box, `held` the same box after `copy_from(&v)`, and
/// `read` the host value after `held.copy_to(..)` overwrote `w`.
pub proof fn lemma_box_round_trip<T: DeviceCopy + Copy>(
    before: DeviceBox<T>,
    held: DeviceBox<T>,
    v: T,
    w: T,
    read: T,
)
    requires
        before.copy_from_rel(&v, &held),
        held.copy_to_rel(&w, &read),
    ensures
        read == v,
{
}


/// The device-memory image of a host sequence: every element written.
pub open spec fn device_seq<T>(s: Seq<T>) -> Seq<Option<T>> {
    Seq::new(s.len(), |i: int| Some(s[i]))
}

/// Whether every element of a device allocation has been written.
pub open spec fn all_written<T>(s: Seq<Option<T>>) -> bool {
    forall|i: int| 0 <= i < s.len() ==> (#[trigger] s[i]) is Some
}

/// Copies the window `[start, end)` of a run of device cells.
fn copy_window<T: DeviceCopy + Copy>(data: &Vec<Option<T>>, start: usize, end: usize) -> (r: Vec<
    Option<T>,
>)
    requires
        start <= end,
        end <= data@.len(),
    ensures
        r@ == data@.subrange(start as int, end as int),
{
    let mut out: Vec<Option<T>> = Vec::new();
    let mut i: usize = start;
    while i < end
        invariant
            start <= i <= end,
            end <= data@.len(),
            out@ == data@.subrange(start as int, i as int),
        decreases end - i,
    {
        let x = data[i];
        out.push(x);
        proof {
            assert(out@ =~= data@.subrange(start as int, (i + 1) as int));
        }
        i = i + 1;
    }
    out
}

/// A run of `n` uninitialized device cells.
fn none_cells<T: DeviceCopy>(n: usize) -> (r: Vec<Option<T>>)
    ensures
        r@.len() == n,
        forall|i: int| 0 <= i < n ==> (#[trigger] r@[i]) is None,
{
    let mut out: Vec<Option<T>> = Vec::new();
    let mut i: usize = 0;
    while i < n
        invariant
            i <= n,
            out@.len() == i,
            forall|j: int| 0 <= j < i ==> (#[trigger] out@[j]) is None,
        decreases n - i,
    {
        out.push(None);
        i = i + 1;
    }
    out
}

/// The device image of a host slice, cell by cell.
fn cells_from_host<T: DeviceCopy + Copy>(src: &[T]) -> (r: Vec<Option<T>>)
    ensures
        r@ == device_seq(src@),
{
    let mut out: Vec<Option<T>> = Vec::new();
    let n = src.len();
    let mut i: usize = 0;
    while i < n
        invariant
            i <= n,
            n == src@.len(),
            out@ == device_seq(src@).subrange(0, i as int),
        decreases n - i,
    {
        let x = src[i];
        out.push(Some(x));
        proof {
            assert(out@ =~= device_seq(src@).subrange(0, (i + 1) as int));
        }
        i = i + 1;
    }
    proof {
        assert(out@ =~= device_seq(src@));
    }
    out
}

/// Reads a fully written run of device cells back into host values.
fn cells_to_host<T: DeviceCopy + Copy>(data: &Vec<Option<T>>) -> (r: Vec<T>)
    requires
        all_written(data@),
    ensures
        device_seq(r@) == data@,
{
    let mut out: Vec<T> = Vec::new();
    let n = data.len();
    let mut i: usize = 0;
    while i < n
        invariant
            i <= n,
            n == data@.len(),
            all_written(data@),
            out@.len() == i,
            forall|j: int| 0 <= j < i ==> Some(#[trigger] out@[j]) == data@[j],
        decreases n - i,
    {
        let x = data[i];
        out.push(x.unwrap());
        i = i + 1;
    }
    proof {
        assert(device_seq(out@) =~= data@);
    }
    out
}

/// A window into device memory, without ownership of the allocation.
///
/// A `DeviceSlice` is a value: it records the window's starting address and
/// what the device memory in the window held when the view was taken, and
/// device-to-device copies flow through it. Writing through a `DeviceSlice`
/// updates this view only, never the buffer it was read from: a borrowed,
/// write-through sub-view cannot be expressed here, so regions of a buffer
/// are written through the buffer itself.
#[derive(Debug)]
pub struct DeviceSlice<T: DeviceCopy> {
    addr: usize,
    data: Vec<Option<T>>,
}

impl<T: DeviceCopy> crate::private::Sealed for DeviceSlice<T> {}

impl<T: DeviceCopy> DeviceSlice<T> {
    /// The starting address of the window.
    pub closed spec fn spec_addr(&self) -> usize {
        self.addr
    }

    /// What the device memory in the window holds, cell by cell.
    pub closed spec fn spec_data(&self) -> Seq<Option<T>> {
        self.data@
    }

    /// Well-formedness: the window lies within the address space.
    pub open spec fn wf(&self) -> bool {
        self.spec_addr() + self.spec_data().len() * size_of::<T>() <= usize::MAX
    }

    /// Returns the number of elements in the slice.
    pub fn len(&self) -> (r: usize)
        ensures
            r == self.spec_data().len(),
    {
        self.data.len()
    }

    /// Returns true if the slice has a length of 0.
    pub fn is_empty(&self) -> (r: bool)
        ensures
            r == (self.spec_data().len() == 0),
    {
        self.data.len() == 0
    }

    /// Returns the raw starting address of the window. It is not valid on
    /// the host.
    pub fn as_ptr(&self) -> (r: usize)
        ensures
            r == self.spec_addr(),
    {
        self.addr
    }

    /// Returns the raw starting address of the window for mutation through
    /// the device.
    pub fn as_mut_ptr(&mut self) -> (r: usize)
        ensures
            r == old(self).spec_addr(),
            *final(self) == *old(self),
    {
        self.addr
    }

    /// Forms a slice view from a [`DevicePointer`] and a length, adopting a
    /// window of device memory. The adopted memory is not tracked by the
    /// model and counts as uninitialized until written.
    pub fn from_raw_parts(data: DevicePointer<T>, len: usize) -> (r: DeviceSlice<T>)
        requires
            data.spec_addr() + len * size_of::<T>() <= usize::MAX,
        ensures
            r.wf(),
            r.spec_addr() == data.spec_addr(),
            r.spec_data().len() == len,
            forall|i: int| 0 <= i < len ==> (#[trigger] r.spec_data()[i]) is None,
    {
        DeviceSlice { addr: data.as_raw(), data: none_cells(len) }
    }

    /// Returns a [`DevicePointer`] to the start of the window, for passing
    /// to a kernel launch.
    pub fn as_device_ptr(&mut self) -> (r: DevicePointer<T>)
        ensures
            r.spec_addr() == old(self).spec_addr(),
            *final(self) == *old(self),
    {
        DevicePointer::wrap(self.addr)
    }
}

impl<T: DeviceCopy + Copy> DeviceSlice<T> {
    /// Divides one slice view into two at `mid`.
    ///
    /// The first window covers indices `[0, mid)`, the second `[mid, len)`.
    pub fn split_at(&self, mid: usize) -> (r: (DeviceSlice<T>, DeviceSlice<T>))
        requires
            mid <= self.spec_data().len(),
            self.wf(),
        ensures
            r.0.wf(),
            r.1.wf(),
            r.0.spec_addr() == self.spec_addr(),
            r.0.spec_data() == self.spec_data().subrange(0, mid as int),
            r.1.spec_addr() == self.spec_addr() + mid * size_of::<T>(),
            r.1.spec_data() == self.spec_data().subrange(
                mid as int,
                self.spec_data().len() as int,
            ),
    {
        proof {
            vstd::arithmetic::mul::lemma_mul_inequality(
                mid as int,
                self.spec_data().len() as int,
                size_of::<T>() as int,
            );
        }
        let left = DeviceSlice { addr: self.addr, data: copy_window(&self.data, 0, mid) };
        let size = core::mem::size_of::<T>();
        let right_addr = self.addr + mid * size;
        let right = DeviceSlice {
            addr: right_addr,
            data: copy_window(&self.data, mid, self.data.len()),
        };
        proof {
            assert((self.spec_data().len() - mid) * size_of::<T>() == self.spec_data().len()
                * size_of::<T>() - mid * size_of::<T>()) by (nonlinear_arith);
        }
        (left, right)
    }

    /// Returns an iterator over `chunk_size` elements of the slice at a
    /// time. The chunks are slice views and do not overlap. If `chunk_size`
    /// does not divide the length of the slice, the last chunk is shorter.
    pub fn chunks(&self, chunk_size: usize) -> (r: DeviceChunks<T>)
        requires
            chunk_size > 0,
            self.wf(),
        ensures
            r.wf(),
            r.spec_chunk_size() == chunk_size,
            r.spec_rest().spec_addr() == self.spec_addr(),
            r.spec_rest().spec_data() == self.spec_data(),
    {
        let rest = DeviceSlice {
            addr: self.addr,
            data: copy_window(&self.data, 0, self.data.len()),
        };
        DeviceChunks { rest, chunk_size }
    }
}

/// Splitting a slice view at any valid index yields two windows whose
/// lengths add back up to the whole, and whose contents, in order, are
/// exactly the whole.
pub proof fn lemma_split_lengths<T: DeviceCopy>(
    whole: DeviceSlice<T>,
    left: DeviceSlice<T>,
    right: DeviceSlice<T>,
    mid: int,
)
    requires
        0 <= mid <= whole.spec_data().len(),
        left.spec_data() == whole.spec_data().subrange(0, mid),
        right.spec_data() == whole.spec_data().subrange(mid, whole.spec_data().len() as int),
    ensures
        left.spec_data().len() + right.spec_data().len() == whole.spec_data().len(),
        left.spec_data() + right.spec_data() == whole.spec_data(),
{
    assert(left.spec_data() + right.spec_data() =~= whole.spec_data());
}

/// An iterator over a [`DeviceSlice`] in non-overlapping chunks of
/// `chunk_size` elements at a time, front to back.
///
/// When the slice length is not evenly divided by the chunk size, the last
/// chunk of the iteration is the remainder.
#[derive(Debug)]
pub struct DeviceChunks<T: DeviceCopy> {
    rest: DeviceSlice<T>,
    chunk_size: usize,
}

/// The sequence of chunks that chunking `s` by `k` yields, in order.
pub open spec fn chunk_seq<T>(s: Seq<Option<T>>, k: int) -> Seq<Seq<Option<T>>>
    decreases s.len(),
{
    if k < 1 || s.len() == 0 {
        Seq::empty()
    } else if s.len() <= k {
        seq![s]
    } else {
        seq![s.subrange(0, k)] + chunk_seq(s.subrange(k, s.len() as int), k)
    }
}

impl<T: DeviceCopy> DeviceChunks<T> {
    /// The window the chunks not yet handed out will come from.
    pub closed spec fn spec_rest(&self) -> DeviceSlice<T> {
        self.rest
    }

    /// The configured chunk size.
    pub closed spec fn spec_chunk_size(&self) -> usize {
        self.chunk_size
    }

    /// Well-formedness: a positive chunk size over a window in the address
    /// space.
    pub open spec fn wf(&self) -> bool {
        &&& self.spec_rest().wf()
        &&& self.spec_chunk_size() > 0
    }

    /// The chunks this iterator has yet to hand out, in order.
    pub open spec fn spec_chunks(&self) -> Seq<Seq<Option<T>>> {
        chunk_seq(self.spec_rest().spec_data(), self.spec_chunk_size() as int)
    }
}

impl<T: DeviceCopy + Copy> DeviceChunks<T> {
    /// Hands out the next chunk, or `None` when the window is exhausted.
    ///
    /// Each chunk is a window of `chunk_size` elements, except the last one,
    /// which holds whatever remains.
    pub fn next(&mut self) -> (r: Option<DeviceSlice<T>>)
        requires
            old(self).wf(),
        ensures
            final(self).wf(),
            final(self).spec_chunk_size() == old(self).spec_chunk_size(),
            old(self).spec_rest().spec_data().len() == 0 ==> r is None && *final(self) == *old(self),
            old(self).spec_rest().spec_data().len() > 0 ==> (r matches Some(c) && {
                let s = old(self).spec_rest().spec_data();
                let k = old(self).spec_chunk_size() as int;
                let take = if s.len() <= k {
                    s.len() as int
                } else {
                    k
                };
                &&& c.wf()
                &&& c.spec_addr() == old(self).spec_rest().spec_addr()
                &&& c.spec_data() == s.subrange(0, take)
                &&& final(self).spec_rest().spec_data() == s.subrange(take, s.len() as int)
                &&& old(self).spec_chunks() == seq![c.spec_data()] + final(self).spec_chunks()
            }),
    {
        let n = self.rest.len();
        if n == 0 {
            return None;
        }
        let take = if n <= self.chunk_size {
            n
        } else {
            self.chunk_size
        };
        let (chunk, rest) = self.rest.split_at(take);
        self.rest = rest;
        proof {
            let s = old(self).spec_rest().spec_data();
            let k = old(self).spec_chunk_size() as int;
            if s.len() <= k {
                assert(chunk.spec_data() =~= s);
                assert(final(self).spec_rest().spec_data() =~= s.subrange(
                    s.len() as int,
                    s.len() as int,
                ));
                assert(old(self).spec_chunks() =~= seq![chunk.spec_data()]
                    + final(self).spec_chunks());
            } else {
                assert(old(self).spec_chunks() =~= seq![chunk.spec_data()]
                    + final(self).spec_chunks());
            }
        }
        Some(chunk)
    }
}

/// How many chunks chunking a window of `n` elements by `k` yields: the
/// length divided by the chunk size, rounded up.
pub proof fn lemma_chunk_count<T>(s: Seq<Option<T>>, k: int)
    requires
        k >= 1,
    ensures
        chunk_seq(s, k).len() == (s.len() + k - 1) / k,
    decreases s.len(),
{
    if s.len() == 0 {
        assert((k - 1) / k == 0) by (nonlinear_arith)
            requires
                k >= 1,
        ;
    } else if s.len() <= k {
        assert((s.len() + k - 1) / k == 1) by (nonlinear_arith)
            requires
                k >= 1,
                1 <= s.len() <= k,
        ;
    } else {
        let rest = s.subrange(k, s.len() as int);
        lemma_chunk_count(rest, k);
        assert((rest.len() + k - 1) / k + 1 == (s.len() + k - 1) / k) by (nonlinear_arith)
            requires
                k >= 1,
                rest.len() == s.len() - k,
                s.len() > k,
        ;
    }
}

/// The chunks come out in order and cover the window exactly: the `i`-th
/// chunk is the window's elements `[i*k, i*k + k)`, cut short at the end.
pub proof fn lemma_chunk_at<T>(s: Seq<Option<T>>, k: int, i: int)
    requires
        k >= 1,
        0 <= i < chunk_seq(s, k).len(),
    ensures
        0 <= i * k < s.len(),
        chunk_seq(s, k)[i] == s.subrange(
            i * k,
            if s.len() < i * k + k {
                s.len() as int
            } else {
                i * k + k
            },
        ),
        chunk_seq(s, k)[i].len() == if s.len() < i * k + k {
            s.len() - i * k
        } else {
            k
        },
    decreases s.len(),
{
    if s.len() == 0 {
    } else if s.len() <= k {
        assert(chunk_seq(s, k)[0] =~= s.subrange(0, s.len() as int));
    } else {
        let rest = s.subrange(k, s.len() as int);
        if i == 0 {
            assert(i * k == 0) by (nonlinear_arith)
                requires
                    i == 0,
            ;
        } else {
            assert(chunk_seq(s, k) == seq![s.subrange(0, k)] + chunk_seq(rest, k));
            assert(chunk_seq(s, k).len() == 1 + chunk_seq(rest, k).len());
            lemma_chunk_at(rest, k, i - 1);
            assert((i - 1) * k == i * k - k) by (nonlinear_arith);
            let hi_rest = if rest.len() < (i - 1) * k + k {
                rest.len() as int
            } else {
                (i - 1) * k + k
            };
            assert(chunk_seq(s, k)[i] == chunk_seq(rest, k)[i - 1]);
            assert(rest.subrange((i - 1) * k, hi_rest) =~= s.subrange(
                i * k,
                if s.len() < i * k + k {
                    s.len() as int
                } else {
                    i * k + k
                },
            ));
        }
    }
}


/// A fixed-size buffer of `T`s in device memory.
///
/// The buffer owns its allocation: it is created against a [`Context`],
/// released by [`DeviceBuffer::drop`] or when it goes out of scope, and its
/// contents move through the [`CopyDestination`] protocol. A buffer of zero
/// bytes (zero length, or a zero-sized `T`) makes no driver allocation and
/// holds the dangling-but-non-null sentinel address instead.
#[derive(Debug)]
pub struct DeviceBuffer<T: DeviceCopy> {
    buf: DevicePointer<T>,
    data: Vec<Option<T>>,
}

impl<T: DeviceCopy> crate::private::Sealed for DeviceBuffer<T> {}

impl<T: DeviceCopy> DeviceBuffer<T> {
    /// The device pointer this buffer owns.
    pub closed spec fn spec_ptr(&self) -> DevicePointer<T> {
        self.buf
    }

    /// What the owned device memory holds, cell by cell.
    pub closed spec fn spec_data(&self) -> Seq<Option<T>> {
        self.data@
    }

    /// Well-formedness: the allocation lies within the address space.
    pub open spec fn wf(&self) -> bool {
        self.spec_ptr().spec_addr() + self.spec_data().len() * size_of::<T>() <= usize::MAX
    }

    /// Allocates a buffer large enough to hold `size` elements, without
    /// initializing them. Reading an element back first requires copying a
    /// value in.
    ///
    /// When the byte size `size * size_of::<T>()` is zero, no driver
    /// allocation is made: the buffer holds a dangling, non-null sentinel
    /// address and the context is untouched.
    pub fn uninitialized(ctx: &mut Context, size: usize) -> (r: CudaResult<DeviceBuffer<T>>)
        requires
            old(ctx).wf(),
        ensures
            final(ctx).wf(),
            r is Ok <==> size * size_of::<T>() <= usize::MAX && (size * size_of::<T>() == 0 || old(
                ctx,
            ).spec_next_addr() + size * size_of::<T>() <= usize::MAX),
            r matches Ok(b) ==> {
                &&& b.wf()
                &&& b.spec_data().len() == size
                &&& forall|i: int| 0 <= i < size ==> (#[trigger] b.spec_data()[i]) is None
                &&& b.spec_ptr().spec_addr() != 0
                &&& (size * size_of::<T>() == 0 ==> *final(ctx) == *old(ctx))
                &&& (size * size_of::<T>() > 0 ==> b.spec_ptr().spec_addr() == old(
                    ctx,
                ).spec_next_addr() && final(ctx).spec_next_addr() == b.spec_ptr().spec_addr()
                    + size * size_of::<T>())
            },
            size * size_of::<T>() > usize::MAX ==> r == Err::<DeviceBuffer<T>, CudaError>(
                CudaError::InvalidMemoryAllocation,
            ),
            r is Err ==> *final(ctx) == *old(ctx),
    {
        let bytes = match size.checked_mul(core::mem::size_of::<T>()) {
            Some(b) => b,
            None => {
                return Err(CudaError::InvalidMemoryAllocation);
            },
        };
        let addr = if bytes > 0 {
            match ctx.alloc_bytes(bytes) {
                Ok(a) => a,
                Err(e) => {
                    return Err(e);
                },
            }
        } else {
            vstd::layout::layout_for_type_is_valid::<T>();
            core::mem::align_of::<T>()
        };
        let data = none_cells(size);
        proof {
            if bytes == 0 {
                if size_of::<T>() == 0 {
                    assert(size * size_of::<T>() == 0);
                } else {
                    assert(size == 0) by (nonlinear_arith)
                        requires
                            size * size_of::<T>() == 0,
                            size_of::<T>() != 0,
                    ;
                }
            }
        }
        Ok(DeviceBuffer { buf: DevicePointer::wrap(addr), data })
    }

    /// Creates a `DeviceBuffer` directly from an owned pointer and a
    /// capacity, adopting the allocation. The adopted memory is not tracked
    /// by the model and counts as uninitialized until written.
    pub fn from_raw_parts(ptr: DevicePointer<T>, capacity: usize) -> (r: DeviceBuffer<T>)
        requires
            ptr.spec_addr() + capacity * size_of::<T>() <= usize::MAX,
        ensures
            r.wf(),
            r.spec_ptr() == ptr,
            r.spec_data().len() == capacity,
            forall|i: int| 0 <= i < capacity ==> (#[trigger] r.spec_data()[i]) is None,
    {
        DeviceBuffer { buf: ptr, data: none_cells(capacity) }
    }

    /// Destroys a `DeviceBuffer`, releasing its allocation.
    ///
    /// A buffer that never allocated (null pointer, zero length, or
    /// zero-sized `T`) is destroyed without any driver work. The model
    /// driver's release never fails, so this always succeeds.
    pub fn drop(dev_buf: DeviceBuffer<T>) -> (r: DropResult<DeviceBuffer<T>>)
        ensures
            r is Ok,
    {
        if dev_buf.buf.is_null() {
            return Ok(());
        }
        if dev_buf.data.len() > 0 && core::mem::size_of::<T>() > 0 {
            match crate::memory::malloc::cuda_free(dev_buf.buf) {
                Ok(()) => Ok(()),
                Err(e) => Err((e, dev_buf)),
            }
        } else {
            Ok(())
        }
    }

    /// The byte size of the buffer's extent, for recording a transfer.
    fn byte_len(&self) -> (r: usize)
        requires
            self.wf(),
        ensures
            r == self.spec_data().len() * size_of::<T>(),
    {
        proof {
            if self.spec_data().len() * size_of::<T>() != 0 {
                assert(self.spec_data().len() * size_of::<T>() == self.spec_data().len() as int
                    * size_of::<T>() as int);
            }
        }
        self.data.len() * core::mem::size_of::<T>()
    }

    /// Returns the number of elements in the buffer.
    pub fn len(&self) -> (r: usize)
        ensures
            r == self.spec_data().len(),
    {
        self.data.len()
    }

    /// Returns true if the buffer holds no elements.
    pub fn is_empty(&self) -> (r: bool)
        ensures
            r == (self.spec_data().len() == 0),
    {
        self.data.len() == 0
    }

    /// Returns the raw starting address of the buffer. It is not valid on
    /// the host.
    pub fn as_ptr(&self) -> (r: usize)
        ensures
            r == self.spec_ptr().spec_addr(),
    {
        self.buf.as_raw()
    }

    /// Returns the raw starting address of the buffer for mutation through
    /// the device.
    pub fn as_mut_ptr(&mut self) -> (r: usize)
        ensures
            r == old(self).spec_ptr().spec_addr(),
            *final(self) == *old(self),
    {
        self.buf.as_raw()
    }

    /// Returns the contained device pointer without consuming the buffer,
    /// for passing to a kernel launch.
    pub fn as_device_ptr(&mut self) -> (r: DevicePointer<T>)
        ensures
            r == old(self).spec_ptr(),
            *final(self) == *old(self),
    {
        self.buf
    }
}

impl<T: DeviceCopy + Copy> DeviceBuffer<T> {
    /// Allocates a buffer of the same size as `slice`, initialized with a
    /// copy of its data.
    pub fn from_slice(ctx: &mut Context, slice: &[T]) -> (r: CudaResult<DeviceBuffer<T>>)
        requires
            old(ctx).wf(),
        ensures
            final(ctx).wf(),
            r is Ok <==> slice@.len() * size_of::<T>() <= usize::MAX && (slice@.len()
                * size_of::<T>() == 0 || old(ctx).spec_next_addr() + slice@.len() * size_of::<T>()
                <= usize::MAX),
            r matches Ok(b) ==> {
                &&& b.wf()
                &&& b.spec_data() == device_seq(slice@)
                &&& b.spec_ptr().spec_addr() != 0
                &&& (slice@.len() * size_of::<T>() == 0 ==> *final(ctx) == *old(ctx))
                &&& (slice@.len() * size_of::<T>() > 0 ==> b.spec_ptr().spec_addr() == old(
                    ctx,
                ).spec_next_addr() && final(ctx).spec_next_addr() == b.spec_ptr().spec_addr()
                    + slice@.len() * size_of::<T>())
            },
            r is Err ==> *final(ctx) == *old(ctx),
    {
        let mut buf = DeviceBuffer::uninitialized(ctx, slice.len())?;
        buf.data = cells_from_host(slice);
        Ok(buf)
    }

    /// Returns a view of the window `[start, end)` of the buffer, the
    /// borrowless counterpart of range indexing.
    pub fn slice(&self, start: usize, end: usize) -> (r: DeviceSlice<T>)
        requires
            start <= end,
            end <= self.spec_data().len(),
            self.wf(),
        ensures
            r.wf(),
            r.spec_addr() == self.spec_ptr().spec_addr() + start * size_of::<T>(),
            r.spec_data() == self.spec_data().subrange(start as int, end as int),
    {
        let whole = self.as_slice();
        let (_, tail) = whole.split_at(start);
        let (window, _) = tail.split_at(end - start);
        proof {
            assert(window.spec_data() =~= self.spec_data().subrange(start as int, end as int));
        }
        window
    }

    /// Returns a view of the whole buffer.
    pub fn as_slice(&self) -> (r: DeviceSlice<T>)
        requires
            self.wf(),
        ensures
            r.wf(),
            r.spec_addr() == self.spec_ptr().spec_addr(),
            r.spec_data() == self.spec_data(),
    {
        DeviceSlice { addr: self.buf.as_raw(), data: copy_window(&self.data, 0, self.data.len()) }
    }

    /// Divides the buffer's window into two views at `mid`: indices
    /// `[0, mid)` and `[mid, len)`.
    pub fn split_at(&self, mid: usize) -> (r: (DeviceSlice<T>, DeviceSlice<T>))
        requires
            mid <= self.spec_data().len(),
            self.wf(),
        ensures
            r.0.wf(),
            r.1.wf(),
            r.0.spec_addr() == self.spec_ptr().spec_addr(),
            r.0.spec_data() == self.spec_data().subrange(0, mid as int),
            r.1.spec_addr() == self.spec_ptr().spec_addr() + mid * size_of::<T>(),
            r.1.spec_data() == self.spec_data().subrange(
                mid as int,
                self.spec_data().len() as int,
            ),
    {
        self.as_slice().split_at(mid)
    }

    /// Returns an iterator over `chunk_size` elements of the buffer at a
    /// time; the last chunk is shorter when `chunk_size` does not divide the
    /// length.
    pub fn chunks(&self, chunk_size: usize) -> (r: DeviceChunks<T>)
        requires
            chunk_size > 0,
            self.wf(),
        ensures
            r.wf(),
            r.spec_chunk_size() == chunk_size,
            r.spec_rest().spec_addr() == self.spec_ptr().spec_addr(),
            r.spec_rest().spec_data() == self.spec_data(),
    {
        self.as_slice().chunks(chunk_size)
    }
}

impl<T: DeviceCopy + Copy> CopyDestination<Vec<T>> for DeviceBuffer<T> {
    /// The host vector must hold exactly as many elements as the buffer.
    open spec fn can_copy_from(&self, source: &Vec<T>) -> bool {
        source@.len() == self.spec_data().len()
    }

    /// Reading back additionally requires every element to have been
    /// written.
    open spec fn can_copy_to(&self, dest: &Vec<T>) -> bool {
        &&& dest@.len() == self.spec_data().len()
        &&& all_written(self.spec_data())
    }

    /// The device memory holds exactly the host data afterwards.
    open spec fn copy_from_rel(&self, source: &Vec<T>, updated: &Self) -> bool {
        &&& updated.spec_data() == device_seq(source@)
        &&& updated.spec_ptr() == self.spec_ptr()
    }

    /// The host vector holds exactly the device data afterwards.
    open spec fn copy_to_rel(&self, old_dest: &Vec<T>, dest: &Vec<T>) -> bool {
        device_seq(dest@) == self.spec_data()
    }

    fn copy_from(&mut self, source: &Vec<T>) -> (r: CudaResult<()>) {
        self.data = cells_from_host(source.as_slice());
        Ok(())
    }

    fn copy_to(&self, dest: &mut Vec<T>) -> (r: CudaResult<()>) {
        *dest = cells_to_host(&self.data);
        Ok(())
    }
}

impl<T: DeviceCopy + Copy> CopyDestination<DeviceBuffer<T>> for DeviceBuffer<T> {
    /// The two buffers must hold the same number of elements; elements the
    /// source never wrote stay unwritten in the destination.
    open spec fn can_copy_from(&self, source: &DeviceBuffer<T>) -> bool {
        source.spec_data().len() == self.spec_data().len()
    }

    open spec fn can_copy_to(&self, dest: &DeviceBuffer<T>) -> bool {
        dest.spec_data().len() == self.spec_data().len()
    }

    open spec fn copy_from_rel(&self, source: &DeviceBuffer<T>, updated: &Self) -> bool {
        &&& updated.spec_data() == source.spec_data()
        &&& updated.spec_ptr() == self.spec_ptr()
    }

    open spec fn copy_to_rel(&self, old_dest: &DeviceBuffer<T>, dest: &DeviceBuffer<T>) -> bool {
        &&& dest.spec_data() == self.spec_data()
        &&& dest.spec_ptr() == old_dest.spec_ptr()
    }

    fn copy_from(&mut self, source: &DeviceBuffer<T>) -> (r: CudaResult<()>) {
        self.data = copy_window(&source.data, 0, source.data.len());
        proof {
            assert(self.spec_data() =~= source.spec_data());
        }
        Ok(())
    }

    fn copy_to(&self, dest: &mut DeviceBuffer<T>) -> (r: CudaResult<()>) {
        dest.data = copy_window(&self.data, 0, self.data.len());
        proof {
            assert(dest.spec_data() =~= self.spec_data());
        }
        Ok(())
    }
}

impl<T: DeviceCopy + Copy> CopyDestination<DeviceSlice<T>> for DeviceBuffer<T> {
    /// The slice view must hold exactly as many elements as the buffer.
    open spec fn can_copy_from(&self, source: &DeviceSlice<T>) -> bool {
        source.spec_data().len() == self.spec_data().len()
    }

    open spec fn can_copy_to(&self, dest: &DeviceSlice<T>) -> bool {
        dest.spec_data().len() == self.spec_data().len()
    }

    open spec fn copy_from_rel(&self, source: &DeviceSlice<T>, updated: &Self) -> bool {
        &&& updated.spec_data() == source.spec_data()
        &&& updated.spec_ptr() == self.spec_ptr()
    }

    /// Writing into a slice view updates the view value only, never the
    /// buffer the view was read from.
    open spec fn copy_to_rel(&self, old_dest: &DeviceSlice<T>, dest: &DeviceSlice<T>) -> bool {
        &&& dest.spec_data() == self.spec_data()
        &&& dest.spec_addr() == old_dest.spec_addr()
    }

    fn copy_from(&mut self, source: &DeviceSlice<T>) -> (r: CudaResult<()>) {
        self.data = copy_window(&source.data, 0, source.data.len());
        proof {
            assert(self.spec_data() =~= source.spec_data());
        }
        Ok(())
    }

    fn copy_to(&self, dest: &mut DeviceSlice<T>) -> (r: CudaResult<()>) {
        dest.data = copy_window(&self.data, 0, self.data.len());
        proof {
            assert(dest.spec_data() =~= self.spec_data());
        }
        Ok(())
    }
}

impl<T: DeviceCopy + Copy> CopyDestination<Vec<T>> for DeviceSlice<T> {
    /// The host vector must hold exactly as many elements as the window.
    open spec fn can_copy_from(&self, source: &Vec<T>) -> bool {
        source@.len() == self.spec_data().len()
    }

    /// Reading back additionally requires every element in the window to
    /// have been written.
    open spec fn can_copy_to(&self, dest: &Vec<T>) -> bool {
        &&& dest@.len() == self.spec_data().len()
        &&& all_written(self.spec_data())
    }

    /// Writing into a slice view updates the view value only, never the
    /// buffer the view was read from.
    open spec fn copy_from_rel(&self, source: &Vec<T>, updated: &Self) -> bool {
        &&& updated.spec_data() == device_seq(source@)
        &&& updated.spec_addr() == self.spec_addr()
    }

    open spec fn copy_to_rel(&self, old_dest: &Vec<T>, dest: &Vec<T>) -> bool {
        device_seq(dest@) == self.spec_data()
    }

    fn copy_from(&mut self, source: &Vec<T>) -> (r: CudaResult<()>) {
        self.data = cells_from_host(source.as_slice());
        Ok(())
    }

    fn copy_to(&self, dest: &mut Vec<T>) -> (r: CudaResult<()>) {
        *dest = cells_to_host(&self.data);
        Ok(())
    }
}

impl<T: DeviceCopy + Copy> CopyDestination<DeviceSlice<T>> for DeviceSlice<T> {
    open spec fn can_copy_from(&self, source: &DeviceSlice<T>) -> bool {
        source.spec_data().len() == self.spec_data().len()
    }

    open spec fn can_copy_to(&self, dest: &DeviceSlice<T>) -> bool {
        dest.spec_data().len() == self.spec_data().len()
    }

    /// Writing into a slice view updates the view value only, never the
    /// buffer the view was read from.
    open spec fn copy_from_rel(&self, source: &DeviceSlice<T>, updated: &Self) -> bool {
        &&& updated.spec_data() == source.spec_data()
        &&& updated.spec_addr() == self.spec_addr()
    }

    open spec fn copy_to_rel(&self, old_dest: &DeviceSlice<T>, dest: &DeviceSlice<T>) -> bool {
        &&& dest.spec_data() == self.spec_data()
        &&& dest.spec_addr() == old_dest.spec_addr()
    }

    fn copy_from(&mut self, source: &DeviceSlice<T>) -> (r: CudaResult<()>) {
        self.data = copy_window(&source.data, 0, source.data.len());
        proof {
            assert(self.spec_data() =~= source.spec_data());
        }
        Ok(())
    }

    fn copy_to(&self, dest: &mut DeviceSlice<T>) -> (r: CudaResult<()>) {
        dest.data = copy_window(&self.data, 0, self.data.len());
        proof {
            assert(dest.spec_data() =~= self.spec_data());
        }
        Ok(())
    }
}

impl<T: DeviceCopy + Copy> CopyDestination<DeviceBuffer<T>> for DeviceSlice<T> {
    open spec fn can_copy_from(&self, source: &DeviceBuffer<T>) -> bool {
        source.spec_data().len() == self.spec_data().len()
    }

    open spec fn can_copy_to(&self, dest: &DeviceBuffer<T>) -> bool {
        dest.spec_data().len() == self.spec_data().len()
    }

    /// Writing into a slice view updates the view value only, never the
    /// buffer the view was read from.
    open spec fn copy_from_rel(&self, source: &DeviceBuffer<T>, updated: &Self) -> bool {
        &&& updated.spec_data() == source.spec_data()
        &&& updated.spec_addr() == self.spec_addr()
    }

    open spec fn copy_to_rel(&self, old_dest: &DeviceBuffer<T>, dest: &DeviceBuffer<T>) -> bool {
        &&& dest.spec_data() == self.spec_data()
        &&& dest.spec_ptr() == old_dest.spec_ptr()
    }

    fn copy_from(&mut self, source: &DeviceBuffer<T>) -> (r: CudaResult<()>) {
        self.data = copy_window(&source.data, 0, source.data.len());
        proof {
            assert(self.spec_data() =~= source.spec_data());
        }
        Ok(())
    }

    fn copy_to(&self, dest: &mut DeviceBuffer<T>) -> (r: CudaResult<()>) {
        dest.data = copy_window(&self.data, 0, self.data.len());
        proof {
            assert(dest.spec_data() =~= self.spec_data());
        }
        Ok(())
    }
}

/// Two host sequences with the same device image are the same sequence.
proof fn lemma_device_seq_injective<T>(a: Seq<T>, b: Seq<T>)
    requires
        device_seq(a) == device_seq(b),
    ensures
        a == b,
{
    assert(device_seq(a).len() == a.len());
    assert(device_seq(b).len() == b.len());
    assert forall|i: int| 0 <= i < a.len() implies a[i] == b[i] by {
        assert(device_seq(a)[i] == Some(a[i]));
        assert(device_seq(b)[i] == Some(b[i]));
    }
    assert(a =~= b);
}

/// The round trip a host vector takes through a device buffer: copying `v`
/// in and then copying back out yields `v` again, element for element.
///
/// `before` is any buffer of `v`'s length, `held` the same buffer after
/// `copy_from(&v)`, and `read` the host vector after `held.copy_to(..)`
/// overwrote `w`.
pub proof fn lemma_buffer_round_trip<T: DeviceCopy + Copy>(
    before: DeviceBuffer<T>,
    held: DeviceBuffer<T>,
    v: Vec<T>,
    w: Vec<T>,
    read: Vec<T>,
)
    requires
        before.copy_from_rel(&v, &held),
        held.copy_to_rel(&w, &read),
    ensures
        read@ == v@,
{
    lemma_device_seq_injective(read@, v@);
}


/// The asynchronous variant of the copy protocol, ordered by an explicit
/// stream and restricted to page-locked host memory on the host side.
///
/// An asynchronous copy is enqueued on the given stream and completes only
/// in stream order: the enqueuer must not release, mutate, or read the
/// source and destination until the stream has been synchronized. The model
/// records the transfer on the stream and tracks the data it will have
/// moved by then; completion is observable only through the stream.
pub trait AsyncCopyDestination<O>: crate::private::Sealed {
    /// When `async_copy_from` may be enqueued.
    spec fn can_async_copy_from(&self, source: &O) -> bool;

    /// When `async_copy_to` may be enqueued.
    spec fn can_async_copy_to(&self, dest: &O) -> bool;

    /// Exactly how the transfer rewrites `self` by the time it completes.
    spec fn async_copy_from_rel(&self, source: &O, updated: &Self) -> bool;

    /// Exactly how the transfer rewrites `dest` by the time it completes.
    spec fn async_copy_to_rel(&self, old_dest: &O, dest: &O) -> bool;

    /// The byte count the enqueued transfer moves.
    spec fn transfer_bytes(&self) -> usize;

    /// Asynchronously copy data from `source`, ordered by `stream`.
    /// `source` must be the same size as `self`.
    fn async_copy_from(&mut self, source: &O, stream: &mut Stream) -> (r: CudaResult<()>)
        requires
            old(self).can_async_copy_from(source),
        ensures
            r is Ok,
            old(self).async_copy_from_rel(source, final(self)),
            final(stream).spec_pending() == old(stream).spec_pending().push(
                StreamOp::Transfer { bytes: old(self).transfer_bytes() },
            ),
            final(stream).spec_completed() == old(stream).spec_completed(),
            final(stream).spec_handle() == old(stream).spec_handle(),
            final(stream).spec_flags() == old(stream).spec_flags(),
            final(stream).spec_priority() == old(stream).spec_priority(),
    ;

    /// Asynchronously copy data to `dest`, ordered by `stream`. `dest` must
    /// be the same size as `self`.
    fn async_copy_to(&self, dest: &mut O, stream: &mut Stream) -> (r: CudaResult<()>)
        requires
            self.can_async_copy_to(old(dest)),
        ensures
            r is Ok,
            self.async_copy_to_rel(old(dest), final(dest)),
            final(stream).spec_pending() == old(stream).spec_pending().push(
                StreamOp::Transfer { bytes: self.transfer_bytes() },
            ),
            final(stream).spec_completed() == old(stream).spec_completed(),
            final(stream).spec_handle() == old(stream).spec_handle(),
            final(stream).spec_flags() == old(stream).spec_flags(),
            final(stream).spec_priority() == old(stream).spec_priority(),
    ;
}

impl<T: DeviceCopy + Copy> AsyncCopyDestination<LockedBuffer<T>> for DeviceBuffer<T> {
    /// The page-locked buffer must hold exactly as many elements as the
    /// device buffer, which must lie in the address space.
    open spec fn can_async_copy_from(&self, source: &LockedBuffer<T>) -> bool {
        &&& source.spec_data().len() == self.spec_data().len()
        &&& self.wf()
    }

    /// Reading back additionally requires every element to have been
    /// written.
    open spec fn can_async_copy_to(&self, dest: &LockedBuffer<T>) -> bool {
        &&& dest.spec_data().len() == self.spec_data().len()
        &&& all_written(self.spec_data())
        &&& self.wf()
    }

    /// The device memory holds exactly the page-locked data afterwards.
    open spec fn async_copy_from_rel(&self, source: &LockedBuffer<T>, updated: &Self) -> bool {
        &&& updated.spec_data() == device_seq(source.spec_data())
        &&& updated.spec_ptr() == self.spec_ptr()
    }

    /// The page-locked buffer holds exactly the device data afterwards.
    open spec fn async_copy_to_rel(&self, old_dest: &LockedBuffer<T>, dest: &LockedBuffer<T>) -> bool {
        &&& device_seq(dest.spec_data()) == self.spec_data()
        &&& dest.spec_addr() == old_dest.spec_addr()
    }

    open spec fn transfer_bytes(&self) -> usize {
        (self.spec_data().len() * size_of::<T>()) as usize
    }

    fn async_copy_from(&mut self, source: &LockedBuffer<T>, stream: &mut Stream) -> (r: CudaResult<
        (),
    >) {
        let bytes = self.byte_len();
        self.data = cells_from_host(source.as_slice());
        stream.record_transfer(bytes);
        Ok(())
    }

    fn async_copy_to(&self, dest: &mut LockedBuffer<T>, stream: &mut Stream) -> (r: CudaResult<
        (),
    >) {
        let bytes = self.byte_len();
        dest.set_all(cells_to_host(&self.data));
        stream.record_transfer(bytes);
        Ok(())
    }
}

impl<T: DeviceCopy + Copy> AsyncCopyDestination<DeviceBuffer<T>> for DeviceBuffer<T> {
    /// The two device buffers must hold the same number of elements;
    /// elements the source never wrote stay unwritten in the destination.
    open spec fn can_async_copy_from(&self, source: &DeviceBuffer<T>) -> bool {
        &&& source.spec_data().len() == self.spec_data().len()
        &&& self.wf()
    }

    open spec fn can_async_copy_to(&self, dest: &DeviceBuffer<T>) -> bool {
        &&& dest.spec_data().len() == self.spec_data().len()
        &&& self.wf()
    }

    open spec fn async_copy_from_rel(&self, source: &DeviceBuffer<T>, updated: &Self) -> bool {
        &&& updated.spec_data() == source.spec_data()
        &&& updated.spec_ptr() == self.spec_ptr()
    }

    open spec fn async_copy_to_rel(&self, old_dest: &DeviceBuffer<T>, dest: &DeviceBuffer<T>) -> bool {
        &&& dest.spec_data() == self.spec_data()
        &&& dest.spec_ptr() == old_dest.spec_ptr()
    }

    open spec fn transfer_bytes(&self) -> usize {
        (self.spec_data().len() * size_of::<T>()) as usize
    }

    fn async_copy_from(&mut self, source: &DeviceBuffer<T>, stream: &mut Stream) -> (r: CudaResult<
        (),
    >) {
        let bytes = self.byte_len();
        self.data = copy_window(&source.data, 0, source.data.len());
        proof {
            assert(self.spec_data() =~= source.spec_data());
        }
        stream.record_transfer(bytes);
        Ok(())
    }

    fn async_copy_to(&self, dest: &mut DeviceBuffer<T>, stream: &mut Stream) -> (r: CudaResult<
        (),
    >) {
        let bytes = self.byte_len();
        dest.data = copy_window(&self.data, 0, self.data.len());
        proof {
            assert(dest.spec_data() =~= self.spec_data());
        }
        stream.record_transfer(bytes);
        Ok(())
    }
}

} // verus!
