//! Streams of work for the device to perform.
//!
//! Most device work is performed asynchronously: the host enqueues
//! operations on a stream and continues; the device executes the stream's
//! operations strictly in enqueue order, without overlap among them. Work on
//! different streams has no ordering relationship. The host observes
//! completion only by joining the stream with [`Stream::synchronize`].
//!
//! The model stream records every enqueued operation in order; a join moves
//! the whole backlog, still in order, to the completed log. Host callbacks
//! are identified by a caller-chosen token; the runner that maps tokens to
//! host work lives outside the verified crate, and the completed log's order
//! is the order it fires them in.

use vstd::prelude::*;
use crate::error::{CudaResult, DropResult};
use crate::function::{BlockSize, Function, GridSize};

verus! {

/// Bit flags for configuring a stream.
#[derive(Debug, Clone, Copy, PartialEq, Eq)]
pub struct StreamFlags {
    bits: u32,
}

impl StreamFlags {
    /// The bits this flag set holds.
    pub closed spec fn spec_bits(&self) -> u32 {
        self.bits
    }

    /// No flags set.
    pub fn empty() -> (r: StreamFlags)
        ensures
            r.spec_bits() == 0,
    {
        StreamFlags { bits: 0 }
    }

    /// This stream does not synchronize with the legacy default stream.
    ///
    /// All work within a single stream is ordered regardless of this flag;
    /// it only decouples the stream from work enqueued on the legacy default
    /// queue, and it is recommended for every stream.
    pub fn non_blocking() -> (r: StreamFlags)
        ensures
            r.spec_bits() == 1,
    {
        StreamFlags { bits: 1 }
    }

    /// The raw bit representation of this flag set.
    pub fn bits(&self) -> (r: u32)
        ensures
            r == self.spec_bits(),
    {
        self.bits
    }

    /// Keeps only the bits that name a defined flag.
    pub fn from_bits_truncate(bits: u32) -> (r: StreamFlags)
        ensures
            r.spec_bits() == bits & 1u32,
    {
        StreamFlags { bits: bits & 1 }
    }
}

/// One operation enqueued on a stream, in the model's record of the queue.
#[derive(Debug, Clone, PartialEq, Eq)]
pub enum StreamOp {
    /// A host callback, identified by the caller-chosen token.
    Callback {
        /// The token the enqueuer chose for this callback.
        token: u64,
    },
    /// A kernel launch.
    Launch {
        /// The raw handle of the launched function.
        func: usize,
        /// The number of thread blocks.
        grid: GridSize,
        /// The number of threads per block.
        block: BlockSize,
        /// Dynamically allocated shared memory per block, in bytes.
        shared_mem_bytes: u32,
        /// The kernel arguments, each as an opaque address.
        args: Vec<u64>,
    },
    /// An asynchronous memory transfer of the given byte count.
    Transfer {
        /// The number of bytes moved.
        bytes: usize,
    },
}

/// An ordered, asynchronous work queue for the device.
///
/// See the module-level documentation for the ordering guarantees.
#[derive(Debug)]
pub struct Stream {
    handle: usize,
    flags: StreamFlags,
    priority: i32,
    pending: Vec<StreamOp>,
    completed: Vec<StreamOp>,
}

impl Stream {
    /// The native queue handle this stream owns.
    pub closed spec fn spec_handle(&self) -> usize {
        self.handle
    }

    /// The flags the stream was created with.
    pub closed spec fn spec_flags(&self) -> StreamFlags {
        self.flags
    }

    /// The stream's scheduling priority.
    pub closed spec fn spec_priority(&self) -> i32 {
        self.priority
    }

    /// The operations enqueued and not yet completed, in enqueue order.
    pub closed spec fn spec_pending(&self) -> Seq<StreamOp> {
        self.pending@
    }

    /// The operations that have completed, in the order they ran.
    pub closed spec fn spec_completed(&self) -> Seq<StreamOp> {
        self.completed@
    }

    /// Creates a new stream with the given flags and optional priority.
    ///
    /// Lower priority numbers represent greater priorities; the model driver
    /// accepts any number, standing in for the real driver's clamping, and
    /// an absent priority becomes the default priority zero.
    pub fn new(flags: StreamFlags, priority: Option<i32>) -> (r: CudaResult<Stream>)
        ensures
            r is Ok,
            r matches Ok(s) ==> {
                &&& s.spec_handle() != 0
                &&& s.spec_flags() == flags
                &&& s.spec_priority() == match priority {
                    Some(p) => p,
                    None => 0,
                }
                &&& s.spec_pending() == Seq::<StreamOp>::empty()
                &&& s.spec_completed() == Seq::<StreamOp>::empty()
            },
    {
        let p = match priority {
            Some(p) => p,
            None => 0,
        };
        let s = Stream { handle: 1, flags, priority: p, pending: Vec::new(), completed: Vec::new() };
        Ok(s)
    }

    /// Returns the flags which were used to create this stream.
    pub fn get_flags(&self) -> (r: CudaResult<StreamFlags>)
        ensures
            r == Ok::<StreamFlags, crate::error::CudaError>(self.spec_flags()),
    {
        Ok(self.flags)
    }

    /// Returns the priority of this stream: the default priority if none
    /// was given at creation, otherwise the accepted priority.
    pub fn get_priority(&self) -> (r: CudaResult<i32>)
        ensures
            r == Ok::<i32, crate::error::CudaError>(self.spec_priority()),
    {
        Ok(self.priority)
    }

    /// Enqueues a host callback, identified by `token`, to run once all
    /// previously enqueued work on this stream completes.
    ///
    /// Callbacks on one stream fire strictly in enqueue order; each sees the
    /// completion status of the work before it. The mapping from tokens to
    /// host work is the caller's, outside this crate.
    pub fn add_callback(&mut self, token: u64) -> (r: CudaResult<()>)
        ensures
            r is Ok,
            final(self).spec_pending() == old(self).spec_pending().push(
                StreamOp::Callback { token },
            ),
            final(self).spec_completed() == old(self).spec_completed(),
            final(self).spec_handle() == old(self).spec_handle(),
            final(self).spec_flags() == old(self).spec_flags(),
            final(self).spec_priority() == old(self).spec_priority(),
    {
        self.pending.push(StreamOp::Callback { token });
        Ok(())
    }

    /// Enqueues a kernel launch. No validation of the argument types happens
    /// at this layer: the arguments arrive as opaque addresses, and the
    /// capability check belongs to the dispatch layer that collected them.
    pub fn launch(
        &mut self,
        func: &Function,
        grid: GridSize,
        block: BlockSize,
        shared_mem_bytes: u32,
        args: Vec<u64>,
    ) -> (r: CudaResult<()>)
        ensures
            r is Ok,
            final(self).spec_pending() == old(self).spec_pending().push(
                StreamOp::Launch {
                    func: func.spec_handle(),
                    grid,
                    block,
                    shared_mem_bytes,
                    args,
                },
            ),
            final(self).spec_completed() == old(self).spec_completed(),
            final(self).spec_handle() == old(self).spec_handle(),
            final(self).spec_flags() == old(self).spec_flags(),
            final(self).spec_priority() == old(self).spec_priority(),
    {
        let record = StreamOp::Launch {
            func: func.to_inner(),
            grid,
            block,
            shared_mem_bytes,
            args,
        };
        self.pending.push(record);
        Ok(())
    }

    /// Records an asynchronous transfer of `bytes` bytes on this stream.
    pub(crate) fn record_transfer(&mut self, bytes: usize)
        ensures
            final(self).spec_pending() == old(self).spec_pending().push(
                StreamOp::Transfer { bytes },
            ),
            final(self).spec_completed() == old(self).spec_completed(),
            final(self).spec_handle() == old(self).spec_handle(),
            final(self).spec_flags() == old(self).spec_flags(),
            final(self).spec_priority() == old(self).spec_priority(),
    {
        self.pending.push(StreamOp::Transfer { bytes });
    }

    /// Waits until the device has completed all operations scheduled for
    /// this stream. This is the model's only blocking operation.
    ///
    /// Every pending operation completes, in enqueue order, behind
    /// everything that had completed before: first-in, first-out.
    pub fn synchronize(&mut self) -> (r: CudaResult<()>)
        ensures
            r is Ok,
            final(self).spec_completed() == old(self).spec_completed() + old(self).spec_pending(),
            final(self).spec_pending() == Seq::<StreamOp>::empty(),
            final(self).spec_handle() == old(self).spec_handle(),
            final(self).spec_flags() == old(self).spec_flags(),
            final(self).spec_priority() == old(self).spec_priority(),
    {
        let mut drained: Vec<StreamOp> = Vec::new();
        core::mem::swap(&mut self.pending, &mut drained);
        self.completed.append(&mut drained);
        Ok(())
    }

    /// The operations that have completed so far, in the order they ran.
    pub fn completed_ops(&self) -> (r: &Vec<StreamOp>)
        ensures
            r@ == self.spec_completed(),
    {
        &self.completed
    }

    /// The operations enqueued and not yet completed, in enqueue order.
    pub fn pending_ops(&self) -> (r: &Vec<StreamOp>)
        ensures
            r@ == self.spec_pending(),
    {
        &self.pending
    }

    /// Destroys a `Stream`, releasing the native queue.
    ///
    /// The model driver's release never fails, so this always succeeds; the
    /// failing branch of [`DropResult`] would return the error together with
    /// the still-usable stream.
    pub fn drop(stream: Stream) -> (r: DropResult<Stream>)
        ensures
            r is Ok,
    {
        Ok(())
    }
}

/// First-in, first-out delivery: callbacks enqueued in the order `a`, `b`,
/// `c` on one stream stand in the completed log in exactly that order after
/// a join, whatever was pending or completed before them.
pub proof fn lemma_callback_fifo(s: Stream, a: u64, b: u64, c: u64)
    ensures
        ({
            let queued = s.spec_pending().push(StreamOp::Callback { token: a }).push(
                StreamOp::Callback { token: b },
            ).push(StreamOp::Callback { token: c });
            let delivered = s.spec_completed() + queued;
            let n = delivered.len();
            &&& delivered[n - 3] == (StreamOp::Callback { token: a })
            &&& delivered[n - 2] == (StreamOp::Callback { token: b })
            &&& delivered[n - 1] == (StreamOp::Callback { token: c })
        }),
{
}

} // verus!
