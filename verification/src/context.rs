//! The device context: the state every allocation call depends on.
//!
//! The underlying execution model keeps an implicit "current context" that
//! must be bound before any allocation may succeed. This crate makes that
//! dependency explicit: a [`Context`] value models the device's allocator
//! state, and every allocating entry point takes it as a parameter.
//!
//! The model allocator hands out strictly increasing, never-reused addresses,
//! so two live allocations never overlap and a freed address is never handed
//! out again. An allocation fails only when the remaining address space
//! cannot hold the requested byte count.

use vstd::prelude::*;
use crate::error::{CudaError, CudaResult, OUT_OF_MEMORY};

verus! {

/// The first address the model allocator hands out. Lower addresses are
/// reserved so that a granted address is never null and never collides with
/// the dangling sentinel used for zero-length buffers.
pub const FIRST_ALLOCATION_ADDRESS: usize = 4096;

/// The allocator state of one bound device context.
#[derive(Debug)]
pub struct Context {
    /// The next address to hand out; everything below it (and at or above
    /// [`FIRST_ALLOCATION_ADDRESS`]) has been granted at some point.
    next_addr: usize,
}

impl Context {
    /// The next address this context will hand out.
    pub closed spec fn spec_next_addr(&self) -> usize {
        self.next_addr
    }

    /// Well-formedness: the context never hands out addresses below
    /// [`FIRST_ALLOCATION_ADDRESS`], so every granted address is non-null.
    pub open spec fn wf(&self) -> bool {
        self.spec_next_addr() >= FIRST_ALLOCATION_ADDRESS
    }

    /// A fresh context with an untouched address space.
    pub(crate) fn fresh() -> (r: Context)
        ensures
            r.wf(),
            r.spec_next_addr() == FIRST_ALLOCATION_ADDRESS,
    {
        Context { next_addr: FIRST_ALLOCATION_ADDRESS }
    }

    /// Grants a fresh region of `bytes` bytes of the device address space.
    ///
    /// Succeeds exactly when the remaining address space can hold the
    /// request; the granted region `[addr, addr + bytes]` then lies entirely
    /// within the address space and starts at a non-null address no earlier
    /// grant overlaps.
    pub(crate) fn alloc_bytes(&mut self, bytes: usize) -> (r: CudaResult<usize>)
        requires
            old(self).wf(),
            bytes > 0,
        ensures
            final(self).wf(),
            r is Ok <==> old(self).spec_next_addr() + bytes <= usize::MAX,
            r matches Ok(addr) ==> {
                &&& addr == old(self).spec_next_addr()
                &&& addr > 0
                &&& final(self).spec_next_addr() == addr + bytes
            },
            r matches Err(e) ==> {
                &&& e == (CudaError::Driver(OUT_OF_MEMORY))
                &&& *final(self) == *old(self)
            },
    {
        match self.next_addr.checked_add(bytes) {
            Some(next) => {
                let addr = self.next_addr;
                self.next_addr = next;
                Ok(addr)
            },
            None => Err(CudaError::Driver(OUT_OF_MEMORY)),
        }
    }
}


/// Two successive grants never overlap: the second begins at or after the
/// end of the first. Since the allocator's address only ever grows, no
/// address belongs to two grants, and an address once granted — even after
/// its owner releases it — is never handed out again. A stale pointer can
/// therefore never alias a later allocation.
pub proof fn lemma_grants_disjoint(
    before: Context,
    between: Context,
    after: Context,
    addr1: usize,
    bytes1: usize,
    addr2: usize,
    bytes2: usize,
)
    requires
        addr1 == before.spec_next_addr(),
        between.spec_next_addr() == addr1 + bytes1,
        addr2 == between.spec_next_addr(),
        after.spec_next_addr() == addr2 + bytes2,
    ensures
        addr1 + bytes1 <= addr2,
        addr2 + bytes2 <= after.spec_next_addr(),
{
}

} // verus!
