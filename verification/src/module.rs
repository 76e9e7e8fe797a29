//! Handles into loaded kernel modules.
//!
//! Loading a module and looking a symbol up are the loader's work, outside
//! this crate; what comes back is a raw handle to a named global allocation
//! inside the module. A [`Symbol`] carries such a handle and supports the
//! copy protocol exactly like a device box, but it never owns or frees
//! anything.

use vstd::prelude::*;
use crate::error::CudaResult;
use crate::memory::device::CopyDestination;
use crate::memory::DeviceCopy;

verus! {

/// A non-owning handle to a named global allocation inside a loaded kernel
/// module.
///
/// Like all device memory, the global's storage is opaque to the host, and
/// the model counts it as uninitialized until something is copied in.
#[derive(Debug)]
pub struct Symbol<T: DeviceCopy> {
    addr: usize,
    data: Option<T>,
}

impl<T: DeviceCopy> crate::private::Sealed for Symbol<T> {}

impl<T: DeviceCopy> Symbol<T> {
    /// The address of the module global.
    pub closed spec fn spec_addr(&self) -> usize {
        self.addr
    }

    /// What the global's device memory holds: `None` while nothing has been
    /// copied in.
    pub closed spec fn spec_contents(&self) -> Option<T> {
        self.data
    }

    /// Wraps the raw address of a module global, as module lookup returned
    /// it. The symbol does not own the allocation and never frees it.
    pub fn from_raw(addr: usize) -> (r: Symbol<T>)
        ensures
            r.spec_addr() == addr,
            r.spec_contents() is None,
    {
        Symbol { addr, data: None }
    }
}

impl<T: DeviceCopy + Copy> CopyDestination<T> for Symbol<T> {
    /// A host value can always be copied in: the sizes agree by type.
    open spec fn can_copy_from(&self, source: &T) -> bool {
        true
    }

    /// Reading back to the host requires the global to hold a value.
    open spec fn can_copy_to(&self, dest: &T) -> bool {
        self.spec_contents() is Some
    }

    /// The global holds exactly the copied value afterwards.
    open spec fn copy_from_rel(&self, source: &T, updated: &Self) -> bool {
        &&& updated.spec_contents() == Some(*source)
        &&& updated.spec_addr() == self.spec_addr()
    }

    /// The host value is exactly what the global holds.
    open spec fn copy_to_rel(&self, old_dest: &T, dest: &T) -> bool {
        self.spec_contents() == Some(*dest)
    }

    fn copy_from(&mut self, source: &T) -> (r: CudaResult<()>) {
        self.data = Some(*source);
        Ok(())
    }

    fn copy_to(&self, dest: &mut T) -> (r: CudaResult<()>) {
        let held = self.data;
        *dest = held.unwrap();
        Ok(())
    }
}

} // verus!
