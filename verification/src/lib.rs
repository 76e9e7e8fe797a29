//! A safety-oriented ownership layer over an asynchronous compute device's
//! memory and execution model.
//!
//! The crate models three distinct memory spaces (device-exclusive, unified,
//! and page-locked host memory), owned single-value boxes and contiguous
//! buffers over them, a direction-dispatching copy protocol between host and
//! device memory, and ordered asynchronous work queues (streams).
//!
//! Allocation depends on a bound device context; that dependency is an
//! explicit [`Context`] parameter on every allocating entry point, obtained
//! from [`quick_init`].

use vstd::prelude::*;

pub mod context;
pub mod error;
pub mod event;
pub mod function;
pub mod memory;
pub mod module;
pub mod prelude;
pub(crate) mod private;
pub mod stream;

use crate::context::Context;
use crate::error::CudaResult;

verus! {

/// Bit flags for initializing the driver. Currently no flags are defined, so
/// [`CudaFlags::empty`] is the only valid value.
#[derive(Clone, Copy, Debug, Eq, PartialEq)]
pub struct CudaFlags {
    bits: u32,
}

impl CudaFlags {
    /// The bits this flag set holds.
    pub closed spec fn spec_bits(&self) -> u32 {
        self.bits
    }

    /// No flags set.
    pub fn empty() -> (r: CudaFlags)
        ensures
            r.spec_bits() == 0,
    {
        CudaFlags { bits: 0 }
    }

    /// The raw bit representation of this flag set.
    pub fn bits(&self) -> (r: u32)
        ensures
            r == self.spec_bits(),
    {
        self.bits
    }
}

/// Initializes the driver. This must precede every other call into the
/// crate; `flags` must be [`CudaFlags::empty`].
///
/// The model driver starts successfully for the empty flag set and rejects
/// any other, which the real driver reserves.
pub fn init(flags: CudaFlags) -> (r: CudaResult<()>)
    ensures
        r is Ok <==> flags.spec_bits() == 0,
{
    if flags.bits() == 0 {
        Ok(())
    } else {
        Err(crate::error::CudaError::InvalidValue)
    }
}

/// Initializes the driver and binds a context for the first device, with
/// default settings: the shortcut for programs with simple needs.
///
/// Returns a fresh [`Context`] whose address space is untouched.
pub fn quick_init() -> (r: CudaResult<Context>)
    ensures
        r is Ok,
        r matches Ok(ctx) ==> ctx.wf() && ctx.spec_next_addr()
            == crate::context::FIRST_ALLOCATION_ADDRESS,
{
    init(CudaFlags::empty())?;
    Ok(Context::fresh())
}

/// The driver API version number, as the driver reports it: a single integer
/// such as 9020 for version 9.2.
#[derive(Debug, Hash, Eq, PartialEq, Ord, PartialOrd, Copy, Clone)]
pub struct CudaApiVersion {
    version: i32,
}

impl CudaApiVersion {
    /// The raw version number.
    pub closed spec fn spec_version(&self) -> i32 {
        self.version
    }

    /// The driver reports versions as nonnegative integers.
    pub open spec fn wf(&self) -> bool {
        self.spec_version() >= 0
    }

    /// Wraps a raw version number as reported by the driver.
    pub fn from_raw(version: i32) -> (r: CudaApiVersion)
        requires
            version >= 0,
        ensures
            r.spec_version() == version,
            r.wf(),
    {
        CudaApiVersion { version }
    }

    /// Returns the major version number: the 9 in version 9.2.
    #[inline]
    pub fn major(self) -> (r: i32)
        requires
            self.wf(),
        ensures
            r == self.spec_version() / 1000,
    {
        self.version / 1000
    }

    /// Returns the minor version number: the 2 in version 9.2.
    #[inline]
    pub fn minor(self) -> (r: i32)
        requires
            self.wf(),
        ensures
            r == (self.spec_version() % 1000) / 10,
    {
        (self.version % 1000) / 10
    }
}

} // verus!
