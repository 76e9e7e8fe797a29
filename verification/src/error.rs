//! Error handling for fallible device operations.
//!
//! Every fallible operation in this crate returns a [`CudaResult`]. Errors are
//! either native driver error codes passed through unchanged, or local
//! invariant errors raised before any driver work is attempted.

use vstd::prelude::*;

verus! {

/// The native driver's code for a failed allocation. The model driver reports
/// it when the device address space is exhausted.
pub const OUT_OF_MEMORY: u32 = 2;

/// An error from a device operation.
#[derive(Clone, Copy, Debug, Eq, PartialEq)]
pub enum CudaError {
    /// A native driver error, as an opaque code passed through unchanged.
    /// The code is never zero: zero marks success and never reaches callers.
    Driver(u32),
    /// A requested operation was given an argument the driver rejects before
    /// doing any work: a zero-byte allocation, an allocation whose byte size
    /// overflows, or a null pointer handed to a deallocation.
    InvalidValue,
    /// A requested buffer allocation would overflow the size arithmetic.
    InvalidMemoryAllocation,
}

/// Result type for fallible device operations.
pub type CudaResult<T> = Result<T, CudaError>;

/// Result type for explicit, by-value destruction of an owned resource.
///
/// On failure the error is returned together with the still-owned, still-valid
/// resource, so the caller can inspect it, retry, or deliberately leak it.
pub type DropResult<T> = Result<(), (CudaError, T)>;

/// Turns a raw driver status code into a [`CudaResult`]: zero means success,
/// any other code is passed through as [`CudaError::Driver`].
pub fn to_result(code: u32) -> (r: CudaResult<()>)
    ensures
        r is Ok <==> code == 0,
        r matches Err(e) ==> e == CudaError::Driver(code),
{
    if code == 0 {
        Ok(())
    } else {
        Err(CudaError::Driver(code))
    }
}

} // verus!
