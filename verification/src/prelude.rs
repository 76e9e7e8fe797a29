//! Re-exports of the most commonly used types, so that a user can bring the
//! whole working set in with one import.

pub use crate::context::Context;
pub use crate::error::{CudaError, CudaResult, DropResult};
pub use crate::memory::{
    CopyDestination, DeviceBox, DeviceBuffer, DeviceCopy, DevicePointer, DeviceSlice, LockedBox,
    LockedBuffer, UnifiedBox, UnifiedPointer,
};
pub use crate::module::Symbol;
pub use crate::stream::{Stream, StreamFlags};
pub use crate::CudaFlags;
