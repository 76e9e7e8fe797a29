//! Types for launching compute kernels: launch dimensions and opaque
//! function handles.

use vstd::prelude::*;

verus! {

/// Dimensions of a grid, or the number of thread blocks in a kernel launch.
///
/// Each component must be at least 1 for a launch to succeed; unset
/// dimensions default to 1.
#[derive(Debug, Clone, PartialEq, Eq)]
pub struct GridSize {
    /// Width of grid in blocks.
    pub x: u32,
    /// Height of grid in blocks.
    pub y: u32,
    /// Depth of grid in blocks.
    pub z: u32,
}

impl GridSize {
    /// Creates a one-dimensional grid of `x` blocks.
    pub fn x(x: u32) -> (r: GridSize)
        ensures
            r == (GridSize { x, y: 1, z: 1 }),
    {
        GridSize { x, y: 1, z: 1 }
    }

    /// Creates a two-dimensional grid of `x * y` blocks.
    pub fn xy(x: u32, y: u32) -> (r: GridSize)
        ensures
            r == (GridSize { x, y, z: 1 }),
    {
        GridSize { x, y, z: 1 }
    }

    /// Creates a three-dimensional grid of `x * y * z` blocks.
    pub fn xyz(x: u32, y: u32, z: u32) -> (r: GridSize)
        ensures
            r == (GridSize { x, y, z }),
    {
        GridSize { x, y, z }
    }
}

impl From<u32> for GridSize {
    /// A bare integer gives a one-dimensional grid.
    fn from(x: u32) -> (r: GridSize) {
        GridSize::x(x)
    }
}

impl vstd::std_specs::convert::FromSpecImpl<u32> for GridSize {
    open spec fn obeys_from_spec() -> bool {
        true
    }

    open spec fn from_spec(x: u32) -> GridSize {
        GridSize { x, y: 1, z: 1 }
    }
}

impl From<(u32, u32)> for GridSize {
    /// A pair gives a two-dimensional grid.
    fn from(dims: (u32, u32)) -> (r: GridSize) {
        GridSize::xy(dims.0, dims.1)
    }
}

impl vstd::std_specs::convert::FromSpecImpl<(u32, u32)> for GridSize {
    open spec fn obeys_from_spec() -> bool {
        true
    }

    open spec fn from_spec(dims: (u32, u32)) -> GridSize {
        GridSize { x: dims.0, y: dims.1, z: 1 }
    }
}

impl From<(u32, u32, u32)> for GridSize {
    /// A triple gives a three-dimensional grid.
    fn from(dims: (u32, u32, u32)) -> (r: GridSize) {
        GridSize::xyz(dims.0, dims.1, dims.2)
    }
}

impl vstd::std_specs::convert::FromSpecImpl<(u32, u32, u32)> for GridSize {
    open spec fn obeys_from_spec() -> bool {
        true
    }

    open spec fn from_spec(dims: (u32, u32, u32)) -> GridSize {
        GridSize { x: dims.0, y: dims.1, z: dims.2 }
    }
}

/// Dimensions of a thread block, or the number of threads in a block.
///
/// Each component must be at least 1 for a launch to succeed; unset
/// dimensions default to 1.
#[derive(Debug, Clone, PartialEq, Eq)]
pub struct BlockSize {
    /// X dimension of each thread block.
    pub x: u32,
    /// Y dimension of each thread block.
    pub y: u32,
    /// Z dimension of each thread block.
    pub z: u32,
}

impl BlockSize {
    /// Creates a one-dimensional block of `x` threads.
    pub fn x(x: u32) -> (r: BlockSize)
        ensures
            r == (BlockSize { x, y: 1, z: 1 }),
    {
        BlockSize { x, y: 1, z: 1 }
    }

    /// Creates a two-dimensional block of `x * y` threads.
    pub fn xy(x: u32, y: u32) -> (r: BlockSize)
        ensures
            r == (BlockSize { x, y, z: 1 }),
    {
        BlockSize { x, y, z: 1 }
    }

    /// Creates a three-dimensional block of `x * y * z` threads.
    pub fn xyz(x: u32, y: u32, z: u32) -> (r: BlockSize)
        ensures
            r == (BlockSize { x, y, z }),
    {
        BlockSize { x, y, z }
    }
}

impl From<u32> for BlockSize {
    /// A bare integer gives a one-dimensional block.
    fn from(x: u32) -> (r: BlockSize) {
        BlockSize::x(x)
    }
}

impl vstd::std_specs::convert::FromSpecImpl<u32> for BlockSize {
    open spec fn obeys_from_spec() -> bool {
        true
    }

    open spec fn from_spec(x: u32) -> BlockSize {
        BlockSize { x, y: 1, z: 1 }
    }
}

impl From<(u32, u32)> for BlockSize {
    /// A pair gives a two-dimensional block.
    fn from(dims: (u32, u32)) -> (r: BlockSize) {
        BlockSize::xy(dims.0, dims.1)
    }
}

impl vstd::std_specs::convert::FromSpecImpl<(u32, u32)> for BlockSize {
    open spec fn obeys_from_spec() -> bool {
        true
    }

    open spec fn from_spec(dims: (u32, u32)) -> BlockSize {
        BlockSize { x: dims.0, y: dims.1, z: 1 }
    }
}

impl From<(u32, u32, u32)> for BlockSize {
    /// A triple gives a three-dimensional block.
    fn from(dims: (u32, u32, u32)) -> (r: BlockSize) {
        BlockSize::xyz(dims.0, dims.1, dims.2)
    }
}

impl vstd::std_specs::convert::FromSpecImpl<(u32, u32, u32)> for BlockSize {
    open spec fn obeys_from_spec() -> bool {
        true
    }

    open spec fn from_spec(dims: (u32, u32, u32)) -> BlockSize {
        BlockSize { x: dims.0, y: dims.1, z: dims.2 }
    }
}

/// All supported function attributes a loaded kernel function can be
/// queried for.
#[derive(Debug, Copy, Clone, PartialEq, Eq, Hash)]
pub enum FunctionAttribute {
    /// The maximum number of threads per block, beyond which a launch would
    /// fail. This depends on both the function and the device.
    MaxThreadsPerBlock,
    /// The size in bytes of the statically-allocated shared memory required
    /// by this function.
    SharedMemorySizeBytes,
    /// The size in bytes of the constant memory required by this function.
    ConstSizeBytes,
    /// The size in bytes of local memory used by each thread of this
    /// function.
    LocalSizeBytes,
    /// The number of registers used by each thread of this function.
    NumRegisters,
    /// The PTX virtual architecture version the function was compiled for,
    /// as major version times ten plus minor version.
    PtxVersion,
    /// The binary architecture version the function was compiled for,
    /// encoded like `PtxVersion`.
    BinaryVersion,
    /// Whether the function was compiled with a cache-mode override.
    CacheModeCa,
}

impl FunctionAttribute {
    /// The numeric code the driver uses for this attribute.
    pub fn to_raw(self) -> (r: u32)
        ensures
            r == match self {
                FunctionAttribute::MaxThreadsPerBlock => 0u32,
                FunctionAttribute::SharedMemorySizeBytes => 1u32,
                FunctionAttribute::ConstSizeBytes => 2u32,
                FunctionAttribute::LocalSizeBytes => 3u32,
                FunctionAttribute::NumRegisters => 4u32,
                FunctionAttribute::PtxVersion => 5u32,
                FunctionAttribute::BinaryVersion => 6u32,
                FunctionAttribute::CacheModeCa => 7u32,
            },
    {
        match self {
            FunctionAttribute::MaxThreadsPerBlock => 0,
            FunctionAttribute::SharedMemorySizeBytes => 1,
            FunctionAttribute::ConstSizeBytes => 2,
            FunctionAttribute::LocalSizeBytes => 3,
            FunctionAttribute::NumRegisters => 4,
            FunctionAttribute::PtxVersion => 5,
            FunctionAttribute::BinaryVersion => 6,
            FunctionAttribute::CacheModeCa => 7,
        }
    }
}

/// The static guard of the launch dispatch layer: it compiles only when the
/// argument's type carries the capability marker, and it does nothing at
/// run time.
///
/// A launch dispatcher instantiates this once per kernel argument, in dead
/// code, so that no value whose type could not safely be copied to the
/// device can be smuggled into an argument list of opaque addresses.
pub fn assert_device_copy<T: crate::memory::DeviceCopy>(_value: &T) {
}

/// Handle to a global kernel function inside a loaded module.
///
/// The handle itself comes from module lookup, which the loader performs;
/// the crate only carries it into launches.
#[derive(Debug)]
pub struct Function {
    handle: usize,
}

impl Function {
    /// The raw handle the loader produced.
    pub closed spec fn spec_handle(&self) -> usize {
        self.handle
    }

    /// Wraps a raw function handle produced by module lookup.
    pub fn from_raw(handle: usize) -> (r: Function)
        ensures
            r.spec_handle() == handle,
    {
        Function { handle }
    }

    /// The raw handle, for handing to a launch.
    pub(crate) fn to_inner(&self) -> (r: usize)
        ensures
            r == self.spec_handle(),
    {
        self.handle
    }
}

} // verus!
