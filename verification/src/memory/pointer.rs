//! Typed pointer wrappers for device and unified memory addresses.
//!
//! A pointer is an address in the modeled device address space together with
//! the type it points at. [`DevicePointer`] addresses device-exclusive memory
//! and cannot be dereferenced by the host; [`UnifiedPointer`] addresses
//! host/device-shared memory. Both are plain values that may themselves be
//! copied into device memory, for example as kernel arguments.
//!
//! Pointer arithmetic counts in units of `T`: an offset of 3 moves the
//! address by `3 * size_of::<T>()` bytes. The checked variants require the
//! arithmetic to stay within the address space; the `wrapping_*` variants
//! wrap around it.

use vstd::prelude::*;
use vstd::arithmetic::div_mod::{
    lemma_add_mod_noop, lemma_mod_multiples_vanish, lemma_mul_mod_noop_left, lemma_small_mod,
    lemma_sub_mod_noop,
};
use vstd::layout::size_of;
use core::marker::PhantomData;
use crate::memory::DeviceCopy;

verus! {

/// One more than the largest address: the size of the address space.
pub open spec fn address_space() -> int {
    usize::MAX as int + 1
}

/// Reduces an unbounded address computation into the address space, the way
/// wrapping pointer arithmetic does.
pub open spec fn wrap_addr(x: int) -> int {
    x % address_space()
}

/// A pointer to device memory.
///
/// It cannot be dereferenced by the host, as it addresses an allocation that
/// only the device can reach. It can be safely copied to the device (for
/// example as part of a kernel launch) and it can be offset, compared, and
/// turned back into a raw address.
#[derive(Debug, PartialEq, Eq, Hash)]
pub struct DevicePointer<T: DeviceCopy> {
    addr: usize,
    marker: PhantomData<T>,
}

impl<T: DeviceCopy> Clone for DevicePointer<T> {
    fn clone(&self) -> (r: Self)
        ensures
            r == *self,
    {
        *self
    }
}

impl<T: DeviceCopy> Copy for DevicePointer<T> {}

impl<T: DeviceCopy> DeviceCopy for DevicePointer<T> {}

impl<T: DeviceCopy> DevicePointer<T> {
    /// The raw address this pointer holds.
    pub closed spec fn spec_addr(&self) -> usize {
        self.addr
    }

    /// Returns a null device pointer.
    pub fn null() -> (r: Self)
        ensures
            r.spec_addr() == 0,
    {
        DevicePointer { addr: 0, marker: PhantomData }
    }

    /// Wraps the given raw address in a `DevicePointer`. The address is taken
    /// to be a valid device address or null; nothing is allocated.
    pub fn wrap(addr: usize) -> (r: Self)
        ensures
            r.spec_addr() == addr,
    {
        DevicePointer { addr, marker: PhantomData }
    }

    /// Returns the contained address as a raw address. The address is not
    /// valid on the host and must not be dereferenced there.
    pub fn as_raw(&self) -> (r: usize)
        ensures
            r == self.spec_addr(),
    {
        self.addr
    }

    /// Returns the contained address as a raw address for mutation through
    /// the device. The address is not valid on the host.
    pub fn as_raw_mut(&mut self) -> (r: usize)
        ensures
            r == old(self).spec_addr(),
            *final(self) == *old(self),
    {
        self.addr
    }

    /// Returns true if the pointer is null.
    pub fn is_null(&self) -> (r: bool)
        ensures
            r == (self.spec_addr() == 0),
    {
        self.addr == 0
    }

    /// Calculates the offset from a device pointer.
    ///
    /// `count` is in units of `T`. Both the byte offset and the resulting
    /// address must stay within the address space.
    pub fn offset(self, count: isize) -> (r: Self)
        requires
            isize::MIN <= count * size_of::<T>(),
            count * size_of::<T>() <= isize::MAX,
            0 <= self.spec_addr() + count * size_of::<T>(),
            self.spec_addr() + count * size_of::<T>() <= usize::MAX,
        ensures
            r.spec_addr() == self.spec_addr() + count * size_of::<T>(),
    {
        let size = core::mem::size_of::<T>();
        if size == 0 {
            self
        } else if count >= 0 {
            let delta = (count as usize) * size;
            DevicePointer { addr: self.addr + delta, marker: PhantomData }
        } else {
            let mag = ((-(count + 1)) as usize) + 1;
            proof {
                assert(mag * size == -(count * size_of::<T>())) by (nonlinear_arith)
                    requires
                        mag == -(count as int),
                        size == size_of::<T>(),
                ;
            }
            let delta = mag * size;
            DevicePointer { addr: self.addr - delta, marker: PhantomData }
        }
    }

    /// Calculates the offset from a device pointer using wrapping arithmetic:
    /// the resulting address is the true sum reduced into the address space.
    pub fn wrapping_offset(self, count: isize) -> (r: Self)
        ensures
            r.spec_addr() == wrap_addr(self.spec_addr() + count * size_of::<T>()),
    {
        let size = core::mem::size_of::<T>();
        let c: usize = if count >= 0 {
            count as usize
        } else {
            usize::MAX - ((-(count + 1)) as usize)
        };
        proof {
            if count < 0 {
                lemma_mod_multiples_vanish(1, count as int, address_space());
                lemma_small_mod(c as nat, address_space() as nat);
            } else {
                lemma_small_mod(c as nat, address_space() as nat);
            }
        }
        let delta = c.wrapping_mul(size);
        let addr = self.addr.wrapping_add(delta);
        proof {
            lemma_wrapping_is_mod(self.addr as int, delta as int);
            lemma_wrap_shift(self.addr as int, count as int, c as int, size as int);
        }
        DevicePointer { addr, marker: PhantomData }
    }

    /// Calculates the offset from a pointer (convenience for
    /// `.offset(count as isize)`). `count` is in units of `T`.
    #[allow(clippy::should_implement_trait)]
    pub fn add(self, count: usize) -> (r: Self)
        requires
            count * size_of::<T>() <= isize::MAX,
            self.spec_addr() + count * size_of::<T>() <= usize::MAX,
        ensures
            r.spec_addr() == self.spec_addr() + count * size_of::<T>(),
    {
        let size = core::mem::size_of::<T>();
        if size == 0 {
            self
        } else {
            proof {
                assert(count <= count * size_of::<T>()) by (nonlinear_arith)
                    requires
                        size_of::<T>() >= 1,
                ;
            }
            self.offset(count as isize)
        }
    }

    /// Calculates a backward offset from a pointer (convenience for
    /// `.offset(-(count as isize))`). `count` is in units of `T`.
    #[allow(clippy::should_implement_trait)]
    pub fn sub(self, count: usize) -> (r: Self)
        requires
            count * size_of::<T>() <= isize::MAX,
            0 <= self.spec_addr() - count * size_of::<T>(),
        ensures
            r.spec_addr() == self.spec_addr() - count * size_of::<T>(),
    {
        let size = core::mem::size_of::<T>();
        if size == 0 {
            self
        } else {
            proof {
                assert(count <= count * size_of::<T>()) by (nonlinear_arith)
                    requires
                        size_of::<T>() >= 1,
                ;
            }
            let neg = -(count as isize);
            proof {
                assert(neg * size_of::<T>() == -(count * size_of::<T>())) by (nonlinear_arith)
                    requires
                        neg == -(count as int),
                ;
            }
            self.offset(neg)
        }
    }

    /// Calculates the offset from a pointer using wrapping arithmetic
    /// (convenience for `.wrapping_offset(count as isize)`).
    pub fn wrapping_add(self, count: usize) -> (r: Self)
        ensures
            r.spec_addr() == wrap_addr(self.spec_addr() + count * size_of::<T>()),
    {
        let size = core::mem::size_of::<T>();
        let delta = count.wrapping_mul(size);
        let addr = self.addr.wrapping_add(delta);
        proof {
            lemma_small_mod(count as nat, address_space() as nat);
            lemma_wrapping_is_mod(self.addr as int, delta as int);
            lemma_wrap_shift(self.addr as int, count as int, count as int, size as int);
        }
        DevicePointer { addr, marker: PhantomData }
    }

    /// Calculates a backward offset from a pointer using wrapping arithmetic.
    pub fn wrapping_sub(self, count: usize) -> (r: Self)
        ensures
            r.spec_addr() == wrap_addr(self.spec_addr() - count * size_of::<T>()),
    {
        let size = core::mem::size_of::<T>();
        let delta = count.wrapping_mul(size);
        let addr = self.addr.wrapping_sub(delta);
        proof {
            lemma_small_mod(count as nat, address_space() as nat);
            lemma_wrapping_is_mod(self.addr as int, delta as int);
            lemma_wrap_shift(self.addr as int, count as int, count as int, size as int);
        }
        DevicePointer { addr, marker: PhantomData }
    }
}

/// The wrapping if-then-else adjustments on in-range operands agree with the
/// mathematical remainder.
proof fn lemma_wrapping_is_mod(x: int, y: int)
    requires
        0 <= x <= usize::MAX,
        0 <= y <= usize::MAX,
    ensures
        (if x + y > usize::MAX {
            x + y - address_space()
        } else {
            x + y
        }) == wrap_addr(x + y),
        (if x - y < 0 {
            x - y + address_space()
        } else {
            x - y
        }) == wrap_addr(x - y),
{
    let m = address_space();
    if x + y > usize::MAX {
        lemma_mod_multiples_vanish(1, x + y - m, m);
        lemma_small_mod((x + y - m) as nat, m as nat);
    } else {
        lemma_small_mod((x + y) as nat, m as nat);
    }
    if x - y < 0 {
        lemma_mod_multiples_vanish(1, x - y, m);
        lemma_small_mod((x - y + m) as nat, m as nat);
    } else {
        lemma_small_mod((x - y) as nat, m as nat);
    }
}

/// Shifting an in-range address by a congruent, reduced byte delta lands on
/// the same wrapped address as the unbounded arithmetic, in both directions.
proof fn lemma_wrap_shift(addr: int, count: int, c: int, size: int)
    requires
        0 <= addr <= usize::MAX,
        0 <= size,
        0 <= c <= usize::MAX,
        c % address_space() == count % address_space(),
    ensures
        wrap_addr(addr + wrap_addr(c * size)) == wrap_addr(addr + count * size),
        wrap_addr(addr - wrap_addr(c * size)) == wrap_addr(addr - count * size),
{
    let m = address_space();
    lemma_mul_mod_noop_left(c, size, m);
    lemma_mul_mod_noop_left(count, size, m);
    lemma_small_mod(addr as nat, m as nat);
    lemma_add_mod_noop(addr, c * size, m);
    lemma_add_mod_noop(addr, count * size, m);
    lemma_sub_mod_noop(addr, c * size, m);
    lemma_sub_mod_noop(addr, count * size, m);
    assert(wrap_addr(addr + wrap_addr(c * size)) == wrap_addr(addr + c * size)) by {
        lemma_add_mod_noop(addr, wrap_addr(c * size), m);
        lemma_mod_mod(c * size, m);
    }
    assert(wrap_addr(addr - wrap_addr(c * size)) == wrap_addr(addr - c * size)) by {
        lemma_sub_mod_noop(addr, wrap_addr(c * size), m);
        lemma_mod_mod(c * size, m);
    }
}

/// Taking the remainder twice changes nothing.
proof fn lemma_mod_mod(x: int, m: int)
    requires
        m > 0,
    ensures
        (x % m) % m == x % m,
{
    lemma_small_mod((x % m) as nat, m as nat);
}

/// A pointer to unified memory.
///
/// Unified memory is shared between host and device, so unlike a
/// [`DevicePointer`] the allocation behind a `UnifiedPointer` can be read and
/// written on the host (through the owning container). It can also be safely
/// copied to the device, and it narrows into a [`DevicePointer`] without a
/// change of representation.
#[derive(Debug, PartialEq, Eq, Hash)]
pub struct UnifiedPointer<T: DeviceCopy> {
    addr: usize,
    marker: PhantomData<T>,
}

impl<T: DeviceCopy> Clone for UnifiedPointer<T> {
    fn clone(&self) -> (r: Self)
        ensures
            r == *self,
    {
        *self
    }
}

impl<T: DeviceCopy> Copy for UnifiedPointer<T> {}

impl<T: DeviceCopy> DeviceCopy for UnifiedPointer<T> {}

impl<T: DeviceCopy> UnifiedPointer<T> {
    /// The raw address this pointer holds.
    pub closed spec fn spec_addr(&self) -> usize {
        self.addr
    }

    /// Returns a null unified pointer.
    pub fn null() -> (r: Self)
        ensures
            r.spec_addr() == 0,
    {
        UnifiedPointer { addr: 0, marker: PhantomData }
    }

    /// Wraps the given raw address in a `UnifiedPointer`. The address is
    /// taken to be a valid unified-memory address or null.
    pub fn wrap(addr: usize) -> (r: Self)
        ensures
            r.spec_addr() == addr,
    {
        UnifiedPointer { addr, marker: PhantomData }
    }

    /// Returns the contained address as a raw address.
    pub fn as_raw(&self) -> (r: usize)
        ensures
            r == self.spec_addr(),
    {
        self.addr
    }

    /// Returns the contained address as a raw address for mutation.
    pub fn as_raw_mut(&mut self) -> (r: usize)
        ensures
            r == old(self).spec_addr(),
            *final(self) == *old(self),
    {
        self.addr
    }

    /// Returns true if the pointer is null.
    pub fn is_null(&self) -> (r: bool)
        ensures
            r == (self.spec_addr() == 0),
    {
        self.addr == 0
    }

    /// Narrows this unified pointer into a device pointer to the same
    /// address: a narrowing of capability, not of representation.
    pub fn as_device(self) -> (r: DevicePointer<T>)
        ensures
            r.spec_addr() == self.spec_addr(),
    {
        DevicePointer::wrap(self.addr)
    }

    /// Calculates the offset from a unified pointer.
    ///
    /// `count` is in units of `T`. Both the byte offset and the resulting
    /// address must stay within the address space.
    pub fn offset(self, count: isize) -> (r: Self)
        requires
            isize::MIN <= count * size_of::<T>(),
            count * size_of::<T>() <= isize::MAX,
            0 <= self.spec_addr() + count * size_of::<T>(),
            self.spec_addr() + count * size_of::<T>() <= usize::MAX,
        ensures
            r.spec_addr() == self.spec_addr() + count * size_of::<T>(),
    {
        let d = DevicePointer::<T>::wrap(self.addr).offset(count);
        UnifiedPointer { addr: d.as_raw(), marker: PhantomData }
    }

    /// Calculates the offset from a unified pointer using wrapping
    /// arithmetic.
    pub fn wrapping_offset(self, count: isize) -> (r: Self)
        ensures
            r.spec_addr() == wrap_addr(self.spec_addr() + count * size_of::<T>()),
    {
        let d = DevicePointer::<T>::wrap(self.addr).wrapping_offset(count);
        UnifiedPointer { addr: d.as_raw(), marker: PhantomData }
    }

    /// Calculates the offset from a pointer (convenience for
    /// `.offset(count as isize)`).
    #[allow(clippy::should_implement_trait)]
    pub fn add(self, count: usize) -> (r: Self)
        requires
            count * size_of::<T>() <= isize::MAX,
            self.spec_addr() + count * size_of::<T>() <= usize::MAX,
        ensures
            r.spec_addr() == self.spec_addr() + count * size_of::<T>(),
    {
        let d = DevicePointer::<T>::wrap(self.addr).add(count);
        UnifiedPointer { addr: d.as_raw(), marker: PhantomData }
    }

    /// Calculates a backward offset from a pointer (convenience for
    /// `.offset(-(count as isize))`).
    #[allow(clippy::should_implement_trait)]
    pub fn sub(self, count: usize) -> (r: Self)
        requires
            count * size_of::<T>() <= isize::MAX,
            0 <= self.spec_addr() - count * size_of::<T>(),
        ensures
            r.spec_addr() == self.spec_addr() - count * size_of::<T>(),
    {
        let d = DevicePointer::<T>::wrap(self.addr).sub(count);
        UnifiedPointer { addr: d.as_raw(), marker: PhantomData }
    }

    /// Calculates the offset from a pointer using wrapping arithmetic.
    pub fn wrapping_add(self, count: usize) -> (r: Self)
        ensures
            r.spec_addr() == wrap_addr(self.spec_addr() + count * size_of::<T>()),
    {
        let d = DevicePointer::<T>::wrap(self.addr).wrapping_add(count);
        UnifiedPointer { addr: d.as_raw(), marker: PhantomData }
    }

    /// Calculates a backward offset from a pointer using wrapping arithmetic.
    pub fn wrapping_sub(self, count: usize) -> (r: Self)
        ensures
            r.spec_addr() == wrap_addr(self.spec_addr() - count * size_of::<T>()),
    {
        let d = DevicePointer::<T>::wrap(self.addr).wrapping_sub(count);
        UnifiedPointer { addr: d.as_raw(), marker: PhantomData }
    }
}

} // verus!
