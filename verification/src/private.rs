//! Private sealed trait that should not be implemented outside of this
//! crate. It is public because it is used as a bound on the copy protocol,
//! but it cannot be named from outside, which seals the protocol.

use vstd::prelude::*;

verus! {

pub trait Sealed {
}

} // verus!
