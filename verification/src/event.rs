//! Events: handles for tracking and ordering work submitted to streams.
//!
//! Recording, querying, and timing an event are driver work performed by the
//! event collaborator outside this crate; what the crate carries is the
//! opaque event handle, its creation flags, and the status such a query
//! reports.

use vstd::prelude::*;

verus! {

/// Bit flags for configuring an event.
#[derive(Debug, Clone, Copy, PartialEq, Eq)]
pub struct EventFlags {
    bits: u32,
}

impl EventFlags {
    /// The bits this flag set holds.
    pub closed spec fn spec_bits(&self) -> u32 {
        self.bits
    }

    /// The default event creation flags.
    pub fn empty() -> (r: EventFlags)
        ensures
            r.spec_bits() == 0,
    {
        EventFlags { bits: 0 }
    }

    /// The created event busy-waits on blocking calls.
    pub fn blocking_sync() -> (r: EventFlags)
        ensures
            r.spec_bits() == 1,
    {
        EventFlags { bits: 1 }
    }

    /// The created event does not record timing data.
    pub fn disable_timing() -> (r: EventFlags)
        ensures
            r.spec_bits() == 2,
    {
        EventFlags { bits: 2 }
    }

    /// The created event may be used as an interprocess event; this
    /// requires timing to be disabled as well.
    pub fn interprocess() -> (r: EventFlags)
        ensures
            r.spec_bits() == 4,
    {
        EventFlags { bits: 4 }
    }

    /// The union of two flag sets.
    pub fn union(self, other: EventFlags) -> (r: EventFlags)
        ensures
            r.spec_bits() == self.spec_bits() | other.spec_bits(),
    {
        EventFlags { bits: self.bits | other.bits }
    }

    /// The raw bit representation of this flag set.
    pub fn bits(&self) -> (r: u32)
        ensures
            r == self.spec_bits(),
    {
        self.bits
    }
}

/// The current status of an event, as a query reports it.
#[derive(Clone, Copy, Debug, PartialEq, Eq)]
pub enum EventStatus {
    /// All work captured by the event has been completed.
    Ready,
    /// The work captured by the event is still incomplete.
    NotReady,
}

/// An event recorded into a stream to track the work enqueued before it.
#[derive(Debug)]
pub struct Event {
    handle: usize,
}

impl Event {
    /// The raw event handle.
    pub closed spec fn spec_handle(&self) -> usize {
        self.handle
    }

    /// Wraps a raw event handle produced by the event collaborator.
    pub fn from_raw(handle: usize) -> (r: Event)
        ensures
            r.spec_handle() == handle,
    {
        Event { handle }
    }

    /// The raw handle, for handing back to the event collaborator.
    pub fn as_inner(&self) -> (r: usize)
        ensures
            r == self.spec_handle(),
    {
        self.handle
    }
}

} // verus!
