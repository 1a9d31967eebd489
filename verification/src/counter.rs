//! A small owned backend: a counter that produces its current count.

use vstd::prelude::*;
use crate::capability::BackendCapability;
use crate::has_backend::HasBackend;

verus! {

/// A backend owned by this layer that produces the value of an internal
/// counter.
pub struct Counter {
    /// The internal counter value that `produce` returns.
    pub count: u64,
}

impl Counter {
    /// A counter standing at `count`.
    pub fn new(count: u64) -> (c: Counter)
        ensures
            c.count == count,
    {
        Counter { count }
    }
}

impl BackendCapability<u64> for Counter {
    open spec fn produce_spec(&self) -> u64 {
        self.count
    }

    fn produce(&self) -> u64 {
        self.count
    }
}

/// Self-as-backend wiring: a bare `Counter` is its own designated backend
/// for `u64` requests, so the public operation is available on it directly.
impl HasBackend<u64> for Counter {
    type Backend = Counter;

    open spec fn backend_spec(&self) -> Counter {
        *self
    }

    fn backend(&self) -> &Counter {
        self
    }
}

} // verus!
