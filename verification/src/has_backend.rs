//! The indirection interface: "I own, or can reach, a single value that
//! satisfies [`BackendCapability<T>`]".

use vstd::prelude::*;
use crate::capability::BackendCapability;

verus! {

/// Indirection interface through which the public operation reaches a
/// backend.
///
/// A concrete type implements `HasBackend<T>` by naming the one value,
/// reachable from `&self`, that serves as its backend for requests of type
/// `T`. For a given concrete type and `T` at most one implementation can
/// exist: trait coherence rejects a type that is wired to a backend through
/// two paths, so a holder with two competing candidates fails at compose
/// time, never at run time. For the same reason this crate grants no blanket
/// `HasBackend` implementation to every `BackendCapability` type: such a
/// rule would overlap with the explicit wiring of composite holders.
/// Instead, each backend type that should be usable as its own holder is
/// wired explicitly, self-as-backend.
pub trait HasBackend<T> {
    /// The concrete type of the designated backend.
    type Backend: BackendCapability<T>;

    /// The designated backend value, as a mathematical function of the
    /// holder's state.
    spec fn backend_spec(&self) -> Self::Backend;

    /// Borrow the designated backend.
    fn backend(&self) -> (b: &Self::Backend)
        ensures
            *b == self.backend_spec(),
    ;
}

} // verus!
