//! The minimal capability a backend type must satisfy: given a request for
//! a value of type `T`, produce a `T`.

use vstd::prelude::*;

verus! {

/// Capability interface for producing a value of the requested type `T`.
///
/// Zero or more backend types may implement this for a given `T`, and a
/// backend type may implement it for many different `T` independently.
/// Failure semantics are backend-defined: a backend whose work can fail
/// chooses a `T` that carries the failure (for example a `Result`), and the
/// layers above pass that value through unchanged.
pub trait BackendCapability<T> {
    /// The value this backend produces, as a mathematical function of the
    /// backend's state.
    spec fn produce_spec(&self) -> T;

    /// Produce a value of the requested type.
    fn produce(&self) -> (r: T)
        ensures
            r == self.produce_spec(),
    ;
}

} // verus!
