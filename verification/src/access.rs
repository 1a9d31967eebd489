//! Caller-side entry points: the ways generic code can state the bounds it
//! needs to reach a backend and request a value.
//!
//! Each function here is one access pattern over the same dispatch chain,
//! and each returns exactly what the designated backend produces. They
//! differ only in how the bounds are written: directly on the capability, on
//! the holder with the backend's capability left implied by the
//! [`crate::has_backend::HasBackend`] declaration, or with the backend's
//! associated type named or constrained at the call boundary.

use vstd::prelude::*;
use crate::capability::BackendCapability;
use crate::has_backend::HasBackend;
use crate::public_api::PubClientTrait;

verus! {

/// Request a value directly from a backend, with the capability bound
/// written out at the function boundary.
pub fn takes_foo<T, F: BackendCapability<T>>(foo: &F) -> (r: T)
    ensures
        r == foo.produce_spec(),
{
    foo.produce()
}

/// Request a value through a holder, leaving the backend's capability to
/// the bound the `HasBackend` declaration already places on its associated
/// type: nothing about the backend is restated here.
pub fn takes_foo_implying_bounds<T, H: HasBackend<T>>(holder: &H) -> (r: T)
    ensures
        r == holder.backend_spec().produce_spec(),
{
    holder.backend().produce()
}

/// Request a value through the public operation alone, never naming the
/// holder's associated backend type.
pub fn takes_foo_not_specifying_associated_type<T, H: HasBackend<T>>(holder: &H) -> (r: T)
    ensures
        r == holder.get_spec(),
{
    holder.get()
}

/// Request a value with the holder's associated backend type named as its
/// own parameter at the function boundary, its capability bound restated.
pub fn takes_foo_specifying_associated_types_implying_bounds<
    T,
    B: BackendCapability<T>,
    H: HasBackend<T, Backend = B>,
>(holder: &H) -> (r: T)
    ensures
        r == holder.backend_spec().produce_spec(),
{
    holder.backend().produce()
}

/// Request a value with the capability of the holder's associated backend
/// type demanded in a `where` clause on that associated type.
pub fn takes_foo_where_associated_t_impl_baz<T, H: HasBackend<T>>(holder: &H) -> (r: T)
    where
        H::Backend: BackendCapability<T>,
    ensures
        r == holder.backend_spec().produce_spec(),
{
    holder.backend().produce()
}

} // verus!
