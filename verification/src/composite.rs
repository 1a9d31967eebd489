//! A composite holder: an aggregate of several nested values, exactly one
//! of which is designated as the reachable backend.

use vstd::prelude::*;
use crate::capability::BackendCapability;
use crate::has_backend::HasBackend;
use crate::public_api::PubClientTrait;

verus! {

/// A higher-level type built by composition from several clients — say, a
/// file-storage client next to a database client. For every requested type
/// its `nested` value can serve, `nested` is the designated backend; the
/// `other` value is inert with respect to those requests. Designating the
/// one backend slot by name at compose time is what keeps the wiring
/// unambiguous: a second wiring for the same requested type would be
/// rejected as a conflicting implementation.
pub struct CompositeWrapper<U, P> {
    /// The nested value designated as the backend.
    pub nested: U,
    /// A further nested value, inert with respect to backend requests.
    pub other: P,
}

impl<U, P> CompositeWrapper<U, P> {
    /// A composite whose designated backend slot holds `nested`.
    pub fn new(nested: U, other: P) -> (c: CompositeWrapper<U, P>)
        ensures
            c.nested == nested,
            c.other == other,
    {
        CompositeWrapper { nested, other }
    }
}

/// Explicit wiring: the composite reaches its backend through the `nested`
/// slot, for every requested type that slot can serve.
impl<T, U: BackendCapability<T>, P> HasBackend<T> for CompositeWrapper<U, P> {
    type Backend = U;

    open spec fn backend_spec(&self) -> U {
        self.nested
    }

    fn backend(&self) -> &U {
        &self.nested
    }
}

/// Composite forwarding: the public operation on a composite returns
/// exactly what the nested backend produces, whatever value — of whatever
/// type — sits in the other slot.
pub proof fn lemma_composite_forwarding<T, U: BackendCapability<T>, P>(
    c: &CompositeWrapper<U, P>,
)
    ensures
        c.backend_spec() == c.nested,
        c.get_spec() == c.nested.produce_spec(),
{
}

} // verus!
