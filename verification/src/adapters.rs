//! Adapters granting [`BackendCapability`] to client types this layer does
//! not control.
//!
//! The two client types below stand for backends supplied by a dependency
//! (say, a file-storage client and a database client). The layer owns only
//! the capability implementations written here — the adapters — and those
//! adapters are the only place such foreign types are touched. Each adapter
//! is written once per client type, generically over every requested type
//! the client can serve, and delegates to the client's native operation
//! without changing its behaviour.

use vstd::prelude::*;
use crate::capability::BackendCapability;
use crate::has_backend::HasBackend;
use crate::public_api::PubClientTrait;

verus! {

/// A client type whose origin is outside this layer's control: one possible
/// backend, holding the value its native operation serves.
pub struct UnownedClientA<T> {
    /// The value the client's native operation returns.
    pub value: T,
}

/// A second unowned client type, standing for an alternative backend with
/// the same shape of native operation.
pub struct UnownedClientB<T> {
    /// The value the client's native operation returns.
    pub value: T,
}

impl<T> UnownedClientA<T> {
    /// A client serving `value`.
    pub fn new(value: T) -> (c: UnownedClientA<T>)
        ensures
            c.value == value,
    {
        UnownedClientA { value }
    }

    /// The value the client's native operation returns.
    pub open spec fn native_value(&self) -> T {
        self.value
    }

    /// The client's own operation, as its origin defines it.
    pub fn native_fetch(&self) -> (r: T)
        where
            T: Copy,
        ensures
            r == self.native_value(),
    {
        self.value
    }
}

impl<T> UnownedClientB<T> {
    /// A client serving `value`.
    pub fn new(value: T) -> (c: UnownedClientB<T>)
        ensures
            c.value == value,
    {
        UnownedClientB { value }
    }

    /// The value the client's native operation returns.
    pub open spec fn native_value(&self) -> T {
        self.value
    }

    /// The client's own operation, as its origin defines it.
    pub fn native_fetch(&self) -> (r: T)
        where
            T: Copy,
        ensures
            r == self.native_value(),
    {
        self.value
    }
}

/// Adapter: coerce `UnownedClientA` to this layer's capability interface by
/// delegating to its native operation.
impl<T: Copy> BackendCapability<T> for UnownedClientA<T> {
    open spec fn produce_spec(&self) -> T {
        self.native_value()
    }

    fn produce(&self) -> T {
        self.native_fetch()
    }
}

/// Adapter: coerce `UnownedClientB` to this layer's capability interface by
/// delegating to its native operation.
impl<T: Copy> BackendCapability<T> for UnownedClientB<T> {
    open spec fn produce_spec(&self) -> T {
        self.native_value()
    }

    fn produce(&self) -> T {
        self.native_fetch()
    }
}

/// Self-as-backend wiring for a bare `UnownedClientA`.
impl<T: Copy> HasBackend<T> for UnownedClientA<T> {
    type Backend = UnownedClientA<T>;

    open spec fn backend_spec(&self) -> UnownedClientA<T> {
        *self
    }

    fn backend(&self) -> &UnownedClientA<T> {
        self
    }
}

/// Self-as-backend wiring for a bare `UnownedClientB`.
impl<T: Copy> HasBackend<T> for UnownedClientB<T> {
    type Backend = UnownedClientB<T>;

    open spec fn backend_spec(&self) -> UnownedClientB<T> {
        *self
    }

    fn backend(&self) -> &UnownedClientB<T> {
        self
    }
}

/// Adapter transparency: on any holder whose designated backend is an
/// adapted `UnownedClientA`, the public operation returns exactly what the
/// client's native operation returns — adaptation changes no behaviour.
pub proof fn lemma_adapter_transparency<T: Copy, H: HasBackend<T, Backend = UnownedClientA<T>>>(
    h: &H,
)
    ensures
        h.get_spec() == h.backend_spec().native_value(),
{
}

/// Adapter transparency for the second adapted client type: the public
/// operation returns exactly what its native operation returns.
pub proof fn lemma_adapter_transparency_b<T: Copy, H: HasBackend<T, Backend = UnownedClientB<T>>>(
    h: &H,
)
    ensures
        h.get_spec() == h.backend_spec().native_value(),
{
}

} // verus!
