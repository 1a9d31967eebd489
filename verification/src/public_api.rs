//! The public client operation, implemented exactly once, generically, for
//! any holder that can reach a backend.

use vstd::prelude::*;
use crate::capability::BackendCapability;
use crate::has_backend::HasBackend;

verus! {

/// The public client interface: request a value of type `T`.
///
/// No concrete type implements this trait directly; the one blanket
/// implementation below grants it to every type implementing
/// [`HasBackend<T>`]. Adding a new backend therefore never touches the
/// public operation: it only adds a capability implementation and a
/// `HasBackend` wiring.
pub trait PubClientTrait<T> {
    /// The value `get` returns, as a mathematical function of the client's
    /// state.
    spec fn get_spec(&self) -> T;

    /// Request a value of type `T`.
    fn get(&self) -> (r: T)
        ensures
            r == self.get_spec(),
    ;
}

/// The single generic implementation of the public operation: delegate to
/// the designated backend and return its product unchanged.
impl<T, H: HasBackend<T>> PubClientTrait<T> for H {
    open spec fn get_spec(&self) -> T {
        self.backend_spec().produce_spec()
    }

    fn get(&self) -> (r: T) {
        self.backend().produce()
    }
}

/// Delegation fidelity: for every holder `h` reaching a backend for `T`,
/// the public operation returns exactly what that backend produces — no
/// transformation is applied on the way through.
pub proof fn lemma_delegation_fidelity<T, H: HasBackend<T>>(h: &H)
    ensures
        h.get_spec() == h.backend_spec().produce_spec(),
{
}

/// Error passthrough: when a backend's product is a `Result` and the
/// backend fails with error `k`, the public operation surfaces `Err(k)`
/// unchanged — same kind, same payload.
pub proof fn lemma_error_passthrough<V, K, H: HasBackend<Result<V, K>>>(h: &H, k: K)
    requires
        h.backend_spec().produce_spec() == Err::<V, K>(k),
    ensures
        h.get_spec() == Err::<V, K>(k),
{
}

} // verus!
