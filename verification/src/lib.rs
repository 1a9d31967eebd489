//! A backend-client abstraction layer.
//!
//! Callers request a typed value from any one of several interchangeable
//! backend implementations through a single, generically implemented public
//! operation. Dispatch is resolved statically per concrete type: a holder
//! type reaches exactly one backend per requested type, and the public
//! operation is implemented once, in terms of that reachable backend.

pub mod access;
pub mod adapters;
pub mod capability;
pub mod composite;
pub mod counter;
pub mod facade;
pub mod has_backend;
pub mod public_api;

pub use adapters::UnownedClientA;
pub use adapters::UnownedClientB;
pub use capability::BackendCapability;
pub use composite::CompositeWrapper;
pub use counter::Counter;
pub use facade::Foo;
pub use has_backend::HasBackend;
pub use public_api::PubClientTrait;
