//! A facade putting the requested type on the method instead of the trait.
//!
//! [`crate::public_api::PubClientTrait`] carries the requested type as a
//! trait-level parameter, which is the shape the backend wiring wants: a
//! holder is wired per requested type. Call sites often read better with the
//! requested type on the method, `holder.foo::<T>()`. `Foo` provides that
//! surface, delegating each call to the trait-level machinery, so a holder
//! supports exactly the requested types its wiring supports.

use vstd::prelude::*;
use crate::has_backend::HasBackend;
use crate::public_api::PubClientTrait;

verus! {

/// The method-level-generic surface of the public operation.
pub trait Foo: Sized {
    /// Request a value of type `T`; available for exactly the `T` the
    /// holder is wired for.
    fn foo<T>(&self) -> (r: T)
        where
            Self: HasBackend<T>,
        ensures
            r == self.get_spec(),
    ;
}

/// One generic implementation: `foo` is `get` with the requested type moved
/// to the method.
impl<H> Foo for H {
    fn foo<T>(&self) -> (r: T)
        where
            Self: HasBackend<T>,
    {
        self.get()
    }
}

} // verus!
