//! A connection handle that carries the connection whose commands are
//! instrumented.
use vstd::prelude::*;

verus! {

/// An instrumented wrapper around an asynchronous Redis connection.
#[derive(Clone)]
pub struct InstrumentedAsyncConnection<C> {
    inner: C,
}

impl<C> InstrumentedAsyncConnection<C> {
    /// The wrapped connection.
    pub closed spec fn connection(&self) -> C {
        self.inner
    }

    /// Wraps `connection`.
    pub fn new(connection: C) -> (r: Self)
        ensures
            r.connection() == connection,
    {
        InstrumentedAsyncConnection { inner: connection }
    }

    /// The wrapped connection.
    pub fn inner(&self) -> (r: &C)
        ensures
            *r == self.connection(),
    {
        &self.inner
    }

    /// Mutable access to the wrapped connection.
    pub fn inner_mut(&mut self) -> (r: &mut C)
        ensures
            *r == old(self).connection(),
            final(self).connection() == *final(r),
    {
        &mut self.inner
    }
}

} // verus!
