//! The decorator: a wrapped service and the longest time a call on it may take.
use vstd::prelude::*;

use crate::span::Span;

verus! {

/// A service wrapped with a deadline. The duration is fixed at construction;
/// every call on the decorator arms a fresh timer for it.
#[derive(Debug, Clone)]
pub struct Timeout<T> {
    inner: T,
    timeout: Span,
}

impl<T> Timeout<T> {
    /// The wrapped service.
    pub closed spec fn spec_inner(&self) -> T {
        self.inner
    }

    /// The duration each call is given.
    pub closed spec fn spec_timeout(&self) -> Span {
        self.timeout
    }

    /// Wraps `inner` so that each call on it is given at most `timeout`. Any
    /// duration is accepted, zero included.
    pub fn new(inner: T, timeout: Span) -> (r: Timeout<T>)
        ensures
            r.spec_inner() == inner,
            r.spec_timeout() == timeout,
    {
        Timeout { inner, timeout }
    }

    /// The duration each call is given.
    pub fn timeout(&self) -> (r: Span)
        ensures
            r == self.spec_timeout(),
    {
        self.timeout
    }

    /// The wrapped service.
    pub fn inner(&self) -> (r: &T)
        ensures
            *r == self.spec_inner(),
    {
        &self.inner
    }

    /// The wrapped service, to be readied or called; the duration stays as it is.
    pub fn inner_mut(&mut self) -> (r: &mut T)
        ensures
            *r == old(self).spec_inner(),
            final(self).spec_inner() == *final(r),
            final(self).spec_timeout() == old(self).spec_timeout(),
    {
        &mut self.inner
    }

    /// Unwraps the decorator, giving back the wrapped service.
    pub fn into_inner(self) -> (r: T)
        ensures
            r == self.spec_inner(),
    {
        self.inner
    }
}

} // verus!
