//! The decorator's error: the wrapped service's own error, or the timeout marker.
use vstd::prelude::*;

verus! {

/// The marker of a request that ran past its deadline. It carries nothing.
#[derive(Clone, Copy, Debug, Default, PartialEq, Eq, Hash)]
pub struct TimeoutError;

impl TimeoutError {
    /// The marker.
    pub fn new() -> (r: TimeoutError) {
        TimeoutError
    }

    /// The fixed description of a timeout.
    pub fn message(&self) -> (r: String)
        ensures
            r@ == timeout_message(),
    {
        String::from_str("request time out")
    }
}

/// What a timeout renders as.
pub open spec fn timeout_message() -> Seq<char> {
    "request time out"@
}

/// The unified error of a decorated service: exactly one of the two kinds.
/// It is a tagged union rather than an erased error, so that a caller tells a
/// timeout from a failure of the wrapped service without reading text.
#[derive(Clone, Debug, PartialEq, Eq)]
pub enum Error<E> {
    /// The wrapped service failed with this error, kept verbatim.
    Underlying(E),
    /// The deadline elapsed before the wrapped service finished.
    Timeout(TimeoutError),
}

/// The unified form of a wrapped service's result: a value is untouched, an
/// error becomes `Underlying`.
pub open spec fn spec_unify<R, E>(r: Result<R, E>) -> Result<R, Error<E>> {
    match r {
        Ok(v) => Ok(v),
        Err(e) => Err(Error::Underlying(e)),
    }
}

impl<E> Error<E> {
    /// The timeout error.
    pub fn timeout() -> (r: Error<E>)
        ensures
            r is Timeout,
    {
        Error::Timeout(TimeoutError)
    }

    /// Whether this is the timeout error.
    pub fn is_timeout(&self) -> (r: bool)
        ensures
            r == (self is Timeout),
    {
        match self {
            Error::Timeout(_) => true,
            Error::Underlying(_) => false,
        }
    }

    /// The wrapped service's error, if this is one.
    pub fn underlying(&self) -> (r: Option<&E>)
        ensures
            match self {
                Error::Underlying(e) => r == Some(e),
                Error::Timeout(_) => r is None,
            },
    {
        match self {
            Error::Underlying(e) => Some(e),
            Error::Timeout(_) => None,
        }
    }

    /// The wrapped service's error by value, if this is one.
    pub fn into_underlying(self) -> (r: Option<E>)
        ensures
            match self {
                Error::Underlying(e) => r == Some(e),
                Error::Timeout(_) => r is None,
            },
    {
        match self {
            Error::Underlying(e) => Some(e),
            Error::Timeout(_) => None,
        }
    }
}

/// Re-types a wrapped service's result into the decorator's: a value passes
/// unchanged, an error becomes `Underlying`. Never fails.
pub fn unify<R, E>(r: Result<R, E>) -> (u: Result<R, Error<E>>)
    ensures
        u == spec_unify(r),
{
    match r {
        Ok(v) => Ok(v),
        Err(e) => Err(Error::Underlying(e)),
    }
}

} // verus!
