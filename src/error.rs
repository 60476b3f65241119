//! Errors of scanning and subscribing.
use vstd::prelude::*;

verus! {

/// An error of a sensor operation. `E` is the error type of the transport
/// that does the radio work.
#[derive(Clone, Debug, PartialEq, Eq)]
pub enum Error<E> {
    /// The device did not have the wanted characteristic, or it could not be accessed.
    CharacteristicNotFound,
    /// The transport failed; its error is kept as it came.
    BleError(E),
}

/// What a transport answer becomes: its error wrapped, its success kept.
pub open spec fn lift_spec<T, E>(answer: Result<T, E>) -> Result<T, Error<E>> {
    match answer {
        Ok(v) => Ok(v),
        Err(e) => Err(Error::BleError(e)),
    }
}

/// Wraps the error of a transport answer.
pub fn lift<T, E>(answer: Result<T, E>) -> (r: Result<T, Error<E>>)
    ensures
        r == lift_spec(answer),
{
    match answer {
        Ok(v) => Ok(v),
        Err(e) => Err(Error::BleError(e)),
    }
}

} // verus!
