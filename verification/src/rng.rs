//! The one source of randomness: fresh identifiers for placeholders, variable
//! names and block names are drawn from `rand`.

use vstd::prelude::*;

verus! {

/// Relies on `rand::random`: draws a value of the given type from the
/// thread-local generator. Nothing is promised of which value comes back.
pub assume_specification<T>[ rand::random::<T> ]() -> (r: T)
    where
        rand::distributions::Standard: rand::distributions::Distribution<T>,
;

} // verus!
