//! The values that the extension traits are for.

use vstd::prelude::*;

verus! {

/// Closes the extension traits of this crate: they are implemented for
/// `Result` and `Option` and for nothing else.
///
/// Both carry a value or the lack of one, and that is all the extension
/// traits need to know of them.
pub trait Sealed: Sized {
    /// The type of the value that is carried.
    type Success;

    /// The value that `self` carries, if it carries one.
    spec fn success(self) -> Option<Self::Success>;
}

impl<T, E> Sealed for Result<T, E> {
    type Success = T;

    open spec fn success(self) -> Option<T> {
        match self {
            Ok(value) => Some(value),
            Err(_) => None,
        }
    }
}

impl<T> Sealed for Option<T> {
    type Success = T;

    open spec fn success(self) -> Option<T> {
        self
    }
}

} // verus!
