//! Small shared items.

use vstd::prelude::*;
use vstd::string::StringExecFns;

verus! {

/// A value lay outside the domain that was asked for: an axis value off the
/// board, or a letter that names no piece.
#[derive(Debug, Clone, Copy, PartialEq, Eq, Structural)]
pub struct ValueError;

impl ValueError {
    /// The error as text.
    pub fn to_string(&self) -> (r: String)
        ensures
            r@ == "ValueError"@,
    {
        String::from_str("ValueError")
    }
}

/// Taking the value out of a result that is known to hold one.
pub trait DiscreetUnwrap<T, E>: Sized {
    /// The value that is held, if one is.
    spec fn held(self) -> Option<T>;

    /// The value that is held. There has to be one.
    fn duwrp(self) -> (r: T)
        requires
            self.held() is Some,
        ensures
            Some(r) == self.held(),
    ;
}

impl<T, E> DiscreetUnwrap<T, E> for Result<T, E> {
    open spec fn held(self) -> Option<T> {
        match self {
            Ok(value) => Some(value),
            Err(_) => None,
        }
    }

    fn duwrp(self) -> (r: T) {
        match self {
            Ok(r) => r,
            Err(_) => vstd::pervasive::unreached(),
        }
    }
}

} // verus!
