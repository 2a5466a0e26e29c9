//! Gains of a proportional-integral-derivative controller.
use vstd::prelude::*;

verus! {

/// PID gains wrapper
#[derive(Copy, Debug, PartialEq, PartialOrd)]
pub struct PID<T> {
    /// Propotional gain
    pub p: T,
    /// Integral gain
    pub i: T,
    /// Derivative gain
    pub d: T,
}

impl<T: Copy> Clone for PID<T> {
    fn clone(&self) -> (r: Self)
        ensures
            r == *self,
    {
        *self
    }
}

} // verus!
