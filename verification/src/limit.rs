//! A closed interval of admissible positions.
use crate::error::MotorError;
use crate::scalar::{lawful_order, Scalar};
use vstd::prelude::*;
use vstd::std_specs::convert::TryFromSpecImpl;

verus! {

/// A lower and an upper bound, the lower at most the upper.
#[derive(Copy, Debug, PartialEq)]
pub struct Limit<T: Scalar> {
    /// lower limit
    min: T,
    /// upper limit
    max: T,
}

impl<T: Scalar> Clone for Limit<T> {
    fn clone(&self) -> (r: Self)
        ensures
            r == *self,
    {
        *self
    }
}

impl<T: Scalar> Limit<T> {
    /// The lower bound.
    pub closed spec fn lower(self) -> T {
        self.min
    }

    /// The upper bound.
    pub closed spec fn upper(self) -> T {
        self.max
    }

    /// The bounds are in order. Every limit that `new` or `try_from` made
    /// is well formed.
    pub open spec fn wf(self) -> bool {
        self.lower().at_most(self.upper())
    }

    #[verifier::type_invariant]
    closed spec fn ordered(self) -> bool {
        self.min.at_most(self.max)
    }

    /// The limit with the given bounds.
    pub closed spec fn of(min: T, max: T) -> Self {
        Limit { min, max }
    }

    /// `value` bound into the interval: the lower bound where `value` is
    /// below it, the upper bound where `value` is above it, else `value`.
    pub open spec fn clamp_spec(self, value: T) -> T {
        if value.below(self.lower()) {
            self.lower()
        } else if self.upper().below(value) {
            self.upper()
        } else {
            value
        }
    }

    /// `value` lies between the bounds, both included.
    pub open spec fn contains(self, value: T) -> bool {
        self.lower().at_most(value) && value.at_most(self.upper())
    }

    /// The limit with the given bounds has these bounds.
    pub broadcast proof fn lemma_of_bounds(min: T, max: T)
        ensures
            (#[trigger] Self::of(min, max)).lower() == min,
            Self::of(min, max).upper() == max,
    {
    }

    /// A limit is determined by its two bounds.
    pub proof fn lemma_same_bounds(self, other: Self)
        requires
            self.lower() == other.lower(),
            self.upper() == other.upper(),
        ensures
            self == other,
    {
    }

    /// Create new limit
    pub fn new(min: T, max: T) -> (r: Self)
        requires
            min.at_most(max),
        ensures
            r == Self::of(min, max),
            r.lower() == min,
            r.upper() == max,
            r.wf(),
    {
        Limit { min, max }
    }

    /// lower limit
    pub fn min(&self) -> (r: T)
        ensures
            r == self.lower(),
            self.wf(),
    {
        proof {
            use_type_invariant(self);
        }
        self.min
    }

    /// upper limit
    pub fn max(&self) -> (r: T)
        ensures
            r == self.upper(),
            self.wf(),
    {
        proof {
            use_type_invariant(self);
        }
        self.max
    }

    /// Clamp value to limits
    ///
    /// The result lies within the limit for every `value` that is a number
    /// (one that compares equal to itself), where the scalar's order is
    /// lawful.
    pub fn clamp(&self, value: T) -> (r: T)
        ensures
            r == self.clamp_spec(value),
            self.wf(),
            lawful_order::<T>() && value.at_most(value) ==> self.contains(r),
    {
        proof {
            use_type_invariant(self);
        }
        if value.is_below(self.min) {
            self.min
        } else if self.max.is_below(value) {
            self.max
        } else {
            value
        }
    }
}

/// A clamped value lies within the limit, provided that the scalar's order
/// is lawful and that `value` is a number (it compares equal to itself).
pub proof fn lemma_clamp_within_limit<T: Scalar>(limit: Limit<T>, value: T)
    requires
        limit.wf(),
        lawful_order::<T>(),
        value.at_most(value),
    ensures
        limit.contains(limit.clamp_spec(value)),
{
}

/// Clamping twice is clamping once, whatever the value.
pub proof fn lemma_clamp_idempotent<T: Scalar>(limit: Limit<T>, value: T)
    requires
        limit.wf(),
        lawful_order::<T>(),
    ensures
        limit.clamp_spec(limit.clamp_spec(value)) == limit.clamp_spec(value),
{
}

/// A value within the limit is its own clamp.
pub proof fn lemma_clamp_fixes_contained<T: Scalar>(limit: Limit<T>, value: T)
    requires
        lawful_order::<T>(),
        limit.contains(value),
    ensures
        limit.clamp_spec(value) == value,
{
}

impl<T: Scalar> TryFrom<(T, T)> for Limit<T> {
    type Error = MotorError;

    /// The limit from `value.0` to `value.1`; rejected with
    /// [`MotorError::InvalidConfig`] unless the first is at most the second.
    fn try_from(value: (T, T)) -> (r: Result<Self, Self::Error>)
        ensures
            value.0.at_most(value.1) ==> r == Ok::<Self, MotorError>(Self::of(value.0, value.1))
                && r->Ok_0.lower() == value.0 && r->Ok_0.upper() == value.1,
            !value.0.at_most(value.1) ==> r == Err::<Self, MotorError>(MotorError::InvalidConfig),
    {
        if value.0.is_at_most(value.1) {
            Ok(Self::new(value.0, value.1))
        } else {
            Err(MotorError::InvalidConfig)
        }
    }
}

impl<T: Scalar> TryFromSpecImpl<(T, T)> for Limit<T> {
    open spec fn obeys_try_from_spec() -> bool {
        true
    }

    open spec fn try_from_spec(v: (T, T)) -> Result<Self, Self::Error> {
        if v.0.at_most(v.1) {
            Ok(Self::of(v.0, v.1))
        } else {
            Err(MotorError::InvalidConfig)
        }
    }
}

} // verus!
