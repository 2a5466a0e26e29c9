//! The arithmetic that calibration needs from a register value.
use vstd::prelude::*;

verus! {

/// A register value: a number with the four arithmetic operations, a
/// partial order, and the three constants that a fresh device shows.
///
/// Arithmetic is specified by relations rather than functions, so that an
/// implementation whose results are not bit-for-bit reproducible (rounding
/// modes, payloads of not-a-number values) can still tell the truth: each
/// operation promises only that its result is one that the relation admits.
/// Comparisons and constants are functions.
pub trait Scalar: Copy + Sized {
    /// `r` is a value of `self + rhs`.
    spec fn is_sum(self, rhs: Self, r: Self) -> bool;

    /// `r` is a value of `self - rhs`.
    spec fn is_difference(self, rhs: Self, r: Self) -> bool;

    /// `r` is a value of `self * rhs`.
    spec fn is_product(self, rhs: Self, r: Self) -> bool;

    /// `r` is a value of `self / rhs`.
    spec fn is_quotient(self, rhs: Self, r: Self) -> bool;

    /// `self < rhs`.
    spec fn below(self, rhs: Self) -> bool;

    /// `self <= rhs`.
    spec fn at_most(self, rhs: Self) -> bool;

    /// The additive identity: the position of a device at rest.
    spec fn spec_zero() -> Self;

    /// The sentinel for a reading that was never taken.
    spec fn spec_unset() -> Self;

    /// The sentinel for a limit that does not bind.
    spec fn spec_unbounded() -> Self;

    /// `self + rhs`
    fn plus(self, rhs: Self) -> (r: Self)
        ensures
            self.is_sum(rhs, r),
    ;

    /// `self - rhs`
    fn minus(self, rhs: Self) -> (r: Self)
        ensures
            self.is_difference(rhs, r),
    ;

    /// `self * rhs`
    fn times(self, rhs: Self) -> (r: Self)
        ensures
            self.is_product(rhs, r),
    ;

    /// `self / rhs`, whatever `rhs` is: an implementation says in its
    /// relation what a division by zero gives.
    fn divided_by(self, rhs: Self) -> (r: Self)
        ensures
            self.is_quotient(rhs, r),
    ;

    /// `self < rhs`
    fn is_below(self, rhs: Self) -> (b: bool)
        ensures
            b == self.below(rhs),
    ;

    /// `self <= rhs`
    fn is_at_most(self, rhs: Self) -> (b: bool)
        ensures
            b == self.at_most(rhs),
    ;

    /// The additive identity.
    fn zero() -> (r: Self)
        ensures
            r == Self::spec_zero(),
    ;

    /// The sentinel for a reading that was never taken.
    fn unset() -> (r: Self)
        ensures
            r == Self::spec_unset(),
    ;

    /// The sentinel for a limit that does not bind.
    fn unbounded() -> (r: Self)
        ensures
            r == Self::spec_unbounded(),
    ;
}

/// The order laws that every number obeys and that a not-a-number value
/// escapes only by comparing false with everything, itself included.
pub open spec fn lawful_order<T: Scalar>() -> bool {
    &&& forall|a: T, b: T| #[trigger] a.at_most(b) ==> !b.below(a)
    &&& forall|a: T, b: T| #[trigger] a.at_most(b) ==> a.at_most(a) && b.at_most(b)
    &&& forall|a: T, b: T|
        #![trigger a.at_most(b)]
        #![trigger b.below(a)]
        a.at_most(a) && b.at_most(b) ==> a.at_most(b) || b.below(a)
}

/// Whole raw units, for a device that counts in steps.
///
/// Arithmetic is exact wherever the exact result is a 64-bit integer.
/// Where it is not (overflow, division by zero) the result is the unset
/// sentinel, the least integer. Division truncates towards zero. The order
/// is that of the integers.
impl Scalar for i64 {
    open spec fn is_sum(self, rhs: Self, r: Self) -> bool {
        r == match self.checked_add(rhs) {
            Some(sum) => sum,
            None => i64::MIN,
        }
    }

    open spec fn is_difference(self, rhs: Self, r: Self) -> bool {
        r == match self.checked_sub(rhs) {
            Some(difference) => difference,
            None => i64::MIN,
        }
    }

    open spec fn is_product(self, rhs: Self, r: Self) -> bool {
        r == match self.checked_mul(rhs) {
            Some(product) => product,
            None => i64::MIN,
        }
    }

    open spec fn is_quotient(self, rhs: Self, r: Self) -> bool {
        r == match self.checked_div(rhs) {
            Some(quotient) => quotient,
            None => i64::MIN,
        }
    }

    open spec fn below(self, rhs: Self) -> bool {
        self < rhs
    }

    open spec fn at_most(self, rhs: Self) -> bool {
        self <= rhs
    }

    open spec fn spec_zero() -> Self {
        0
    }

    open spec fn spec_unset() -> Self {
        i64::MIN
    }

    open spec fn spec_unbounded() -> Self {
        i64::MAX
    }

    fn plus(self, rhs: Self) -> (r: Self) {
        match self.checked_add(rhs) {
            Some(sum) => sum,
            None => i64::MIN,
        }
    }

    fn minus(self, rhs: Self) -> (r: Self) {
        match self.checked_sub(rhs) {
            Some(difference) => difference,
            None => i64::MIN,
        }
    }

    fn times(self, rhs: Self) -> (r: Self) {
        match self.checked_mul(rhs) {
            Some(product) => product,
            None => i64::MIN,
        }
    }

    fn divided_by(self, rhs: Self) -> (r: Self) {
        match self.checked_div(rhs) {
            Some(quotient) => quotient,
            None => i64::MIN,
        }
    }

    fn is_below(self, rhs: Self) -> (b: bool) {
        self < rhs
    }

    fn is_at_most(self, rhs: Self) -> (b: bool) {
        self <= rhs
    }

    fn zero() -> (r: Self) {
        0
    }

    fn unset() -> (r: Self) {
        i64::MIN
    }

    fn unbounded() -> (r: Self) {
        i64::MAX
    }
}

/// The integers are lawfully ordered.
pub proof fn lemma_integers_are_lawful()
    ensures
        lawful_order::<i64>(),
{
}

/// Where the sum fits, it is the sum of the integers.
pub proof fn lemma_integer_sum(a: i64, b: i64, r: i64)
    requires
        i64::MIN <= a + b <= i64::MAX,
    ensures
        a.is_sum(b, r) <==> r == a + b,
{
}

/// Where the difference fits, it is the difference of the integers.
pub proof fn lemma_integer_difference(a: i64, b: i64, r: i64)
    requires
        i64::MIN <= a - b <= i64::MAX,
    ensures
        a.is_difference(b, r) <==> r == a - b,
{
}

/// Where the product fits, it is the product of the integers.
pub proof fn lemma_integer_product(a: i64, b: i64, r: i64)
    requires
        i64::MIN <= a * b <= i64::MAX,
    ensures
        a.is_product(b, r) <==> r == a * b,
{
}

/// A natural number divided by a positive one is their integer quotient.
pub proof fn lemma_integer_quotient(a: i64, b: i64, r: i64)
    requires
        0 <= a,
        0 < b,
    ensures
        a.is_quotient(b, r) <==> r == a / b,
{
}

} // verus!
