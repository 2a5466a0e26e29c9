//! Conversion between raw register units and physical units, axis by axis.
//!
//! Reading divides by the reduction ratio and then subtracts the offset.
//! Writing clamps into the limit, adds the offset and then multiplies by the
//! reduction ratio, in that order: with a negative ratio the order shows.
//! An absent offset, ratio or limit skips its step altogether.
use crate::limit::Limit;
use crate::scalar::Scalar;
use vstd::prelude::*;

verus! {

/// The calibration of `N` axes. An absent entry means that the axis has no
/// such transform: the step is skipped, not done with a neutral value.
pub struct Calibration<T: Scalar, const N: usize> {
    /// What is added to a physical position on its way to the register.
    pub offsets: [Option<T>; N],
    /// The ratio of raw units to physical units; negative for an axis that
    /// is mounted in reverse.
    pub reduction: [Option<T>; N],
    /// The positions that may be commanded.
    pub limits: [Option<Limit<T>>; N],
}

/// `r` is `value` divided by the reduction ratio, or `value` itself where
/// the axis has none.
pub open spec fn is_scaled_down<T: Scalar>(value: T, reduction: Option<T>, r: T) -> bool {
    match reduction {
        Some(ratio) => value.is_quotient(ratio, r),
        None => r == value,
    }
}

/// `r` is `value` multiplied by the reduction ratio, or `value` itself
/// where the axis has none.
pub open spec fn is_scaled_up<T: Scalar>(value: T, reduction: Option<T>, r: T) -> bool {
    match reduction {
        Some(ratio) => value.is_product(ratio, r),
        None => r == value,
    }
}

/// `r` is `value` plus the offset, or `value` itself where the axis has
/// none.
pub open spec fn is_shifted<T: Scalar>(value: T, offset: Option<T>, r: T) -> bool {
    match offset {
        Some(by) => value.is_sum(by, r),
        None => r == value,
    }
}

/// `r` is `value` minus the offset, or `value` itself where the axis has
/// none.
pub open spec fn is_unshifted<T: Scalar>(value: T, offset: Option<T>, r: T) -> bool {
    match offset {
        Some(by) => value.is_difference(by, r),
        None => r == value,
    }
}

/// `value` bound into the limit, or `value` itself where the axis has none.
pub open spec fn clamped<T: Scalar>(value: T, limit: Option<Limit<T>>) -> T {
    match limit {
        Some(bounds) => bounds.clamp_spec(value),
        None => value,
    }
}

/// `physical` is the position that the raw reading `raw` stands for:
/// `raw / reduction - offset`.
pub open spec fn is_physical_position<T: Scalar>(
    raw: T,
    reduction: Option<T>,
    offset: Option<T>,
    physical: T,
) -> bool {
    exists|scaled: T| #[trigger]
        is_scaled_down(raw, reduction, scaled) && is_unshifted(scaled, offset, physical)
}

/// `raw` is the register value that commands the position `physical`:
/// `(clamp(physical) + offset) * reduction`.
pub open spec fn is_raw_position<T: Scalar>(
    physical: T,
    limit: Option<Limit<T>>,
    offset: Option<T>,
    reduction: Option<T>,
    raw: T,
) -> bool {
    exists|shifted: T| #[trigger]
        is_shifted(clamped(physical, limit), offset, shifted) && is_scaled_up(
            shifted,
            reduction,
            raw,
        )
}

/// Axis by axis, `physical` holds the positions that `raw` stands for.
pub open spec fn are_physical_positions<T: Scalar, const N: usize>(
    raw: [T; N],
    reductions: [Option<T>; N],
    offsets: [Option<T>; N],
    physical: [T; N],
) -> bool {
    forall|i: int|
        0 <= i < N ==> is_physical_position(raw[i], reductions[i], offsets[i], #[trigger] physical[i])
}

/// Axis by axis, `raw` holds the register values that command `physical`.
pub open spec fn are_raw_positions<T: Scalar, const N: usize>(
    physical: [T; N],
    limits: [Option<Limit<T>>; N],
    offsets: [Option<T>; N],
    reductions: [Option<T>; N],
    raw: [T; N],
) -> bool {
    forall|i: int|
        0 <= i < N ==> is_raw_position(
            physical[i],
            limits[i],
            offsets[i],
            reductions[i],
            #[trigger] raw[i],
        )
}

/// Axis by axis, `scaled` is `values` divided by the reduction ratios.
pub open spec fn are_scaled_down<T: Scalar, const N: usize>(
    values: [T; N],
    reductions: [Option<T>; N],
    scaled: [T; N],
) -> bool {
    forall|i: int| 0 <= i < N ==> is_scaled_down(values[i], reductions[i], #[trigger] scaled[i])
}

/// Axis by axis, `scaled` is `values` multiplied by the reduction ratios.
pub open spec fn are_scaled_up<T: Scalar, const N: usize>(
    values: [T; N],
    reductions: [Option<T>; N],
    scaled: [T; N],
) -> bool {
    forall|i: int| 0 <= i < N ==> is_scaled_up(values[i], reductions[i], #[trigger] scaled[i])
}

/// An axis without reduction ratio and offset reads its raw value.
pub proof fn lemma_uncalibrated_read<T: Scalar>(raw: T, physical: T)
    ensures
        is_physical_position(raw, None, None, physical) <==> physical == raw,
{
    if physical == raw {
        assert(is_scaled_down(raw, None, raw) && is_unshifted(raw, None, physical));
    }
}

/// An axis without limit, offset and reduction ratio is written unchanged.
pub proof fn lemma_uncalibrated_write<T: Scalar>(physical: T, raw: T)
    ensures
        is_raw_position(physical, None, None, None, raw) <==> raw == physical,
{
    if raw == physical {
        assert(is_shifted(clamped(physical, None), None, physical) && is_scaled_up(
            physical,
            None,
            raw,
        ));
    }
}

/// The limit acts first, in physical units: writing `physical` under a
/// limit is writing its clamp under none.
pub proof fn lemma_limit_acts_first<T: Scalar>(
    physical: T,
    limit: Limit<T>,
    offset: Option<T>,
    reduction: Option<T>,
    raw: T,
)
    ensures
        is_raw_position(physical, Some(limit), offset, reduction, raw) <==> is_raw_position(
            limit.clamp_spec(physical),
            None,
            offset,
            reduction,
            raw,
        ),
{
    assert(clamped(physical, Some(limit)) == clamped(limit.clamp_spec(physical), None));
}

/// Division by `reduction` undoes the multiplication of `value` by it.
/// This holds of an absent ratio, and of every ratio but zero where the
/// product is exact.
pub open spec fn scaling_is_undone<T: Scalar>(value: T, reduction: Option<T>) -> bool {
    match reduction {
        Some(ratio) => forall|up: T, down: T|
            #![trigger value.is_product(ratio, up), up.is_quotient(ratio, down)]
            value.is_product(ratio, up) && up.is_quotient(ratio, down) ==> down == value,
        None => true,
    }
}

/// Subtraction of `offset` undoes the addition of it to `value`. This holds
/// of an absent offset, and of every offset where the sum is exact.
pub open spec fn shift_is_undone<T: Scalar>(value: T, offset: Option<T>) -> bool {
    match offset {
        Some(by) => forall|up: T, down: T|
            #![trigger value.is_sum(by, up), up.is_difference(by, down)]
            value.is_sum(by, up) && up.is_difference(by, down) ==> down == value,
        None => true,
    }
}

/// Round trip: where the two steps of the write can be undone, the position
/// read back from the raw value written for `physical` is `physical` bound
/// into the limit.
pub proof fn lemma_round_trip<T: Scalar>(
    physical: T,
    limit: Option<Limit<T>>,
    offset: Option<T>,
    reduction: Option<T>,
    raw: T,
    back: T,
)
    requires
        shift_is_undone(clamped(physical, limit), offset),
        forall|shifted: T| #[trigger]
            is_shifted(clamped(physical, limit), offset, shifted) ==> scaling_is_undone(
                shifted,
                reduction,
            ),
        is_raw_position(physical, limit, offset, reduction, raw),
        is_physical_position(raw, reduction, offset, back),
    ensures
        back == clamped(physical, limit),
{
}

/// On integers, subtraction undoes every addition that fits.
pub proof fn lemma_integer_shift_is_undone(value: i64, by: i64)
    requires
        i64::MIN <= value + by <= i64::MAX,
    ensures
        shift_is_undone(value, Some(by)),
{
}

/// A multiple of a positive number, divided by it, is the other factor.
proof fn lemma_multiple_divided(a: int, b: int)
    requires
        0 <= a,
        0 < b,
    ensures
        (a * b) / b == a,
        0 <= a * b,
{
    assert((a * b) / b == a && 0 <= a * b) by (nonlinear_arith)
        requires
            0 <= a,
            0 < b,
    ;
}

/// On integers, division undoes every multiplication that fits, but that
/// by zero.
pub proof fn lemma_integer_scaling_is_undone(value: i64, ratio: i64)
    requires
        ratio != 0,
        i64::MIN <= value * ratio <= i64::MAX,
    ensures
        scaling_is_undone(value, Some(ratio)),
{
    let v = value as int;
    let k = ratio as int;
    let x = v * k;
    if v == 0 {
        assert(x == 0) by (nonlinear_arith)
            requires
                x == v * k,
                v == 0,
        ;
    } else if v > 0 && k > 0 {
        lemma_multiple_divided(v, k);
        assert(x > 0) by (nonlinear_arith)
            requires
                x == v * k,
                v > 0,
                k > 0,
        ;
    } else if v < 0 && k < 0 {
        lemma_multiple_divided(-v, -k);
        assert(x == (-v) * (-k) && x > 0) by (nonlinear_arith)
            requires
                x == v * k,
                v < 0,
                k < 0,
        ;
    } else if v < 0 {
        lemma_multiple_divided(-v, k);
        assert(x * -1 == (-v) * k && x < 0) by (nonlinear_arith)
            requires
                x == v * k,
                v < 0,
                k > 0,
        ;
    } else {
        lemma_multiple_divided(v, -k);
        assert(x * -1 == v * (-k) && x < 0) by (nonlinear_arith)
            requires
                x == v * k,
                v > 0,
                k < 0,
        ;
    }
}

/// Round trip on integers: where the sum and the product fit, the position
/// read back is the commanded position bound into the limit.
pub proof fn lemma_integer_round_trip(
    physical: i64,
    limit: Option<Limit<i64>>,
    offset: Option<i64>,
    reduction: Option<i64>,
    raw: i64,
    back: i64,
)
    requires
        reduction != Some(0i64),
        i64::MIN <= clamped(physical, limit) + offset.unwrap_or(0) <= i64::MAX,
        i64::MIN <= (clamped(physical, limit) + offset.unwrap_or(0)) * reduction.unwrap_or(1)
            <= i64::MAX,
        is_raw_position(physical, limit, offset, reduction, raw),
        is_physical_position(raw, reduction, offset, back),
    ensures
        back == clamped(physical, limit),
{
    let limited = clamped(physical, limit);
    if let Some(by) = offset {
        lemma_integer_shift_is_undone(limited, by);
    }
    assert forall|shifted: i64| #[trigger]
        is_shifted(limited, offset, shifted) implies scaling_is_undone(shifted, reduction) by {
        if let Some(ratio) = reduction {
            lemma_integer_scaling_is_undone(shifted, ratio);
        }
    }
    lemma_round_trip(physical, limit, offset, reduction, raw, back);
}

/// Divides `value` by the reduction ratio, if the axis has one.
pub fn scale_down<T: Scalar>(value: T, reduction: Option<T>) -> (r: T)
    ensures
        is_scaled_down(value, reduction, r),
{
    match reduction {
        Some(ratio) => value.divided_by(ratio),
        None => value,
    }
}

/// Multiplies `value` by the reduction ratio, if the axis has one.
pub fn scale_up<T: Scalar>(value: T, reduction: Option<T>) -> (r: T)
    ensures
        is_scaled_up(value, reduction, r),
{
    match reduction {
        Some(ratio) => value.times(ratio),
        None => value,
    }
}

/// The physical position for a raw reading: divide by the reduction ratio,
/// then subtract the offset.
pub fn to_physical_position<T: Scalar>(raw: T, reduction: Option<T>, offset: Option<T>) -> (r: T)
    ensures
        is_physical_position(raw, reduction, offset, r),
{
    let scaled = scale_down(raw, reduction);
    match offset {
        Some(by) => scaled.minus(by),
        None => scaled,
    }
}

/// The raw register value for a commanded position: clamp into the limit,
/// add the offset, then multiply by the reduction ratio.
pub fn to_raw_position<T: Scalar>(
    physical: T,
    limit: Option<Limit<T>>,
    offset: Option<T>,
    reduction: Option<T>,
) -> (r: T)
    ensures
        is_raw_position(physical, limit, offset, reduction, r),
{
    let limited = match limit {
        Some(bounds) => bounds.clamp(physical),
        None => physical,
    };
    let shifted = match offset {
        Some(by) => limited.plus(by),
        None => limited,
    };
    let raw = scale_up(shifted, reduction);
    assert(is_shifted(clamped(physical, limit), offset, shifted) && is_scaled_up(
        shifted,
        reduction,
        raw,
    ));
    raw
}

/// The physical positions for the raw readings of all axes.
pub fn to_physical_positions<T: Scalar, const N: usize>(
    raw: [T; N],
    reductions: [Option<T>; N],
    offsets: [Option<T>; N],
) -> (r: [T; N])
    ensures
        are_physical_positions(raw, reductions, offsets, r),
{
    let mut position = raw;
    let mut i: usize = 0;
    while i < N
        invariant
            i <= N,
            forall|j: int|
                0 <= j < i ==> is_physical_position(
                    raw[j],
                    reductions[j],
                    offsets[j],
                    #[trigger] position[j],
                ),
        decreases N - i,
    {
        position[i] = to_physical_position(raw[i], reductions[i], offsets[i]);
        i += 1;
    }
    position
}

/// The raw register values for the commanded positions of all axes.
pub fn to_raw_positions<T: Scalar, const N: usize>(
    physical: [T; N],
    limits: [Option<Limit<T>>; N],
    offsets: [Option<T>; N],
    reductions: [Option<T>; N],
) -> (r: [T; N])
    ensures
        are_raw_positions(physical, limits, offsets, reductions, r),
{
    let mut raw = physical;
    let mut i: usize = 0;
    while i < N
        invariant
            i <= N,
            forall|j: int|
                0 <= j < i ==> is_raw_position(
                    physical[j],
                    limits[j],
                    offsets[j],
                    reductions[j],
                    #[trigger] raw[j],
                ),
        decreases N - i,
    {
        raw[i] = to_raw_position(physical[i], limits[i], offsets[i], reductions[i]);
        i += 1;
    }
    raw
}

/// Every axis divided by its reduction ratio.
pub fn scale_down_all<T: Scalar, const N: usize>(values: [T; N], reductions: [Option<T>; N]) -> (r:
    [T; N])
    ensures
        are_scaled_down(values, reductions, r),
{
    let mut scaled = values;
    let mut i: usize = 0;
    while i < N
        invariant
            i <= N,
            forall|j: int|
                0 <= j < i ==> is_scaled_down(values[j], reductions[j], #[trigger] scaled[j]),
        decreases N - i,
    {
        scaled[i] = scale_down(values[i], reductions[i]);
        i += 1;
    }
    scaled
}

/// Every axis multiplied by its reduction ratio.
pub fn scale_up_all<T: Scalar, const N: usize>(values: [T; N], reductions: [Option<T>; N]) -> (r:
    [T; N])
    ensures
        are_scaled_up(values, reductions, r),
{
    let mut scaled = values;
    let mut i: usize = 0;
    while i < N
        invariant
            i <= N,
            forall|j: int|
                0 <= j < i ==> is_scaled_up(values[j], reductions[j], #[trigger] scaled[j]),
        decreases N - i,
    {
        scaled[i] = scale_up(values[i], reductions[i]);
        i += 1;
    }
    scaled
}

} // verus!
