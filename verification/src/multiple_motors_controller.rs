//! Several axes as one controller: the physical-unit operations over their
//! raw registers, and the fan-out that builds the registers of a group out
//! of single-axis controllers.
use crate::calibration::{is_physical_position, is_raw_position, is_scaled_down, is_scaled_up};
use crate::calibration::{scale_down, scale_up, to_physical_position, to_raw_position};
use crate::coherency::CoherentResult;
use crate::error::MotorError;
use crate::motor_controller::RawMotorController;
use crate::motors_io::Register;
use crate::pid::PID;
use crate::scalar::Scalar;
use vstd::prelude::*;

verus! {

/// The registers of a group of `N` axes with one torque switch, in the
/// device's own units, with the offsets and the reduction ratios that
/// calibrate them. Each operation is specified by a relation that the
/// implementation chooses.
pub trait RawMultipleMotorsController<T: Scalar, const N: usize>: Sized {
    /// `get_offset` may take the group from `pre` to `post` and return `r`.
    spec fn offset_read(pre: Self, post: Self, r: [T; N]) -> bool;

    /// `get_reduction_ratio` may take the group from `pre` to `post` and
    /// return `r`.
    spec fn reduction_ratio_read(pre: Self, post: Self, r: [T; N]) -> bool;

    /// `is_torque_on` may take the group from `pre` to `post` and return `r`.
    spec fn torque_read(pre: Self, post: Self, r: Result<bool, MotorError>) -> bool;

    /// `set_torque(on)` may take the group from `pre` to `post` and return
    /// `r`.
    spec fn torque_written(pre: Self, on: bool, post: Self, r: Result<(), MotorError>) -> bool;

    /// Reading `register` may take the group from `pre` to `post` and
    /// return `r`.
    spec fn raw_read(
        pre: Self,
        register: Register,
        post: Self,
        r: Result<[T; N], MotorError>,
    ) -> bool;

    /// Writing `values` to `register` may take the group from `pre` to
    /// `post` and return `r`.
    spec fn raw_written(
        pre: Self,
        register: Register,
        values: [T; N],
        post: Self,
        r: Result<(), MotorError>,
    ) -> bool;

    /// `get_pid_gains` may take the group from `pre` to `post` and return
    /// `r`.
    spec fn pid_read(pre: Self, post: Self, r: Result<[PID<T>; N], MotorError>) -> bool;

    /// `set_pid_gains(pid)` may take the group from `pre` to `post` and
    /// return `r`.
    spec fn pid_written(pre: Self, pid: [PID<T>; N], post: Self, r: Result<(), MotorError>) -> bool;

    /// Name of the controller (used for Debug trait)
    fn name(&self) -> String;

    /// Get motor offset (in radians)
    fn get_offset(&mut self) -> (r: [T; N])
        ensures
            Self::offset_read(*old(self), *final(self), r),
    ;

    /// Get motor reduction ratio
    fn get_reduction_ratio(&mut self) -> (r: [T; N])
        ensures
            Self::reduction_ratio_read(*old(self), *final(self), r),
    ;

    /// Check if the motor is ON or OFF
    fn is_torque_on(&mut self) -> (r: Result<bool, MotorError>)
        ensures
            Self::torque_read(*old(self), *final(self), r),
    ;

    /// Enable/Disable the torque
    fn set_torque(&mut self, on: bool) -> (r: Result<(), MotorError>)
        ensures
            Self::torque_written(*old(self), on, *final(self), r),
    ;

    /// Get the motor raw position (in radians)
    /// ie. without offset and reduction ratio
    fn get_raw_position(&mut self) -> (r: Result<[T; N], MotorError>)
        ensures
            Self::raw_read(*old(self), Register::CurrentPosition, *final(self), r),
    ;

    /// Get the motor raw velocity (in radians per second)
    /// ie. without reduction ratio
    fn get_raw_velocity(&mut self) -> (r: Result<[T; N], MotorError>)
        ensures
            Self::raw_read(*old(self), Register::CurrentVelocity, *final(self), r),
    ;

    /// Get the motor raw torque (in Nm)
    /// ie. without reduction ratio
    fn get_raw_torque(&mut self) -> (r: Result<[T; N], MotorError>)
        ensures
            Self::raw_read(*old(self), Register::CurrentTorque, *final(self), r),
    ;

    /// Get raw target position of the motor (in radians)
    /// ie. without offset and reduction ratio
    fn get_raw_target_position(&mut self) -> (r: Result<[T; N], MotorError>)
        ensures
            Self::raw_read(*old(self), Register::TargetPosition, *final(self), r),
    ;

    /// Set raw target position of the motor (in radians)
    /// ie. without offset and reduction ratio
    fn set_raw_target_position(&mut self, position: [T; N]) -> (r: Result<(), MotorError>)
        ensures
            Self::raw_written(*old(self), Register::TargetPosition, position, *final(self), r),
    ;

    /// Get raw velocity limit of the motor (in radians per second)
    /// ie. without reduction ratio
    fn get_raw_velocity_limit(&mut self) -> (r: Result<[T; N], MotorError>)
        ensures
            Self::raw_read(*old(self), Register::VelocityLimit, *final(self), r),
    ;

    /// Set raw velocity limit of the motor (in radians per second)
    /// ie. without reduction ratio
    fn set_raw_velocity_limit(&mut self, velocity: [T; N]) -> (r: Result<(), MotorError>)
        ensures
            Self::raw_written(*old(self), Register::VelocityLimit, velocity, *final(self), r),
    ;

    /// Get raw torque limit of the motor (in Nm)
    /// ie. without reduction ratio
    fn get_raw_torque_limit(&mut self) -> (r: Result<[T; N], MotorError>)
        ensures
            Self::raw_read(*old(self), Register::TorqueLimit, *final(self), r),
    ;

    /// Set raw torque limit of the motor (in Nm)
    /// ie. without reduction ratio
    fn set_raw_torque_limit(&mut self, torque: [T; N]) -> (r: Result<(), MotorError>)
        ensures
            Self::raw_written(*old(self), Register::TorqueLimit, torque, *final(self), r),
    ;

    /// Get the current PID gains of the motor
    fn get_pid_gains(&mut self) -> (r: Result<[PID<T>; N], MotorError>)
        ensures
            Self::pid_read(*old(self), *final(self), r),
    ;

    /// Set the current PID gains of the motor
    fn set_pid_gains(&mut self, pid: [PID<T>; N]) -> (r: Result<(), MotorError>)
        ensures
            Self::pid_written(*old(self), pid, *final(self), r),
    ;
}

/// Axis by axis, `physical` is `raw / ratios - offsets`.
pub open spec fn are_calibrated_positions<T: Scalar, const N: usize>(
    raw: [T; N],
    ratios: [T; N],
    offsets: [T; N],
    physical: [T; N],
) -> bool {
    forall|i: int|
        0 <= i < N ==> is_physical_position(
            raw[i],
            Some(ratios[i]),
            Some(offsets[i]),
            #[trigger] physical[i],
        )
}

/// Axis by axis, `raw` is `(physical + offsets) * ratios`.
pub open spec fn are_calibrated_targets<T: Scalar, const N: usize>(
    physical: [T; N],
    offsets: [T; N],
    ratios: [T; N],
    raw: [T; N],
) -> bool {
    forall|i: int|
        0 <= i < N ==> is_raw_position(
            physical[i],
            None,
            Some(offsets[i]),
            Some(ratios[i]),
            #[trigger] raw[i],
        )
}

/// Axis by axis, `scaled` is `values / ratios`.
pub open spec fn are_divided<T: Scalar, const N: usize>(
    values: [T; N],
    ratios: [T; N],
    scaled: [T; N],
) -> bool {
    forall|i: int| 0 <= i < N ==> is_scaled_down(values[i], Some(ratios[i]), #[trigger] scaled[i])
}

/// Axis by axis, `scaled` is `values * ratios`.
pub open spec fn are_multiplied<T: Scalar, const N: usize>(
    values: [T; N],
    ratios: [T; N],
    scaled: [T; N],
) -> bool {
    forall|i: int| 0 <= i < N ==> is_scaled_up(values[i], Some(ratios[i]), #[trigger] scaled[i])
}

/// Every raw reading in physical units.
pub fn calibrate_positions<T: Scalar, const N: usize>(
    raw: [T; N],
    ratios: [T; N],
    offsets: [T; N],
) -> (r: [T; N])
    ensures
        are_calibrated_positions(raw, ratios, offsets, r),
{
    let mut position = raw;
    let mut i: usize = 0;
    while i < N
        invariant
            i <= N,
            forall|j: int|
                0 <= j < i ==> is_physical_position(
                    raw[j],
                    Some(ratios[j]),
                    Some(offsets[j]),
                    #[trigger] position[j],
                ),
        decreases N - i,
    {
        position[i] = to_physical_position(raw[i], Some(ratios[i]), Some(offsets[i]));
        i += 1;
    }
    position
}

/// Every commanded position in raw units.
pub fn calibrate_targets<T: Scalar, const N: usize>(
    physical: [T; N],
    offsets: [T; N],
    ratios: [T; N],
) -> (r: [T; N])
    ensures
        are_calibrated_targets(physical, offsets, ratios, r),
{
    let mut raw = physical;
    let mut i: usize = 0;
    while i < N
        invariant
            i <= N,
            forall|j: int|
                0 <= j < i ==> is_raw_position(
                    physical[j],
                    None,
                    Some(offsets[j]),
                    Some(ratios[j]),
                    #[trigger] raw[j],
                ),
        decreases N - i,
    {
        raw[i] = to_raw_position(physical[i], None, Some(offsets[i]), Some(ratios[i]));
        i += 1;
    }
    raw
}

/// Every value divided by the ratio of its axis.
pub fn divide_all<T: Scalar, const N: usize>(values: [T; N], ratios: [T; N]) -> (r: [T; N])
    ensures
        are_divided(values, ratios, r),
{
    let mut scaled = values;
    let mut i: usize = 0;
    while i < N
        invariant
            i <= N,
            forall|j: int|
                0 <= j < i ==> is_scaled_down(values[j], Some(ratios[j]), #[trigger] scaled[j]),
        decreases N - i,
    {
        scaled[i] = scale_down(values[i], Some(ratios[i]));
        i += 1;
    }
    scaled
}

/// Every value multiplied by the ratio of its axis.
pub fn multiply_all<T: Scalar, const N: usize>(values: [T; N], ratios: [T; N]) -> (r: [T; N])
    ensures
        are_multiplied(values, ratios, r),
{
    let mut scaled = values;
    let mut i: usize = 0;
    while i < N
        invariant
            i <= N,
            forall|j: int|
                0 <= j < i ==> is_scaled_up(values[j], Some(ratios[j]), #[trigger] scaled[j]),
        decreases N - i,
    {
        scaled[i] = scale_up(values[i], Some(ratios[i]));
        i += 1;
    }
    scaled
}

/// The position register `register` was read, then the offsets, then the
/// reduction ratios, and `r` holds the readings in physical units; or the
/// read failed, nothing else was done, and `r` is its error.
pub open spec fn positions_read<T: Scalar, const N: usize, C: RawMultipleMotorsController<T, N>>(
    pre: C,
    register: Register,
    post: C,
    r: Result<[T; N], MotorError>,
) -> bool {
    exists|read: C, raw: Result<[T; N], MotorError>| #[trigger]
        C::raw_read(pre, register, read, raw) && match raw {
            Ok(values) => exists|shifted: C, offsets: [T; N], ratios: [T; N]|
                {
                    &&& #[trigger] C::offset_read(read, shifted, offsets)
                    &&& #[trigger] C::reduction_ratio_read(shifted, post, ratios)
                    &&& r is Ok
                    &&& are_calibrated_positions(values, ratios, offsets, r->Ok_0)
                },
            Err(e) => post == read && r == Err::<[T; N], MotorError>(e),
        }
}

/// `register` was read, then the reduction ratios, and `r` holds the
/// readings divided by the ratios; or the read failed, nothing else was
/// done, and `r` is its error.
pub open spec fn scaled_values_read<
    T: Scalar,
    const N: usize,
    C: RawMultipleMotorsController<T, N>,
>(pre: C, register: Register, post: C, r: Result<[T; N], MotorError>) -> bool {
    exists|read: C, raw: Result<[T; N], MotorError>| #[trigger]
        C::raw_read(pre, register, read, raw) && match raw {
            Ok(values) => exists|ratios: [T; N]|
                {
                    &&& #[trigger] C::reduction_ratio_read(read, post, ratios)
                    &&& r is Ok
                    &&& are_divided(values, ratios, r->Ok_0)
                },
            Err(e) => post == read && r == Err::<[T; N], MotorError>(e),
        }
}

/// The offsets were read, then the reduction ratios, and then `position`
/// was written to the target register in raw units, with result `r`.
pub open spec fn positions_written<
    T: Scalar,
    const N: usize,
    C: RawMultipleMotorsController<T, N>,
>(pre: C, position: [T; N], post: C, r: Result<(), MotorError>) -> bool {
    exists|shifted: C, offsets: [T; N], scaled: C, ratios: [T; N], raw: [T; N]|
        {
            &&& #[trigger] C::offset_read(pre, shifted, offsets)
            &&& #[trigger] C::reduction_ratio_read(shifted, scaled, ratios)
            &&& are_calibrated_targets(position, offsets, ratios, raw)
            &&& #[trigger] C::raw_written(scaled, Register::TargetPosition, raw, post, r)
        }
}

/// The reduction ratios were read, and then `values` times the ratios
/// were written to `register`, with result `r`.
pub open spec fn scaled_values_written<
    T: Scalar,
    const N: usize,
    C: RawMultipleMotorsController<T, N>,
>(pre: C, register: Register, values: [T; N], post: C, r: Result<(), MotorError>) -> bool {
    exists|scaled: C, ratios: [T; N], raw: [T; N]|
        {
            &&& #[trigger] C::reduction_ratio_read(pre, scaled, ratios)
            &&& are_multiplied(values, ratios, raw)
            &&& #[trigger] C::raw_written(scaled, register, raw, post, r)
        }
}

/// The target was set to the current position, if `reset_target` asks for
/// it, and then the torque was switched on. The first step that failed was
/// the last, and `r` is its error.
pub open spec fn group_torque_enabled<
    T: Scalar,
    const N: usize,
    C: RawMultipleMotorsController<T, N>,
>(pre: C, reset_target: bool, post: C, r: Result<(), MotorError>) -> bool {
    if reset_target {
        exists|read: C, position: Result<[T; N], MotorError>| #[trigger]
            positions_read(pre, Register::CurrentPosition, read, position) && match position {
                Ok(p) => exists|written: C, w: Result<(), MotorError>| #[trigger]
                    positions_written(read, p, written, w) && if w is Ok {
                        C::torque_written(written, true, post, r)
                    } else {
                        post == written && r == w
                    },
                Err(e) => post == read && r == Err::<(), MotorError>(e),
            }
    } else {
        C::torque_written(pre, true, post, r)
    }
}

/// A group of `N` axes with one torque switch, in physical units (radians,
/// radians per second, newton-metres).
///
/// Every group that offers its raw registers is such a controller.
pub trait MultipleMotorsController<T: Scalar, const N: usize>: RawMultipleMotorsController<
    T,
    N,
> {
    /// Enable the torque
    ///
    /// # Arguments
    /// * `reset_target` - If true, reset the target position to the current position
    fn enable_torque(&mut self, reset_target: bool) -> (r: Result<(), MotorError>)
        ensures
            group_torque_enabled(*old(self), reset_target, *final(self), r),
    {
        if reset_target {
            let position = self.get_current_position()?;
            self.set_target_position(position)?;
        }
        self.set_torque(true)
    }

    /// Disable the torque
    fn disable_torque(&mut self) -> (r: Result<(), MotorError>)
        ensures
            Self::torque_written(*old(self), false, *final(self), r),
    {
        self.set_torque(false)
    }

    /// Get the current position of the motor (in radians)
    fn get_current_position(&mut self) -> (r: Result<[T; N], MotorError>)
        ensures
            positions_read(*old(self), Register::CurrentPosition, *final(self), r),
    {
        let raw = self.get_raw_position()?;
        let offsets = self.get_offset();
        let ratios = self.get_reduction_ratio();
        Ok(calibrate_positions(raw, ratios, offsets))
    }

    /// Get the current velocity of the motor (in radians per second)
    fn get_current_velocity(&mut self) -> (r: Result<[T; N], MotorError>)
        ensures
            scaled_values_read(*old(self), Register::CurrentVelocity, *final(self), r),
    {
        let raw = self.get_raw_velocity()?;
        let ratios = self.get_reduction_ratio();
        Ok(divide_all(raw, ratios))
    }

    /// Get the current torque of the motor (in Nm)
    fn get_current_torque(&mut self) -> (r: Result<[T; N], MotorError>)
        ensures
            scaled_values_read(*old(self), Register::CurrentTorque, *final(self), r),
    {
        let raw = self.get_raw_torque()?;
        let ratios = self.get_reduction_ratio();
        Ok(divide_all(raw, ratios))
    }

    /// Get the current target position of the motor (in radians)
    fn get_target_position(&mut self) -> (r: Result<[T; N], MotorError>)
        ensures
            positions_read(*old(self), Register::TargetPosition, *final(self), r),
    {
        let raw = self.get_raw_target_position()?;
        let offsets = self.get_offset();
        let ratios = self.get_reduction_ratio();
        Ok(calibrate_positions(raw, ratios, offsets))
    }

    /// Set the current target position of the motor (in radians)
    fn set_target_position(&mut self, position: [T; N]) -> (r: Result<(), MotorError>)
        ensures
            positions_written(*old(self), position, *final(self), r),
    {
        let offsets = self.get_offset();
        let ratios = self.get_reduction_ratio();
        let raw = calibrate_targets(position, offsets, ratios);
        self.set_raw_target_position(raw)
    }

    /// Get the velocity limit of the motor (in radians per second)
    fn get_velocity_limit(&mut self) -> (r: Result<[T; N], MotorError>)
        ensures
            scaled_values_read(*old(self), Register::VelocityLimit, *final(self), r),
    {
        let raw = self.get_raw_velocity_limit()?;
        let ratios = self.get_reduction_ratio();
        Ok(divide_all(raw, ratios))
    }

    /// Set the velocity limit of the motor (in radians per second)
    fn set_velocity_limit(&mut self, velocity: [T; N]) -> (r: Result<(), MotorError>)
        ensures
            scaled_values_written(*old(self), Register::VelocityLimit, velocity, *final(self), r),
    {
        let ratios = self.get_reduction_ratio();
        let raw = multiply_all(velocity, ratios);
        self.set_raw_velocity_limit(raw)
    }

    /// Get the torque limit of the motor (in Nm)
    fn get_torque_limit(&mut self) -> (r: Result<[T; N], MotorError>)
        ensures
            scaled_values_read(*old(self), Register::TorqueLimit, *final(self), r),
    {
        let raw = self.get_raw_torque_limit()?;
        let ratios = self.get_reduction_ratio();
        Ok(divide_all(raw, ratios))
    }

    /// Set the torque limit of the motor (in Nm)
    fn set_torque_limit(&mut self, torque: [T; N]) -> (r: Result<(), MotorError>)
        ensures
            scaled_values_written(*old(self), Register::TorqueLimit, torque, *final(self), r),
    {
        let ratios = self.get_reduction_ratio();
        let raw = multiply_all(torque, ratios);
        self.set_raw_torque_limit(raw)
    }
}

impl<
    T: Scalar,
    const N: usize,
    C: RawMultipleMotorsController<T, N>,
> MultipleMotorsController<T, N> for C {

}

/// Every controller took one step, in order, and announced nothing but a
/// value: `step(i, a, b, v)` says that controller `i` may go from `a` to `b`
/// and give `v`.
pub open spec fn all_read<C, V, const N: usize>(
    pre: Seq<C>,
    post: Seq<C>,
    step: spec_fn(int, C, C, V) -> bool,
    r: [V; N],
) -> bool {
    forall|i: int| 0 <= i < N ==> step(i, #[trigger] pre[i], post[i], r[i])
}

/// Controller `i` went from `a` to `b` and gave some value.
pub open spec fn succeeded<C, V>(
    step: spec_fn(int, C, C, Result<V, MotorError>) -> bool,
    i: int,
    a: C,
    b: C,
) -> bool {
    exists|v: V| #[trigger] step(i, a, b, Ok(v))
}

/// The controllers took one step each, in order, until one failed:
/// `step(i, a, b, x)` says that controller `i` may go from `a` to `b` with
/// result `x`.
///
/// Where `r` is `Ok`, every controller succeeded and `r` holds their values
/// by index. Where `r` is an error, it is the error of the first controller
/// that failed: those before it succeeded and have taken their step, those
/// after it were not touched.
pub open spec fn gathered<C, V, const N: usize>(
    pre: Seq<C>,
    post: Seq<C>,
    step: spec_fn(int, C, C, Result<V, MotorError>) -> bool,
    r: Result<[V; N], MotorError>,
) -> bool {
    match r {
        Ok(values) => forall|i: int|
            0 <= i < N ==> step(i, #[trigger] pre[i], post[i], Ok(values[i])),
        Err(e) => exists|k: int|
            {
                &&& 0 <= k < N
                &&& forall|i: int| 0 <= i < k ==> succeeded(step, i, #[trigger] pre[i], post[i])
                &&& #[trigger] step(k, pre[k], post[k], Err(e))
                &&& forall|i: int| k < i < N ==> #[trigger] post[i] == pre[i]
            },
    }
}

/// The controllers took one step each, in order, until one failed, and none
/// of them gives a value. See [`gathered`].
pub open spec fn scattered<C>(
    pre: Seq<C>,
    post: Seq<C>,
    step: spec_fn(int, C, C, Result<(), MotorError>) -> bool,
    r: Result<(), MotorError>,
) -> bool {
    match r {
        Ok(_) => forall|i: int| 0 <= i < pre.len() ==> step(i, #[trigger] pre[i], post[i], Ok(())),
        Err(e) => exists|k: int|
            {
                &&& 0 <= k < pre.len()
                &&& forall|i: int| 0 <= i < k ==> step(i, #[trigger] pre[i], post[i], Ok(()))
                &&& #[trigger] step(k, pre[k], post[k], Err(e))
                &&& forall|i: int| k < i < pre.len() ==> #[trigger] post[i] == pre[i]
            },
    }
}

/// The value that all of `readings` share, or the incoherent failure.
pub open spec fn agreed<const N: usize>(readings: [bool; N]) -> Result<bool, MotorError> {
    if N > 0 && forall|i: int| 0 <= i < N ==> #[trigger] readings[i] == readings[0] {
        Ok(readings[0])
    } else {
        Err(MotorError::Incoherent)
    }
}

/// The step of controller `i` in a read of `register`.
pub open spec fn raw_read_step<T: Scalar, C: RawMotorController<T>>(register: Register) -> spec_fn(
    int,
    C,
    C,
    Result<T, MotorError>,
) -> bool {
    |i: int, a: C, b: C, x: Result<T, MotorError>| C::raw_read(a, register, b, x)
}

/// The step of controller `i` in a write of `values` to `register`: it
/// gets the value of its own index.
pub open spec fn raw_written_step<T: Scalar, C: RawMotorController<T>, const N: usize>(
    register: Register,
    values: [T; N],
) -> spec_fn(int, C, C, Result<(), MotorError>) -> bool {
    |i: int, a: C, b: C, x: Result<(), MotorError>| C::raw_written(a, register, values[i], b, x)
}

/// The step of controller `i` in a read of the torque switch.
pub open spec fn torque_read_step<T: Scalar, C: RawMotorController<T>>() -> spec_fn(
    int,
    C,
    C,
    Result<bool, MotorError>,
) -> bool {
    |i: int, a: C, b: C, x: Result<bool, MotorError>| C::torque_read(a, b, x)
}

/// The step of controller `i` when the torque is switched to `on`.
pub open spec fn torque_written_step<T: Scalar, C: RawMotorController<T>>(on: bool) -> spec_fn(
    int,
    C,
    C,
    Result<(), MotorError>,
) -> bool {
    |i: int, a: C, b: C, x: Result<(), MotorError>| C::torque_written(a, on, b, x)
}

/// The step of controller `i` in a read of the gains.
pub open spec fn pid_read_step<T: Scalar, C: RawMotorController<T>>() -> spec_fn(
    int,
    C,
    C,
    Result<PID<T>, MotorError>,
) -> bool {
    |i: int, a: C, b: C, x: Result<PID<T>, MotorError>| C::pid_read(a, b, x)
}

/// The step of controller `i` in a write of the gains `pid`: it gets the
/// gains of its own index.
pub open spec fn pid_written_step<T: Scalar, C: RawMotorController<T>, const N: usize>(
    pid: [PID<T>; N],
) -> spec_fn(int, C, C, Result<(), MotorError>) -> bool {
    |i: int, a: C, b: C, x: Result<(), MotorError>| C::pid_written(a, pid[i], b, x)
}

/// The step of controller `i` in a read of the offsets.
pub open spec fn offset_step<T: Scalar, C: RawMotorController<T>>() -> spec_fn(
    int,
    C,
    C,
    T,
) -> bool {
    |i: int, a: C, b: C, v: T| C::offset_read(a, b, v)
}

/// The step of controller `i` in a read of the reduction ratios.
pub open spec fn reduction_ratio_step<T: Scalar, C: RawMotorController<T>>() -> spec_fn(
    int,
    C,
    C,
    T,
) -> bool {
    |i: int, a: C, b: C, v: T| C::reduction_ratio_read(a, b, v)
}

/// All controllers were asked for the state of their torque switch, in
/// order, and `r` is the state they agree on. A controller that fails ends
/// the operation with its error; controllers that disagree, or a group
/// without controllers, give the incoherent failure.
pub open spec fn torque_coherently_read<T: Scalar, C: RawMotorController<T>, const N: usize>(
    pre: Seq<C>,
    post: Seq<C>,
    r: Result<bool, MotorError>,
) -> bool {
    exists|readings: Result<[bool; N], MotorError>| #[trigger]
        gathered(pre, post, torque_read_step::<T, C>(), readings) && r == match readings {
            Ok(values) => agreed(values),
            Err(e) => Err(e),
        }
}

/// `N` single-axis controllers as one group.
///
/// Every operation visits the controllers in the order of the array. The
/// first failure ends the operation and is returned as it is; what the
/// controllers before it have done stays done.
#[derive(Debug)]
pub struct MultipleMotorsControllerWrapper<C, const N: usize> {
    controllers: [C; N],
}

impl<C, const N: usize> View for MultipleMotorsControllerWrapper<C, N> {
    type V = Seq<C>;

    closed spec fn view(&self) -> Seq<C> {
        self.controllers@
    }
}

/// A single axis has `register`: it has neither axis sensors nor a target
/// torque or velocity.
pub open spec fn is_axis_register(register: Register) -> bool {
    !(register is AxisSensors || register is TargetTorque || register is TargetVelocity)
}

/// Reads `register` of one axis.
fn read_raw<T: Scalar, C: RawMotorController<T>>(controller: &mut C, register: Register) -> (r:
    Result<T, MotorError>)
    requires
        is_axis_register(register),
    ensures
        C::raw_read(*old(controller), register, *final(controller), r),
{
    match register {
        Register::CurrentPosition => controller.get_raw_position(),
        Register::CurrentVelocity => controller.get_raw_velocity(),
        Register::CurrentTorque => controller.get_raw_torque(),
        Register::TargetPosition => controller.get_raw_target_position(),
        Register::VelocityLimit => controller.get_raw_velocity_limit(),
        _ => controller.get_raw_torque_limit(),
    }
}

/// Writes `value` to `register` of one axis.
fn write_raw<T: Scalar, C: RawMotorController<T>>(
    controller: &mut C,
    register: Register,
    value: T,
) -> (r: Result<(), MotorError>)
    requires
        register is TargetPosition || register is VelocityLimit || register is TorqueLimit,
    ensures
        C::raw_written(*old(controller), register, value, *final(controller), r),
{
    match register {
        Register::TargetPosition => controller.set_raw_target_position(value),
        Register::VelocityLimit => controller.set_raw_velocity_limit(value),
        _ => controller.set_raw_torque_limit(value),
    }
}

impl<C, const N: usize> MultipleMotorsControllerWrapper<C, N> {
    /// The group of these controllers, in this order.
    pub fn new(controllers: [C; N]) -> (r: Self)
        ensures
            r@ == controllers@,
    {
        Self { controllers }
    }

    /// The group holds `N` controllers.
    pub broadcast proof fn lemma_len(self)
        ensures
            #[trigger] self@.len() == N,
    {
    }

    /// Reads `register` of every axis, in order, up to the first failure.
    fn gather<T: Scalar>(&mut self, register: Register) -> (r: Result<[T; N], MotorError>) where
        C: RawMotorController<T>,

        requires
            is_axis_register(register),
        ensures
            gathered(old(self)@, final(self)@, raw_read_step::<T, C>(register), r),
    {
        let ghost step = raw_read_step::<T, C>(register);
        let mut values = [T::zero();N];
        let mut i: usize = 0;
        while i < N
            invariant
                i <= N,
                step == raw_read_step::<T, C>(register),
                is_axis_register(register),
                forall|j: int|
                    0 <= j < i ==> step(j, #[trigger] old(self)@[j], self@[j], Ok(values[j])),
                forall|j: int| i <= j < N ==> #[trigger] self@[j] == old(self)@[j],
            decreases N - i,
        {
            let ghost before = self@;
            let x = read_raw(&mut self.controllers[i], register);
            assert(forall|j: int| 0 <= j < N && j != i ==> self@[j] == before[j]);
            assert(step(i as int, before[i as int], self@[i as int], x));
            match x {
                Ok(value) => {
                    values[i] = value;
                },
                Err(e) => {
                    return Err(e);
                },
            }
            i += 1;
        }
        Ok(values)
    }

    /// Writes `values` to `register`, axis by axis, in order, up to the
    /// first failure.
    fn scatter<T: Scalar>(&mut self, register: Register, values: [T; N]) -> (r: Result<
        (),
        MotorError,
    >) where C: RawMotorController<T>
        requires
            register is TargetPosition || register is VelocityLimit || register is TorqueLimit,
        ensures
            scattered(old(self)@, final(self)@, raw_written_step::<T, C, N>(register, values), r),
    {
        let ghost step = raw_written_step::<T, C, N>(register, values);
        let mut i: usize = 0;
        while i < N
            invariant
                i <= N,
                step == raw_written_step::<T, C, N>(register, values),
                register is TargetPosition || register is VelocityLimit || register is TorqueLimit,
                forall|j: int| 0 <= j < i ==> step(j, #[trigger] old(self)@[j], self@[j], Ok(())),
                forall|j: int| i <= j < N ==> #[trigger] self@[j] == old(self)@[j],
            decreases N - i,
        {
            let ghost before = self@;
            let x = write_raw(&mut self.controllers[i], register, values[i]);
            assert(forall|j: int| 0 <= j < N && j != i ==> self@[j] == before[j]);
            assert(step(i as int, before[i as int], self@[i as int], x));
            match x {
                Ok(done) => {
                    assert(done == ());
                },
                Err(e) => {
                    return Err(e);
                },
            }
            i += 1;
        }
        Ok(())
    }

    /// Reads the gains of every axis, in order, up to the first failure.
    fn gather_pid<T: Scalar>(&mut self) -> (r: Result<[PID<T>; N], MotorError>) where
        C: RawMotorController<T>,

        ensures
            gathered(old(self)@, final(self)@, pid_read_step::<T, C>(), r),
    {
        let ghost step = pid_read_step::<T, C>();
        let zero = T::zero();
        let mut values = [PID { p: zero, i: zero, d: zero };N];
        let mut i: usize = 0;
        while i < N
            invariant
                i <= N,
                step == pid_read_step::<T, C>(),
                forall|j: int|
                    0 <= j < i ==> step(j, #[trigger] old(self)@[j], self@[j], Ok(values[j])),
                forall|j: int| i <= j < N ==> #[trigger] self@[j] == old(self)@[j],
            decreases N - i,
        {
            let ghost before = self@;
            let x = self.controllers[i].get_pid_gains();
            assert(forall|j: int| 0 <= j < N && j != i ==> self@[j] == before[j]);
            assert(step(i as int, before[i as int], self@[i as int], x));
            match x {
                Ok(value) => {
                    values[i] = value;
                },
                Err(e) => {
                    return Err(e);
                },
            }
            i += 1;
        }
        Ok(values)
    }

    /// Writes the gains `pid`, axis by axis, in order, up to the first
    /// failure.
    fn scatter_pid<T: Scalar>(&mut self, pid: [PID<T>; N]) -> (r: Result<(), MotorError>) where
        C: RawMotorController<T>,

        ensures
            scattered(old(self)@, final(self)@, pid_written_step::<T, C, N>(pid), r),
    {
        let ghost step = pid_written_step::<T, C, N>(pid);
        let mut i: usize = 0;
        while i < N
            invariant
                i <= N,
                step == pid_written_step::<T, C, N>(pid),
                forall|j: int| 0 <= j < i ==> step(j, #[trigger] old(self)@[j], self@[j], Ok(())),
                forall|j: int| i <= j < N ==> #[trigger] self@[j] == old(self)@[j],
            decreases N - i,
        {
            let ghost before = self@;
            let x = self.controllers[i].set_pid_gains(pid[i]);
            assert(forall|j: int| 0 <= j < N && j != i ==> self@[j] == before[j]);
            assert(step(i as int, before[i as int], self@[i as int], x));
            match x {
                Ok(done) => {
                    assert(done == ());
                },
                Err(e) => {
                    return Err(e);
                },
            }
            i += 1;
        }
        Ok(())
    }

    /// Switches the torque of every axis to `on`, in order, up to the first
    /// failure.
    fn scatter_torque<T: Scalar>(&mut self, on: bool) -> (r: Result<(), MotorError>) where
        C: RawMotorController<T>,

        ensures
            scattered(old(self)@, final(self)@, torque_written_step::<T, C>(on), r),
    {
        let ghost step = torque_written_step::<T, C>(on);
        let mut i: usize = 0;
        while i < N
            invariant
                i <= N,
                step == torque_written_step::<T, C>(on),
                forall|j: int| 0 <= j < i ==> step(j, #[trigger] old(self)@[j], self@[j], Ok(())),
                forall|j: int| i <= j < N ==> #[trigger] self@[j] == old(self)@[j],
            decreases N - i,
        {
            let ghost before = self@;
            let x = self.controllers[i].set_torque(on);
            assert(forall|j: int| 0 <= j < N && j != i ==> self@[j] == before[j]);
            assert(step(i as int, before[i as int], self@[i as int], x));
            match x {
                Ok(done) => {
                    assert(done == ());
                },
                Err(e) => {
                    return Err(e);
                },
            }
            i += 1;
        }
        Ok(())
    }

    /// Reads the torque switch of every axis, in order, up to the first
    /// failure.
    fn gather_torque<T: Scalar>(&mut self) -> (r: Result<[bool; N], MotorError>) where
        C: RawMotorController<T>,

        ensures
            gathered(old(self)@, final(self)@, torque_read_step::<T, C>(), r),
    {
        let ghost step = torque_read_step::<T, C>();
        let mut values = [false;N];
        let mut i: usize = 0;
        while i < N
            invariant
                i <= N,
                step == torque_read_step::<T, C>(),
                forall|j: int|
                    0 <= j < i ==> step(j, #[trigger] old(self)@[j], self@[j], Ok(values[j])),
                forall|j: int| i <= j < N ==> #[trigger] self@[j] == old(self)@[j],
            decreases N - i,
        {
            let ghost before = self@;
            let x = self.controllers[i].is_torque_on();
            assert(forall|j: int| 0 <= j < N && j != i ==> self@[j] == before[j]);
            assert(step(i as int, before[i as int], self@[i as int], x));
            match x {
                Ok(value) => {
                    values[i] = value;
                },
                Err(e) => {
                    return Err(e);
                },
            }
            i += 1;
        }
        Ok(values)
    }

    /// Reads the offset of every axis, in order.
    fn gather_offsets<T: Scalar>(&mut self) -> (r: [T; N]) where C: RawMotorController<T>
        ensures
            all_read(old(self)@, final(self)@, offset_step::<T, C>(), r),
    {
        let ghost step = offset_step::<T, C>();
        let mut values = [T::zero();N];
        let mut i: usize = 0;
        while i < N
            invariant
                i <= N,
                step == offset_step::<T, C>(),
                forall|j: int| 0 <= j < i ==> step(j, #[trigger] old(self)@[j], self@[j], values[j]),
                forall|j: int| i <= j < N ==> #[trigger] self@[j] == old(self)@[j],
            decreases N - i,
        {
            let ghost before = self@;
            let value = self.controllers[i].get_offset();
            assert(forall|j: int| 0 <= j < N && j != i ==> self@[j] == before[j]);
            assert(step(i as int, before[i as int], self@[i as int], value));
            values[i] = value;
            i += 1;
        }
        values
    }

    /// Reads the reduction ratio of every axis, in order.
    fn gather_reduction_ratios<T: Scalar>(&mut self) -> (r: [T; N]) where C: RawMotorController<T>
        ensures
            all_read(old(self)@, final(self)@, reduction_ratio_step::<T, C>(), r),
    {
        let ghost step = reduction_ratio_step::<T, C>();
        let mut values = [T::zero();N];
        let mut i: usize = 0;
        while i < N
            invariant
                i <= N,
                step == reduction_ratio_step::<T, C>(),
                forall|j: int| 0 <= j < i ==> step(j, #[trigger] old(self)@[j], self@[j], values[j]),
                forall|j: int| i <= j < N ==> #[trigger] self@[j] == old(self)@[j],
            decreases N - i,
        {
            let ghost before = self@;
            let value = self.controllers[i].get_reduction_ratio();
            assert(forall|j: int| 0 <= j < N && j != i ==> self@[j] == before[j]);
            assert(step(i as int, before[i as int], self@[i as int], value));
            values[i] = value;
            i += 1;
        }
        values
    }
}

/// The one state on which the torque switches agree.
pub fn agree<const N: usize>(readings: [bool; N]) -> (r: Result<bool, MotorError>)
    ensures
        r == agreed(readings),
{
    let mut results: Vec<Result<bool, MotorError>> = Vec::new();
    let mut i: usize = 0;
    while i < N
        invariant
            i <= N,
            results@.len() == i,
            forall|j: int| 0 <= j < i ==> #[trigger] results@[j] == Ok::<bool, MotorError>(readings[j]),
        decreases N - i,
    {
        results.push(Ok(readings[i]));
        i += 1;
    }
    let r = results.coherent();
    proof {
        if N > 0 && !(forall|i: int| 0 <= i < N ==> #[trigger] readings[i] == readings[0]) {
            let k = choose|k: int| 0 <= k < N && #[trigger] readings[k] != readings[0];
            assert(results@[k] == Ok::<bool, MotorError>(readings[k]));
        }
    }
    r
}

impl<T: Scalar, C: RawMotorController<T>, const N: usize> RawMultipleMotorsController<
    T,
    N,
> for MultipleMotorsControllerWrapper<C, N> {
    open spec fn offset_read(pre: Self, post: Self, r: [T; N]) -> bool {
        all_read(pre@, post@, offset_step::<T, C>(), r)
    }

    open spec fn reduction_ratio_read(pre: Self, post: Self, r: [T; N]) -> bool {
        all_read(pre@, post@, reduction_ratio_step::<T, C>(), r)
    }

    open spec fn torque_read(pre: Self, post: Self, r: Result<bool, MotorError>) -> bool {
        torque_coherently_read::<T, C, N>(pre@, post@, r)
    }

    open spec fn torque_written(pre: Self, on: bool, post: Self, r: Result<(), MotorError>) -> bool {
        scattered(pre@, post@, torque_written_step::<T, C>(on), r)
    }

    open spec fn raw_read(
        pre: Self,
        register: Register,
        post: Self,
        r: Result<[T; N], MotorError>,
    ) -> bool {
        gathered(pre@, post@, raw_read_step::<T, C>(register), r)
    }

    open spec fn raw_written(
        pre: Self,
        register: Register,
        values: [T; N],
        post: Self,
        r: Result<(), MotorError>,
    ) -> bool {
        scattered(pre@, post@, raw_written_step::<T, C, N>(register, values), r)
    }

    open spec fn pid_read(pre: Self, post: Self, r: Result<[PID<T>; N], MotorError>) -> bool {
        gathered(pre@, post@, pid_read_step::<T, C>(), r)
    }

    open spec fn pid_written(pre: Self, pid: [PID<T>; N], post: Self, r: Result<(), MotorError>) -> bool {
        scattered(pre@, post@, pid_written_step::<T, C, N>(pid), r)
    }

    fn name(&self) -> (r: String)
        ensures
            r@ == "MultipleMotorsController"@,
    {
        "MultipleMotorsController".to_owned()
    }

    fn get_offset(&mut self) -> (r: [T; N]) {
        self.gather_offsets()
    }

    fn get_reduction_ratio(&mut self) -> (r: [T; N]) {
        self.gather_reduction_ratios()
    }

    fn is_torque_on(&mut self) -> (r: Result<bool, MotorError>) {
        let readings = self.gather_torque::<T>();
        match readings {
            Ok(values) => agree(values),
            Err(e) => Err(e),
        }
    }

    fn set_torque(&mut self, on: bool) -> (r: Result<(), MotorError>) {
        self.scatter_torque::<T>(on)
    }

    fn get_raw_position(&mut self) -> (r: Result<[T; N], MotorError>) {
        self.gather(Register::CurrentPosition)
    }

    fn get_raw_velocity(&mut self) -> (r: Result<[T; N], MotorError>) {
        self.gather(Register::CurrentVelocity)
    }

    fn get_raw_torque(&mut self) -> (r: Result<[T; N], MotorError>) {
        self.gather(Register::CurrentTorque)
    }

    fn get_raw_target_position(&mut self) -> (r: Result<[T; N], MotorError>) {
        self.gather(Register::TargetPosition)
    }

    fn set_raw_target_position(&mut self, position: [T; N]) -> (r: Result<(), MotorError>) {
        self.scatter(Register::TargetPosition, position)
    }

    fn get_raw_velocity_limit(&mut self) -> (r: Result<[T; N], MotorError>) {
        self.gather(Register::VelocityLimit)
    }

    fn set_raw_velocity_limit(&mut self, velocity: [T; N]) -> (r: Result<(), MotorError>) {
        self.scatter(Register::VelocityLimit, velocity)
    }

    fn get_raw_torque_limit(&mut self) -> (r: Result<[T; N], MotorError>) {
        self.gather(Register::TorqueLimit)
    }

    fn set_raw_torque_limit(&mut self, torque: [T; N]) -> (r: Result<(), MotorError>) {
        self.scatter(Register::TorqueLimit, torque)
    }

    fn get_pid_gains(&mut self) -> (r: Result<[PID<T>; N], MotorError>) {
        self.gather_pid()
    }

    fn set_pid_gains(&mut self, pid: [PID<T>; N]) -> (r: Result<(), MotorError>) {
        self.scatter_pid(pid)
    }
}

/// Partial failure of a fan-out. Where switching the torque of a group
/// fails, one controller failed with that error; every controller before
/// it has switched its torque and keeps it switched, and no controller
/// after it was touched.
pub proof fn lemma_partial_failure<T: Scalar, C: RawMotorController<T>, const N: usize>(
    pre: MultipleMotorsControllerWrapper<C, N>,
    on: bool,
    post: MultipleMotorsControllerWrapper<C, N>,
    e: MotorError,
)
    requires
        <MultipleMotorsControllerWrapper<C, N> as RawMultipleMotorsController<
            T,
            N,
        >>::torque_written(pre, on, post, Err(e)),
    ensures
        exists|k: int|
            {
                &&& 0 <= k < N
                &&& #[trigger] C::torque_written(pre@[k], on, post@[k], Err(e))
                &&& forall|i: int|
                    0 <= i < k ==> C::torque_written(#[trigger] pre@[i], on, post@[i], Ok(()))
                &&& forall|i: int| k < i < N ==> #[trigger] post@[i] == pre@[i]
            },
{
}

/// Success of a fan-out. Where switching the torque of a group succeeds,
/// every controller has switched its torque.
pub proof fn lemma_full_success<T: Scalar, C: RawMotorController<T>, const N: usize>(
    pre: MultipleMotorsControllerWrapper<C, N>,
    on: bool,
    post: MultipleMotorsControllerWrapper<C, N>,
)
    requires
        <MultipleMotorsControllerWrapper<C, N> as RawMultipleMotorsController<
            T,
            N,
        >>::torque_written(pre, on, post, Ok(())),
    ensures
        forall|i: int| 0 <= i < N ==> C::torque_written(#[trigger] pre@[i], on, post@[i], Ok(())),
{
}

} // verus!
