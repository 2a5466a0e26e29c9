//! One axis: its raw registers, and physical-unit operations over them.
use crate::calibration::{is_physical_position, is_raw_position, is_scaled_down, is_scaled_up};
use crate::calibration::{scale_down, scale_up, to_physical_position, to_raw_position};
use crate::error::MotorError;
use crate::motors_io::Register;
use crate::pid::PID;
use crate::scalar::Scalar;
use vstd::prelude::*;

verus! {

/// The registers of one axis, in the device's own units, with the offset
/// and the reduction ratio that calibrate it.
///
/// As for a raw interface of several axes, each operation is specified by a
/// relation that the implementation chooses, between the state before, the
/// arguments, the state after and the result.
pub trait RawMotorController<T: Scalar>: Sized {
    /// `get_offset` may take the axis from `pre` to `post` and return `r`.
    spec fn offset_read(pre: Self, post: Self, r: T) -> bool;

    /// `get_reduction_ratio` may take the axis from `pre` to `post` and
    /// return `r`.
    spec fn reduction_ratio_read(pre: Self, post: Self, r: T) -> bool;

    /// `is_torque_on` may take the axis from `pre` to `post` and return `r`.
    spec fn torque_read(pre: Self, post: Self, r: Result<bool, MotorError>) -> bool;

    /// `set_torque(on)` may take the axis from `pre` to `post` and return `r`.
    spec fn torque_written(pre: Self, on: bool, post: Self, r: Result<(), MotorError>) -> bool;

    /// Reading `register` may take the axis from `pre` to `post` and return
    /// `r`.
    spec fn raw_read(pre: Self, register: Register, post: Self, r: Result<T, MotorError>) -> bool;

    /// Writing `value` to `register` may take the axis from `pre` to `post`
    /// and return `r`.
    spec fn raw_written(
        pre: Self,
        register: Register,
        value: T,
        post: Self,
        r: Result<(), MotorError>,
    ) -> bool;

    /// `get_pid_gains` may take the axis from `pre` to `post` and return `r`.
    spec fn pid_read(pre: Self, post: Self, r: Result<PID<T>, MotorError>) -> bool;

    /// `set_pid_gains(pid)` may take the axis from `pre` to `post` and
    /// return `r`.
    spec fn pid_written(pre: Self, pid: PID<T>, post: Self, r: Result<(), MotorError>) -> bool;

    /// Name of the controller (used for Debug trait)
    fn name(&self) -> String;

    /// Get motor offset (in radians)
    fn get_offset(&mut self) -> (r: T)
        ensures
            Self::offset_read(*old(self), *final(self), r),
    ;

    /// Get motor reduction ratio
    fn get_reduction_ratio(&mut self) -> (r: T)
        ensures
            Self::reduction_ratio_read(*old(self), *final(self), r),
    ;

    /// Check if the motor is ON or OFF
    fn is_torque_on(&mut self) -> (r: Result<bool, MotorError>)
        ensures
            Self::torque_read(*old(self), *final(self), r),
    ;

    /// Enable/Disable the torque
    fn set_torque(&mut self, on: bool) -> (r: Result<(), MotorError>)
        ensures
            Self::torque_written(*old(self), on, *final(self), r),
    ;

    /// Get the motor raw position (in radians)
    /// ie. without offset and reduction ratio
    fn get_raw_position(&mut self) -> (r: Result<T, MotorError>)
        ensures
            Self::raw_read(*old(self), Register::CurrentPosition, *final(self), r),
    ;

    /// Get the motor raw velocity (in radians per second)
    /// ie. without reduction ratio
    fn get_raw_velocity(&mut self) -> (r: Result<T, MotorError>)
        ensures
            Self::raw_read(*old(self), Register::CurrentVelocity, *final(self), r),
    ;

    /// Get the motor raw torque (in Nm)
    /// ie. without reduction ratio
    fn get_raw_torque(&mut self) -> (r: Result<T, MotorError>)
        ensures
            Self::raw_read(*old(self), Register::CurrentTorque, *final(self), r),
    ;

    /// Get raw target position of the motor (in radians)
    /// ie. without offset and reduction ratio
    fn get_raw_target_position(&mut self) -> (r: Result<T, MotorError>)
        ensures
            Self::raw_read(*old(self), Register::TargetPosition, *final(self), r),
    ;

    /// Set raw target position of the motor (in radians)
    /// ie. without offset and reduction ratio
    fn set_raw_target_position(&mut self, position: T) -> (r: Result<(), MotorError>)
        ensures
            Self::raw_written(*old(self), Register::TargetPosition, position, *final(self), r),
    ;

    /// Get raw velocity limit of the motor (in radians per second)
    /// ie. without reduction ratio
    fn get_raw_velocity_limit(&mut self) -> (r: Result<T, MotorError>)
        ensures
            Self::raw_read(*old(self), Register::VelocityLimit, *final(self), r),
    ;

    /// Set raw velocity limit of the motor (in radians per second)
    /// ie. without reduction ratio
    fn set_raw_velocity_limit(&mut self, velocity: T) -> (r: Result<(), MotorError>)
        ensures
            Self::raw_written(*old(self), Register::VelocityLimit, velocity, *final(self), r),
    ;

    /// Get raw torque limit of the motor (in Nm)
    /// ie. without reduction ratio
    fn get_raw_torque_limit(&mut self) -> (r: Result<T, MotorError>)
        ensures
            Self::raw_read(*old(self), Register::TorqueLimit, *final(self), r),
    ;

    /// Set raw torque limit of the motor (in Nm)
    /// ie. without reduction ratio
    fn set_raw_torque_limit(&mut self, torque: T) -> (r: Result<(), MotorError>)
        ensures
            Self::raw_written(*old(self), Register::TorqueLimit, torque, *final(self), r),
    ;

    /// Get the current PID gains of the motor
    fn get_pid_gains(&mut self) -> (r: Result<PID<T>, MotorError>)
        ensures
            Self::pid_read(*old(self), *final(self), r),
    ;

    /// Set the current PID gains of the motor
    fn set_pid_gains(&mut self, pid: PID<T>) -> (r: Result<(), MotorError>)
        ensures
            Self::pid_written(*old(self), pid, *final(self), r),
    ;
}

/// The position register `register` was read, then the reduction ratio,
/// then the offset, and `r` is the reading in physical units; or the read
/// failed, nothing else was done, and `r` is its error.
pub open spec fn position_read<T: Scalar, C: RawMotorController<T>>(
    pre: C,
    register: Register,
    post: C,
    r: Result<T, MotorError>,
) -> bool {
    exists|read: C, raw: Result<T, MotorError>| #[trigger]
        C::raw_read(pre, register, read, raw) && match raw {
            Ok(value) => exists|scaled: C, ratio: T, offset: T|
                {
                    &&& #[trigger] C::reduction_ratio_read(read, scaled, ratio)
                    &&& #[trigger] C::offset_read(scaled, post, offset)
                    &&& r is Ok
                    &&& is_physical_position(value, Some(ratio), Some(offset), r->Ok_0)
                },
            Err(e) => post == read && r == Err::<T, MotorError>(e),
        }
}

/// `register` was read, then the reduction ratio, and `r` is the reading
/// divided by the ratio; or the read failed, nothing else was done, and `r`
/// is its error.
pub open spec fn scaled_read<T: Scalar, C: RawMotorController<T>>(
    pre: C,
    register: Register,
    post: C,
    r: Result<T, MotorError>,
) -> bool {
    exists|read: C, raw: Result<T, MotorError>| #[trigger]
        C::raw_read(pre, register, read, raw) && match raw {
            Ok(value) => exists|ratio: T|
                {
                    &&& #[trigger] C::reduction_ratio_read(read, post, ratio)
                    &&& r is Ok
                    &&& is_scaled_down(value, Some(ratio), r->Ok_0)
                },
            Err(e) => post == read && r == Err::<T, MotorError>(e),
        }
}

/// The reduction ratio was read, then the offset, and then `position` was
/// written to the target register in raw units, with result `r`.
pub open spec fn position_written<T: Scalar, C: RawMotorController<T>>(
    pre: C,
    position: T,
    post: C,
    r: Result<(), MotorError>,
) -> bool {
    exists|scaled: C, ratio: T, shifted: C, offset: T, raw: T|
        {
            &&& #[trigger] C::reduction_ratio_read(pre, scaled, ratio)
            &&& #[trigger] C::offset_read(scaled, shifted, offset)
            &&& is_raw_position(position, None, Some(offset), Some(ratio), raw)
            &&& #[trigger] C::raw_written(shifted, Register::TargetPosition, raw, post, r)
        }
}

/// The reduction ratio was read, and then `value` times the ratio was
/// written to `register`, with result `r`.
pub open spec fn scaled_written<T: Scalar, C: RawMotorController<T>>(
    pre: C,
    register: Register,
    value: T,
    post: C,
    r: Result<(), MotorError>,
) -> bool {
    exists|scaled: C, ratio: T, raw: T|
        {
            &&& #[trigger] C::reduction_ratio_read(pre, scaled, ratio)
            &&& is_scaled_up(value, Some(ratio), raw)
            &&& #[trigger] C::raw_written(scaled, register, raw, post, r)
        }
}

/// The target was set to the current position, if `reset_target` asks for
/// it, and then the torque was switched on. The first step that failed was
/// the last, and `r` is its error.
pub open spec fn torque_enabled<T: Scalar, C: RawMotorController<T>>(
    pre: C,
    reset_target: bool,
    post: C,
    r: Result<(), MotorError>,
) -> bool {
    if reset_target {
        exists|read: C, position: Result<T, MotorError>| #[trigger]
            position_read(pre, Register::CurrentPosition, read, position) && match position {
                Ok(p) => exists|written: C, w: Result<(), MotorError>| #[trigger]
                    position_written(read, p, written, w) && if w is Ok {
                        C::torque_written(written, true, post, r)
                    } else {
                        post == written && r == w
                    },
                Err(e) => post == read && r == Err::<(), MotorError>(e),
            }
    } else {
        C::torque_written(pre, true, post, r)
    }
}

/// Low level motor controller interface: one axis in physical units
/// (radians, radians per second, newton-metres).
///
/// Every axis that offers its raw registers is such a controller.
pub trait MotorController<T: Scalar>: RawMotorController<T> {
    /// Enable the torque
    ///
    /// # Arguments
    /// * `reset_target` - If true, reset the target position to the current position
    fn enable_torque(&mut self, reset_target: bool) -> (r: Result<(), MotorError>)
        ensures
            torque_enabled(*old(self), reset_target, *final(self), r),
    {
        if reset_target {
            let position = self.get_current_position()?;
            self.set_target_position(position)?;
        }
        self.set_torque(true)
    }

    /// Disable the torque
    fn disable_torque(&mut self) -> (r: Result<(), MotorError>)
        ensures
            Self::torque_written(*old(self), false, *final(self), r),
    {
        self.set_torque(false)
    }

    /// Get the current position of the motor (in radians)
    fn get_current_position(&mut self) -> (r: Result<T, MotorError>)
        ensures
            position_read(*old(self), Register::CurrentPosition, *final(self), r),
    {
        let raw = self.get_raw_position()?;
        let ratio = self.get_reduction_ratio();
        let offset = self.get_offset();
        Ok(to_physical_position(raw, Some(ratio), Some(offset)))
    }

    /// Get the current velocity of the motor (in radians per second)
    fn get_current_velocity(&mut self) -> (r: Result<T, MotorError>)
        ensures
            scaled_read(*old(self), Register::CurrentVelocity, *final(self), r),
    {
        let raw = self.get_raw_velocity()?;
        let ratio = self.get_reduction_ratio();
        Ok(scale_down(raw, Some(ratio)))
    }

    /// Get the current torque of the motor (in Nm)
    fn get_current_torque(&mut self) -> (r: Result<T, MotorError>)
        ensures
            scaled_read(*old(self), Register::CurrentTorque, *final(self), r),
    {
        let raw = self.get_raw_torque()?;
        let ratio = self.get_reduction_ratio();
        Ok(scale_down(raw, Some(ratio)))
    }

    /// Get the current target position of the motor (in radians)
    fn get_target_position(&mut self) -> (r: Result<T, MotorError>)
        ensures
            position_read(*old(self), Register::TargetPosition, *final(self), r),
    {
        let raw = self.get_raw_target_position()?;
        let ratio = self.get_reduction_ratio();
        let offset = self.get_offset();
        Ok(to_physical_position(raw, Some(ratio), Some(offset)))
    }

    /// Set the current target position of the motor (in radians)
    fn set_target_position(&mut self, position: T) -> (r: Result<(), MotorError>)
        ensures
            position_written(*old(self), position, *final(self), r),
    {
        let ratio = self.get_reduction_ratio();
        let offset = self.get_offset();
        let raw = to_raw_position(position, None, Some(offset), Some(ratio));
        self.set_raw_target_position(raw)
    }

    /// Get the velocity limit of the motor (in radians per second)
    fn get_velocity_limit(&mut self) -> (r: Result<T, MotorError>)
        ensures
            scaled_read(*old(self), Register::VelocityLimit, *final(self), r),
    {
        let raw = self.get_raw_velocity_limit()?;
        let ratio = self.get_reduction_ratio();
        Ok(scale_down(raw, Some(ratio)))
    }

    /// Set the velocity limit of the motor (in radians per second)
    fn set_velocity_limit(&mut self, velocity: T) -> (r: Result<(), MotorError>)
        ensures
            scaled_written(*old(self), Register::VelocityLimit, velocity, *final(self), r),
    {
        let ratio = self.get_reduction_ratio();
        let raw = scale_up(velocity, Some(ratio));
        self.set_raw_velocity_limit(raw)
    }

    /// Get the torque limit of the motor (in Nm)
    fn get_torque_limit(&mut self) -> (r: Result<T, MotorError>)
        ensures
            scaled_read(*old(self), Register::TorqueLimit, *final(self), r),
    {
        let raw = self.get_raw_torque_limit()?;
        let ratio = self.get_reduction_ratio();
        Ok(scale_down(raw, Some(ratio)))
    }

    /// Set the torque limit of the motor (in Nm)
    fn set_torque_limit(&mut self, torque: T) -> (r: Result<(), MotorError>)
        ensures
            scaled_written(*old(self), Register::TorqueLimit, torque, *final(self), r),
    {
        let ratio = self.get_reduction_ratio();
        let raw = scale_up(torque, Some(ratio));
        self.set_raw_torque_limit(raw)
    }
}

impl<T: Scalar, C: RawMotorController<T>> MotorController<T> for C {

}

} // verus!
