//! Physical-unit operations over the raw registers of several axes.
use crate::calibration::{
    Calibration,
    are_physical_positions,
    are_raw_positions,
    are_scaled_down,
    are_scaled_up,
    scale_down_all,
    scale_up_all,
    to_physical_positions,
    to_raw_positions,
};
use crate::error::MotorError;
use crate::limit::Limit;
use crate::motors_io::{uniform, RawMotorsIO, Register};
use crate::pid::PID;
use crate::scalar::Scalar;
use vstd::prelude::*;

verus! {

/// `r` is the raw result `raw` in physical units: an error unchanged,
/// positions converted axis by axis.
pub open spec fn is_physical_result<T: Scalar, const N: usize>(
    raw: Result<[T; N], MotorError>,
    reductions: [Option<T>; N],
    offsets: [Option<T>; N],
    r: Result<[T; N], MotorError>,
) -> bool {
    match raw {
        Ok(values) => r is Ok && are_physical_positions(values, reductions, offsets, r->Ok_0),
        Err(e) => r == Err::<[T; N], MotorError>(e),
    }
}

/// `r` is the raw result `raw` divided by the reduction ratios: an error
/// unchanged, values scaled axis by axis.
pub open spec fn is_scaled_result<T: Scalar, const N: usize>(
    raw: Result<[T; N], MotorError>,
    reductions: [Option<T>; N],
    r: Result<[T; N], MotorError>,
) -> bool {
    match raw {
        Ok(values) => r is Ok && are_scaled_down(values, reductions, r->Ok_0),
        Err(e) => r == Err::<[T; N], MotorError>(e),
    }
}

/// One read of the position register `register` took the raw interface from
/// `pre` to `post`, and `r` is what it returned, in physical units.
pub open spec fn position_read<T: Scalar, const N: usize, IO: RawMotorsIO<T, N>>(
    pre: IO,
    register: Register,
    post: IO,
    calibration: Calibration<T, N>,
    r: Result<[T; N], MotorError>,
) -> bool {
    exists|raw: Result<[T; N], MotorError>| #[trigger]
        IO::register_read(pre, register, post, raw) && is_physical_result(
            raw,
            calibration.reduction,
            calibration.offsets,
            r,
        )
}

/// One read of `register` took the raw interface from `pre` to `post`, and
/// `r` is what it returned, divided by the reduction ratios.
pub open spec fn scaled_read<T: Scalar, const N: usize, IO: RawMotorsIO<T, N>>(
    pre: IO,
    register: Register,
    post: IO,
    calibration: Calibration<T, N>,
    r: Result<[T; N], MotorError>,
) -> bool {
    exists|raw: Result<[T; N], MotorError>| #[trigger]
        IO::register_read(pre, register, post, raw) && is_scaled_result(
            raw,
            calibration.reduction,
            r,
        )
}

/// One write of the target position took the raw interface from `pre` to
/// `post` and returned `r`; what was written is `position` in raw units.
pub open spec fn position_written<T: Scalar, const N: usize, IO: RawMotorsIO<T, N>>(
    pre: IO,
    position: [T; N],
    post: IO,
    calibration: Calibration<T, N>,
    r: Result<(), MotorError>,
) -> bool {
    exists|raw: [T; N]|
        are_raw_positions(
            position,
            calibration.limits,
            calibration.offsets,
            calibration.reduction,
            raw,
        ) && #[trigger] IO::register_written(pre, Register::TargetPosition, raw, post, r)
}

/// One write of the target position with feedback took the raw interface
/// from `pre` to `post`; what was written is `position` in raw units, and
/// `r` is the feedback in physical units.
pub open spec fn position_written_with_feedback<T: Scalar, const N: usize, IO: RawMotorsIO<T, N>>(
    pre: IO,
    position: [T; N],
    post: IO,
    calibration: Calibration<T, N>,
    r: Result<[T; N], MotorError>,
) -> bool {
    exists|raw: [T; N], feedback: Result<[T; N], MotorError>|
        are_raw_positions(
            position,
            calibration.limits,
            calibration.offsets,
            calibration.reduction,
            raw,
        ) && #[trigger] IO::target_written_with_feedback(pre, raw, post, feedback)
            && is_physical_result(feedback, calibration.reduction, calibration.offsets, r)
}

/// One write of `register` took the raw interface from `pre` to `post` and
/// returned `r`; what was written is `values` multiplied by the reduction
/// ratios.
pub open spec fn scaled_written<T: Scalar, const N: usize, IO: RawMotorsIO<T, N>>(
    pre: IO,
    register: Register,
    values: [T; N],
    post: IO,
    calibration: Calibration<T, N>,
    r: Result<(), MotorError>,
) -> bool {
    exists|raw: [T; N]|
        are_scaled_up(values, calibration.reduction, raw) && #[trigger] IO::register_written(
            pre,
            register,
            raw,
            post,
            r,
        )
}

/// Every axis of `on` is on.
pub open spec fn all_on<const N: usize>(on: [bool; N]) -> bool {
    forall|i: int| 0 <= i < N ==> #[trigger] on[i]
}

/// Every axis of `on` is off.
pub open spec fn all_off<const N: usize>(on: [bool; N]) -> bool {
    forall|i: int| 0 <= i < N ==> !#[trigger] on[i]
}

/// The torque of every axis was switched on, with result `r`.
pub open spec fn torque_switched_on<T: Scalar, const N: usize, IO: RawMotorsIO<T, N>>(
    pre: IO,
    post: IO,
    r: Result<(), MotorError>,
) -> bool {
    exists|on: [bool; N]| all_on(on) && #[trigger] IO::torque_written(pre, on, post, r)
}

/// The torque of every axis was switched off, with result `r`.
pub open spec fn torque_switched_off<T: Scalar, const N: usize, IO: RawMotorsIO<T, N>>(
    pre: IO,
    post: IO,
    r: Result<(), MotorError>,
) -> bool {
    exists|on: [bool; N]| all_off(on) && #[trigger] IO::torque_written(pre, on, post, r)
}

/// The target was set to the current position, if `reset_target` asks for
/// it, and then the torque of every axis was switched on: one round trip
/// for each of the three. The first that failed was the last, and `r` is
/// its error.
pub open spec fn torque_enabled<T: Scalar, const N: usize, IO: RawMotorsIO<T, N>>(
    pre: IO,
    reset_target: bool,
    post: IO,
    calibration: Calibration<T, N>,
    r: Result<(), MotorError>,
) -> bool {
    if reset_target {
        exists|read: IO, position: Result<[T; N], MotorError>| #[trigger]
            position_read(pre, Register::CurrentPosition, read, calibration, position)
                && match position {
                Ok(p) => exists|written: IO, w: Result<(), MotorError>| #[trigger]
                    position_written(read, p, written, calibration, w) && if w is Ok {
                        torque_switched_on::<T, N, IO>(written, post, r)
                    } else {
                        post == written && r == w
                    },
                Err(e) => post == read && r == Err::<(), MotorError>(e),
            }
    } else {
        torque_switched_on::<T, N, IO>(pre, post, r)
    }
}

/// A controller of `N` axes in physical units (radians, radians per second,
/// newton-metres) over a raw register interface.
///
/// An implementation supplies the raw interface and the calibration of each
/// axis. Every operation is exactly one round trip to the raw interface,
/// but for `enable_torque`, which is up to three; a failure of a round trip
/// ends the operation and is returned as it is.
pub trait MotorsController<T: Scalar, const N: usize>: Sized {
    /// The raw register interface underneath.
    type IO: RawMotorsIO<T, N>;

    /// The state of the raw interface.
    spec fn io_view(&self) -> Self::IO;

    /// The calibration of the axes.
    spec fn calibration(&self) -> Calibration<T, N>;

    /// The raw interface, for diagnostic bypass. Whatever is done through
    /// it leaves the calibration alone.
    fn io(&mut self) -> (r: &mut Self::IO)
        ensures
            *r == old(self).io_view(),
            final(self).io_view() == *final(r),
            final(self).calibration() == old(self).calibration(),
    ;

    /// Get the offsets of the motors (in radians)
    fn offsets(&self) -> (r: [Option<T>; N])
        ensures
            r == self.calibration().offsets,
    ;

    /// Get the reduction of the motors
    fn reduction(&self) -> (r: [Option<T>; N])
        ensures
            r == self.calibration().reduction,
    ;

    /// Get the limits of the motors
    fn limits(&self) -> (r: [Option<Limit<T>>; N])
        ensures
            r == self.calibration().limits,
    ;

    /// Check if the torque is ON or OFF
    fn is_torque_on(&mut self) -> (r: Result<[bool; N], MotorError>)
        ensures
            final(self).calibration() == old(self).calibration(),
            Self::IO::torque_read(old(self).io_view(), final(self).io_view(), r),
    {
        self.io().is_torque_on()
    }

    /// Enable the torque
    fn set_torque(&mut self, on: [bool; N]) -> (r: Result<(), MotorError>)
        ensures
            final(self).calibration() == old(self).calibration(),
            Self::IO::torque_written(old(self).io_view(), on, final(self).io_view(), r),
    {
        self.io().set_torque(on)
    }

    /// Enable the torque of every axis
    ///
    /// # Arguments
    /// * `reset_target` - If true, reset the target position to the current position
    fn enable_torque(&mut self, reset_target: bool) -> (r: Result<(), MotorError>)
        ensures
            final(self).calibration() == old(self).calibration(),
            torque_enabled::<T, N, Self::IO>(
                old(self).io_view(),
                reset_target,
                final(self).io_view(),
                old(self).calibration(),
                r,
            ),
    {
        if reset_target {
            let position = self.get_current_position()?;
            self.set_target_position(position)?;
        }
        self.set_torque(uniform(true))
    }

    /// Disable the torque of every axis
    fn disable_torque(&mut self) -> (r: Result<(), MotorError>)
        ensures
            final(self).calibration() == old(self).calibration(),
            torque_switched_off::<T, N, Self::IO>(old(self).io_view(), final(self).io_view(), r),
    {
        self.set_torque(uniform(false))
    }

    /// Get the current position of the motors (in radians)
    fn get_current_position(&mut self) -> (r: Result<[T; N], MotorError>)
        ensures
            final(self).calibration() == old(self).calibration(),
            position_read::<T, N, Self::IO>(
                old(self).io_view(),
                Register::CurrentPosition,
                final(self).io_view(),
                old(self).calibration(),
                r,
            ),
    {
        let position = self.io().get_current_position()?;
        Ok(to_physical_positions(position, self.reduction(), self.offsets()))
    }

    /// Get the current velocity of the motors (in radians per second)
    fn get_current_velocity(&mut self) -> (r: Result<[T; N], MotorError>)
        ensures
            final(self).calibration() == old(self).calibration(),
            scaled_read::<T, N, Self::IO>(
                old(self).io_view(),
                Register::CurrentVelocity,
                final(self).io_view(),
                old(self).calibration(),
                r,
            ),
    {
        let velocity = self.io().get_current_velocity()?;
        Ok(scale_down_all(velocity, self.reduction()))
    }

    /// Get the current torque of the motors (in Nm)
    fn get_current_torque(&mut self) -> (r: Result<[T; N], MotorError>)
        ensures
            final(self).calibration() == old(self).calibration(),
            scaled_read::<T, N, Self::IO>(
                old(self).io_view(),
                Register::CurrentTorque,
                final(self).io_view(),
                old(self).calibration(),
                r,
            ),
    {
        let torque = self.io().get_current_torque()?;
        Ok(scale_down_all(torque, self.reduction()))
    }

    /// Get the current target position of the motors (in radians)
    fn get_target_position(&mut self) -> (r: Result<[T; N], MotorError>)
        ensures
            final(self).calibration() == old(self).calibration(),
            position_read::<T, N, Self::IO>(
                old(self).io_view(),
                Register::TargetPosition,
                final(self).io_view(),
                old(self).calibration(),
                r,
            ),
    {
        let position = self.io().get_target_position()?;
        Ok(to_physical_positions(position, self.reduction(), self.offsets()))
    }

    /// Set the current target position of the motors (in radians)
    fn set_target_position(&mut self, position: [T; N]) -> (r: Result<(), MotorError>)
        ensures
            final(self).calibration() == old(self).calibration(),
            position_written::<T, N, Self::IO>(
                old(self).io_view(),
                position,
                final(self).io_view(),
                old(self).calibration(),
                r,
            ),
    {
        let raw = to_raw_positions(position, self.limits(), self.offsets(), self.reduction());
        self.io().set_target_position(raw)
    }

    /// Set the current target torque of the motors (in Nm)
    fn set_target_torque(&mut self, torque: [T; N]) -> (r: Result<(), MotorError>)
        ensures
            final(self).calibration() == old(self).calibration(),
            Self::IO::register_written(
                old(self).io_view(),
                Register::TargetTorque,
                torque,
                final(self).io_view(),
                r,
            ),
    {
        self.io().set_target_torque(torque)
    }

    /// Set the current target velocity of the motors (in rad/s)
    fn set_target_velocity(&mut self, velocity: [T; N]) -> (r: Result<(), MotorError>)
        ensures
            final(self).calibration() == old(self).calibration(),
            Self::IO::register_written(
                old(self).io_view(),
                Register::TargetVelocity,
                velocity,
                final(self).io_view(),
                r,
            ),
    {
        self.io().set_target_velocity(velocity)
    }

    /// Set control mode
    fn set_control_mode(&mut self, mode: [u8; N]) -> (r: Result<(), MotorError>)
        ensures
            final(self).calibration() == old(self).calibration(),
            Self::IO::control_mode_written(old(self).io_view(), mode, final(self).io_view(), r),
    {
        self.io().set_control_mode(mode)
    }

    /// Get the current target torque of the motors (in Nm)
    fn get_target_torque(&mut self) -> (r: Result<[T; N], MotorError>)
        ensures
            final(self).calibration() == old(self).calibration(),
            Self::IO::register_read(
                old(self).io_view(),
                Register::TargetTorque,
                final(self).io_view(),
                r,
            ),
    {
        self.io().get_target_torque()
    }

    /// Get the current target velocity of the motors (in rad/s)
    fn get_target_velocity(&mut self) -> (r: Result<[T; N], MotorError>)
        ensures
            final(self).calibration() == old(self).calibration(),
            Self::IO::register_read(
                old(self).io_view(),
                Register::TargetVelocity,
                final(self).io_view(),
                r,
            ),
    {
        self.io().get_target_velocity()
    }

    /// Get the current control mode
    fn get_control_mode(&mut self) -> (r: Result<[u8; N], MotorError>)
        ensures
            final(self).calibration() == old(self).calibration(),
            Self::IO::control_mode_read(old(self).io_view(), final(self).io_view(), r),
    {
        self.io().get_control_mode()
    }

    /// Set the current target position and returns the motor feeback
    /// (the position of every axis after the write, in radians)
    fn set_target_position_fb(&mut self, position: [T; N]) -> (r: Result<[T; N], MotorError>)
        ensures
            final(self).calibration() == old(self).calibration(),
            position_written_with_feedback::<T, N, Self::IO>(
                old(self).io_view(),
                position,
                final(self).io_view(),
                old(self).calibration(),
                r,
            ),
    {
        let raw = to_raw_positions(position, self.limits(), self.offsets(), self.reduction());
        let feedback = self.io().set_target_position_fb(raw)?;
        Ok(to_physical_positions(feedback, self.reduction(), self.offsets()))
    }

    /// Get the velocity limit of the motors (in radians per second)
    fn get_velocity_limit(&mut self) -> (r: Result<[T; N], MotorError>)
        ensures
            final(self).calibration() == old(self).calibration(),
            scaled_read::<T, N, Self::IO>(
                old(self).io_view(),
                Register::VelocityLimit,
                final(self).io_view(),
                old(self).calibration(),
                r,
            ),
    {
        let velocity = self.io().get_velocity_limit()?;
        Ok(scale_down_all(velocity, self.reduction()))
    }

    /// Set the velocity limit of the motors (in radians per second)
    fn set_velocity_limit(&mut self, velocity: [T; N]) -> (r: Result<(), MotorError>)
        ensures
            final(self).calibration() == old(self).calibration(),
            scaled_written::<T, N, Self::IO>(
                old(self).io_view(),
                Register::VelocityLimit,
                velocity,
                final(self).io_view(),
                old(self).calibration(),
                r,
            ),
    {
        let raw = scale_up_all(velocity, self.reduction());
        self.io().set_velocity_limit(raw)
    }

    /// Get the torque limit of the motors (in Nm)
    fn get_torque_limit(&mut self) -> (r: Result<[T; N], MotorError>)
        ensures
            final(self).calibration() == old(self).calibration(),
            scaled_read::<T, N, Self::IO>(
                old(self).io_view(),
                Register::TorqueLimit,
                final(self).io_view(),
                old(self).calibration(),
                r,
            ),
    {
        let torque = self.io().get_torque_limit()?;
        Ok(scale_down_all(torque, self.reduction()))
    }

    /// Set the torque limit of the motors (in Nm)
    fn set_torque_limit(&mut self, torque: [T; N]) -> (r: Result<(), MotorError>)
        ensures
            final(self).calibration() == old(self).calibration(),
            scaled_written::<T, N, Self::IO>(
                old(self).io_view(),
                Register::TorqueLimit,
                torque,
                final(self).io_view(),
                old(self).calibration(),
                r,
            ),
    {
        let raw = scale_up_all(torque, self.reduction());
        self.io().set_torque_limit(raw)
    }

    /// Get the current PID gains of the motors
    fn get_pid_gains(&mut self) -> (r: Result<[PID<T>; N], MotorError>)
        ensures
            final(self).calibration() == old(self).calibration(),
            Self::IO::pid_read(old(self).io_view(), final(self).io_view(), r),
    {
        self.io().get_pid_gains()
    }

    /// Set the current PID gains of the motors
    fn set_pid_gains(&mut self, pid: [PID<T>; N]) -> (r: Result<(), MotorError>)
        ensures
            final(self).calibration() == old(self).calibration(),
            Self::IO::pid_written(old(self).io_view(), pid, final(self).io_view(), r),
    {
        self.io().set_pid_gains(pid)
    }

    /// Get the current axis sensors of the articulation
    fn get_axis_sensors(&mut self) -> (r: Result<[T; N], MotorError>)
        ensures
            final(self).calibration() == old(self).calibration(),
            Self::IO::register_read(
                old(self).io_view(),
                Register::AxisSensors,
                final(self).io_view(),
                r,
            ),
    {
        self.io().get_axis_sensors()
    }

    /// Get the current state of the articulation control board
    fn get_board_state(&mut self) -> (r: Result<u8, MotorError>)
        ensures
            final(self).calibration() == old(self).calibration(),
            Self::IO::board_state_read(old(self).io_view(), final(self).io_view(), r),
    {
        self.io().get_board_state()
    }

    /// Set the current state of the articulation control board (clear error)
    fn set_board_state(&mut self, state: u8) -> (r: Result<(), MotorError>)
        ensures
            final(self).calibration() == old(self).calibration(),
            Self::IO::board_state_written(old(self).io_view(), state, final(self).io_view(), r),
    {
        self.io().set_board_state(state)
    }
}

} // verus!
