//! The raw register interface that a device offers, several axes wide.
use crate::error::MotorError;
use crate::pid::PID;
use crate::scalar::Scalar;
use vstd::prelude::*;

verus! {

/// A named raw value that the device exposes, one scalar per axis.
#[derive(Clone, Copy, Debug, PartialEq, Eq)]
pub enum Register {
    /// Where the axis is (read-only).
    CurrentPosition,
    /// How fast the axis turns (read-only).
    CurrentVelocity,
    /// The torque that the axis applies (read-only).
    CurrentTorque,
    /// Where the axis is commanded to be.
    TargetPosition,
    /// The greatest velocity allowed.
    VelocityLimit,
    /// The greatest torque allowed.
    TorqueLimit,
    /// The auxiliary axis sensors (read-only).
    AxisSensors,
    /// The torque that the axis is commanded to apply.
    TargetTorque,
    /// The velocity at which the axis is commanded to turn.
    TargetVelocity,
}

impl Register {
    /// The name of the register, as `name` returns it.
    pub open spec fn spec_name(self) -> Seq<char> {
        match self {
            Register::CurrentPosition => "current_position"@,
            Register::CurrentVelocity => "current_velocity"@,
            Register::CurrentTorque => "current_torque"@,
            Register::TargetPosition => "target_position"@,
            Register::VelocityLimit => "velocity_limit"@,
            Register::TorqueLimit => "torque_limit"@,
            Register::AxisSensors => "axis_sensors"@,
            Register::TargetTorque => "target_torque"@,
            Register::TargetVelocity => "target_velocity"@,
        }
    }

    /// The name of the register, for diagnostics.
    pub fn name(&self) -> (r: &'static str)
        ensures
            r@ == self.spec_name(),
    {
        match self {
            Register::CurrentPosition => "current_position",
            Register::CurrentVelocity => "current_velocity",
            Register::CurrentTorque => "current_torque",
            Register::TargetPosition => "target_position",
            Register::VelocityLimit => "velocity_limit",
            Register::TorqueLimit => "torque_limit",
            Register::AxisSensors => "axis_sensors",
            Register::TargetTorque => "target_torque",
            Register::TargetVelocity => "target_velocity",
        }
    }

    /// The failure of a backend that cannot supply or accept this register.
    pub fn missing(&self) -> (e: MotorError)
        ensures
            e matches MotorError::MissingRegister(name) && name@ == self.spec_name(),
    {
        MotorError::MissingRegister(self.name().to_owned())
    }
}

/// The same value on every axis.
pub fn uniform<V: Copy, const N: usize>(value: V) -> (r: [V; N])
    ensures
        forall|i: int| 0 <= i < N ==> #[trigger] r[i] == value,
{
    [value;N]
}

/// Raw access to the registers of `N` axes, in the device's own units.
///
/// Every operation is one round trip to the device. It reads or writes all
/// `N` axes or fails as a whole. What a device does is its own affair: each
/// operation is specified by a relation, chosen by the implementation,
/// between the state before, the arguments, the state after and the result.
/// Code that drives a device proves what it composes out of these relations.
pub trait RawMotorsIO<T: Scalar, const N: usize>: Sized {
    /// `is_torque_on` may take the device from `pre` to `post` and return `r`.
    spec fn torque_read(pre: Self, post: Self, r: Result<[bool; N], MotorError>) -> bool;

    /// `set_torque(on)` may take the device from `pre` to `post` and return `r`.
    spec fn torque_written(pre: Self, on: [bool; N], post: Self, r: Result<(), MotorError>) -> bool;

    /// Reading `register` may take the device from `pre` to `post` and
    /// return `r`.
    spec fn register_read(
        pre: Self,
        register: Register,
        post: Self,
        r: Result<[T; N], MotorError>,
    ) -> bool;

    /// Writing `values` to `register` may take the device from `pre` to
    /// `post` and return `r`.
    spec fn register_written(
        pre: Self,
        register: Register,
        values: [T; N],
        post: Self,
        r: Result<(), MotorError>,
    ) -> bool;

    /// `set_target_position_fb(target)` may take the device from `pre` to
    /// `post` and return `r`.
    spec fn target_written_with_feedback(
        pre: Self,
        target: [T; N],
        post: Self,
        r: Result<[T; N], MotorError>,
    ) -> bool;

    /// `get_pid_gains` may take the device from `pre` to `post` and return `r`.
    spec fn pid_read(pre: Self, post: Self, r: Result<[PID<T>; N], MotorError>) -> bool;

    /// `set_pid_gains(pid)` may take the device from `pre` to `post` and
    /// return `r`.
    spec fn pid_written(pre: Self, pid: [PID<T>; N], post: Self, r: Result<(), MotorError>) -> bool;

    /// `get_control_mode` may take the device from `pre` to `post` and
    /// return `r`.
    spec fn control_mode_read(pre: Self, post: Self, r: Result<[u8; N], MotorError>) -> bool;

    /// `set_control_mode(mode)` may take the device from `pre` to `post`
    /// and return `r`.
    spec fn control_mode_written(
        pre: Self,
        mode: [u8; N],
        post: Self,
        r: Result<(), MotorError>,
    ) -> bool;

    /// `get_board_state` may take the device from `pre` to `post` and
    /// return `r`.
    spec fn board_state_read(pre: Self, post: Self, r: Result<u8, MotorError>) -> bool;

    /// `set_board_state(state)` may take the device from `pre` to `post` and
    /// return `r`.
    spec fn board_state_written(pre: Self, state: u8, post: Self, r: Result<(), MotorError>) -> bool;

    /// Check if the motors are ON or OFF
    fn is_torque_on(&mut self) -> (r: Result<[bool; N], MotorError>)
        ensures
            Self::torque_read(*old(self), *final(self), r),
    ;

    /// Enable/Disable the torque
    fn set_torque(&mut self, on: [bool; N]) -> (r: Result<(), MotorError>)
        ensures
            Self::torque_written(*old(self), on, *final(self), r),
    ;

    /// Get the current position of the motors (in radians)
    fn get_current_position(&mut self) -> (r: Result<[T; N], MotorError>)
        ensures
            Self::register_read(*old(self), Register::CurrentPosition, *final(self), r),
    ;

    /// Get the current velocity of the motors (in radians per second)
    fn get_current_velocity(&mut self) -> (r: Result<[T; N], MotorError>)
        ensures
            Self::register_read(*old(self), Register::CurrentVelocity, *final(self), r),
    ;

    /// Get the current torque of the motors (in Nm)
    fn get_current_torque(&mut self) -> (r: Result<[T; N], MotorError>)
        ensures
            Self::register_read(*old(self), Register::CurrentTorque, *final(self), r),
    ;

    /// Get the current target position of the motors (in radians)
    fn get_target_position(&mut self) -> (r: Result<[T; N], MotorError>)
        ensures
            Self::register_read(*old(self), Register::TargetPosition, *final(self), r),
    ;

    /// Set the current target position of the motors (in radians)
    fn set_target_position(&mut self, position: [T; N]) -> (r: Result<(), MotorError>)
        ensures
            Self::register_written(
                *old(self),
                Register::TargetPosition,
                position,
                *final(self),
                r,
            ),
    ;

    /// Get the current target torque of the motors (in Nm)
    fn get_target_torque(&mut self) -> (r: Result<[T; N], MotorError>)
        ensures
            Self::register_read(*old(self), Register::TargetTorque, *final(self), r),
    ;

    /// Set the current target torque of the motors (in Nm)
    fn set_target_torque(&mut self, torque: [T; N]) -> (r: Result<(), MotorError>)
        ensures
            Self::register_written(*old(self), Register::TargetTorque, torque, *final(self), r),
    ;

    /// Set the current target velocity of the motors (in rad/s)
    fn set_target_velocity(&mut self, velocity: [T; N]) -> (r: Result<(), MotorError>)
        ensures
            Self::register_written(
                *old(self),
                Register::TargetVelocity,
                velocity,
                *final(self),
                r,
            ),
    ;

    /// Get the current target velocity of the motors (in rad/s)
    fn get_target_velocity(&mut self) -> (r: Result<[T; N], MotorError>)
        ensures
            Self::register_read(*old(self), Register::TargetVelocity, *final(self), r),
    ;

    /// Set the control mode
    fn set_control_mode(&mut self, mode: [u8; N]) -> (r: Result<(), MotorError>)
        ensures
            Self::control_mode_written(*old(self), mode, *final(self), r),
    ;

    /// Get the control mode
    fn get_control_mode(&mut self) -> (r: Result<[u8; N], MotorError>)
        ensures
            Self::control_mode_read(*old(self), *final(self), r),
    ;

    /// Set the current target position and returns the motor feeback
    /// (the position of every axis after the write)
    fn set_target_position_fb(&mut self, position: [T; N]) -> (r: Result<[T; N], MotorError>)
        ensures
            Self::target_written_with_feedback(*old(self), position, *final(self), r),
    ;

    /// Get the velocity limit of the motors (in radians per second)
    fn get_velocity_limit(&mut self) -> (r: Result<[T; N], MotorError>)
        ensures
            Self::register_read(*old(self), Register::VelocityLimit, *final(self), r),
    ;

    /// Set the velocity limit of the motors (in radians per second)
    fn set_velocity_limit(&mut self, velocity: [T; N]) -> (r: Result<(), MotorError>)
        ensures
            Self::register_written(
                *old(self),
                Register::VelocityLimit,
                velocity,
                *final(self),
                r,
            ),
    ;

    /// Get the torque limit of the motors (in Nm)
    fn get_torque_limit(&mut self) -> (r: Result<[T; N], MotorError>)
        ensures
            Self::register_read(*old(self), Register::TorqueLimit, *final(self), r),
    ;

    /// Set the torque limit of the motors (in Nm)
    fn set_torque_limit(&mut self, torque: [T; N]) -> (r: Result<(), MotorError>)
        ensures
            Self::register_written(*old(self), Register::TorqueLimit, torque, *final(self), r),
    ;

    /// Get the current PID gains of the motors
    fn get_pid_gains(&mut self) -> (r: Result<[PID<T>; N], MotorError>)
        ensures
            Self::pid_read(*old(self), *final(self), r),
    ;

    /// Set the current PID gains of the motors
    fn set_pid_gains(&mut self, pid: [PID<T>; N]) -> (r: Result<(), MotorError>)
        ensures
            Self::pid_written(*old(self), pid, *final(self), r),
    ;

    /// Get the current axis sensors
    fn get_axis_sensors(&mut self) -> (r: Result<[T; N], MotorError>)
        ensures
            Self::register_read(*old(self), Register::AxisSensors, *final(self), r),
    ;

    /// Get the Board State byte
    fn get_board_state(&mut self) -> (r: Result<u8, MotorError>)
        ensures
            Self::board_state_read(*old(self), *final(self), r),
    ;

    /// Set the Board State byte
    fn set_board_state(&mut self, state: u8) -> (r: Result<(), MotorError>)
        ensures
            Self::board_state_written(*old(self), state, *final(self), r),
    ;
}

} // verus!
