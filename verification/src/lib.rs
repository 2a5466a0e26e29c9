//! Hardware-agnostic control abstraction for robotic joint actuators.
//!
//! Raw device registers (torque switch, raw position, velocity and torque,
//! raw limits, gains) are kept apart from a calibrated interface in
//! physical units: radians, radians per second, newton-metres. There are
//! three layers.
//!
//! - [`calibration`] converts one value between the two, by the offset, the
//!   reduction ratio and the [`Limit`] of its axis.
//! - [`MotorsController`] applies the conversion to the `N` axes of a
//!   [`RawMotorsIO`]; [`MotorController`] and [`MultipleMotorsController`]
//!   do the same for one axis and for a group with one torque switch.
//! - [`MultipleMotorsControllerWrapper`] builds a group out of single-axis
//!   controllers, and [`coherency`] reduces redundant readings of one
//!   quantity to the value they agree on.
//!
//! [`FakeMotorsIO`] is a deterministic device to run all of this against.
//!
//! # Reading the contracts
//!
//! Every register value is a [`Scalar`]. What a device or a scalar does is
//! not this library's to decide, so each of their operations is specified
//! by a relation that the implementation chooses: `IO::register_read(pre,
//! register, post, r)` reads "a read of `register` may take the device from
//! `pre` to `post` and return `r`". The library proves what it composes:
//! which operations it makes, in which order, with which arguments, and how
//! its own result follows from theirs. Over an implementation whose
//! relations are exact, such as the fake device on integers, these
//! contracts determine every result.
pub mod calibration;
pub mod coherency;
pub mod error;
pub mod fake_motor;
pub mod limit;
pub mod motor_controller;
pub mod motors_controller;
pub mod motors_io;
pub mod multiple_motors_controller;
pub mod pid;
pub mod scalar;

pub use calibration::Calibration;
pub use coherency::CoherentResult;
pub use error::{MissingRegisterErrror, MissingResisterErrror, MotorError};
pub use fake_motor::{FakeMotorsController, FakeMotorsIO};
pub use limit::Limit;
pub use motor_controller::{MotorController, RawMotorController};
pub use motors_controller::MotorsController;
pub use motors_io::{RawMotorsIO, Register};
pub use multiple_motors_controller::{
    MultipleMotorsController, MultipleMotorsControllerWrapper, RawMultipleMotorsController,
};
pub use pid::PID;
pub use scalar::Scalar;
