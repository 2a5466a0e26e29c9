//! A deterministic stand-in for a device, and a controller over it.
use crate::calibration::{are_physical_positions, are_raw_positions, Calibration};
use crate::error::{is_missing, MotorError};
use crate::limit::Limit;
use crate::motors_controller::{position_read, position_written, MotorsController};
use crate::motors_io::{uniform, RawMotorsIO, Register};
use crate::pid::PID;
use crate::scalar::Scalar;
use vstd::prelude::*;

verus! {

/// A controller over a [`FakeMotorsIO`], with a calibration of its own.
#[derive(Debug)]
pub struct FakeMotorsController<T: Scalar, const N: usize> {
    offsets: [Option<T>; N],
    reduction: [Option<T>; N],
    limits: [Option<Limit<T>>; N],
    io: FakeMotorsIO<T, N>,
}

/// No axis has an offset, a reduction ratio or a limit.
pub open spec fn is_uncalibrated<T: Scalar, const N: usize>(calibration: Calibration<T, N>) -> bool {
    forall|i: int|
        #![trigger calibration.offsets[i]]
        #![trigger calibration.reduction[i]]
        #![trigger calibration.limits[i]]
        0 <= i < N ==> calibration.offsets[i] is None && calibration.reduction[i] is None
            && calibration.limits[i] is None
}

impl<T: Scalar, const N: usize> FakeMotorsController<T, N> {
    /// A controller without calibration over a device that was never
    /// touched.
    pub fn new() -> (r: Self)
        ensures
            is_uncalibrated(r.calibration()),
            r.io_view().is_initial(),
    {
        Self::default()
    }

    /// The same controller with these offsets.
    pub fn with_offsets(self, offsets: [Option<T>; N]) -> (r: Self)
        ensures
            r.calibration() == (Calibration { offsets, ..self.calibration() }),
            r.io_view() == self.io_view(),
    {
        let mut controller = self;
        controller.offsets = offsets;
        controller
    }

    /// The same controller with these reduction ratios.
    pub fn with_reduction(self, reduction: [Option<T>; N]) -> (r: Self)
        ensures
            r.calibration() == (Calibration { reduction, ..self.calibration() }),
            r.io_view() == self.io_view(),
    {
        let mut controller = self;
        controller.reduction = reduction;
        controller
    }

    /// The same controller with these limits.
    pub fn with_limits(self, limits: [Option<Limit<T>>; N]) -> (r: Self)
        ensures
            r.calibration() == (Calibration { limits, ..self.calibration() }),
            r.io_view() == self.io_view(),
    {
        let mut controller = self;
        controller.limits = limits;
        controller
    }
}

impl<T: Scalar, const N: usize> Default for FakeMotorsController<T, N> {
    fn default() -> (r: Self)
        ensures
            is_uncalibrated(r.calibration()),
            r.io_view().is_initial(),
    {
        Self {
            offsets: uniform(None),
            reduction: uniform(None),
            limits: uniform(None),
            io: FakeMotorsIO::<T, N>::default(),
        }
    }
}

impl<T: Scalar, const N: usize> MotorsController<T, N> for FakeMotorsController<T, N> {
    type IO = FakeMotorsIO<T, N>;

    closed spec fn io_view(&self) -> FakeMotorsIO<T, N> {
        self.io
    }

    closed spec fn calibration(&self) -> Calibration<T, N> {
        Calibration { offsets: self.offsets, reduction: self.reduction, limits: self.limits }
    }

    fn io(&mut self) -> (r: &mut FakeMotorsIO<T, N>) {
        &mut self.io
    }

    fn offsets(&self) -> (r: [Option<T>; N]) {
        self.offsets
    }

    fn reduction(&self) -> (r: [Option<T>; N]) {
        self.reduction
    }

    fn limits(&self) -> (r: [Option<Limit<T>>; N]) {
        self.limits
    }
}

/// Fake motor io implementation for testing purposes.
///
/// Each axis is either free (torque off) or driven (torque on). An axis
/// that becomes driven snaps to its target, a driven axis follows every new
/// target at once, and a free axis stays where it is.
#[derive(Debug)]
pub struct FakeMotorsIO<T, const N: usize> {
    /// Whether the torque of each axis is on.
    pub torque_on: [bool; N],
    /// Where each axis is.
    pub current_position: [T; N],
    /// How fast each axis turns; not simulated, unset until written.
    pub current_velocity: [T; N],
    /// The torque that each axis applies; not simulated, unset until
    /// written.
    pub current_torque: [T; N],
    /// Where each axis was last told to be.
    pub target_position: [T; N],
    /// The greatest velocity allowed on each axis.
    pub velocity_limit: [T; N],
    /// The greatest torque allowed on each axis.
    pub torque_limit: [T; N],
    /// The gains of each axis.
    pub pid: [PID<T>; N],
}

impl<T: Scalar, const N: usize> FakeMotorsIO<T, N> {
    /// The state of a device that was never touched: torque off, at rest
    /// at zero with target zero, no velocity or torque reading, no gains,
    /// and limits that do not bind.
    pub open spec fn is_initial(self) -> bool {
        forall|i: int|
            #![trigger self.torque_on[i]]
            #![trigger self.current_position[i]]
            #![trigger self.current_velocity[i]]
            #![trigger self.current_torque[i]]
            #![trigger self.target_position[i]]
            #![trigger self.velocity_limit[i]]
            #![trigger self.torque_limit[i]]
            #![trigger self.pid[i]]
            0 <= i < N ==> {
                &&& !self.torque_on[i]
                &&& self.current_position[i] == T::spec_zero()
                &&& self.current_velocity[i] == T::spec_unset()
                &&& self.current_torque[i] == T::spec_unset()
                &&& self.target_position[i] == T::spec_zero()
                &&& self.velocity_limit[i] == T::spec_unbounded()
                &&& self.torque_limit[i] == T::spec_unbounded()
                &&& self.pid[i] == (PID {
                    p: T::spec_unset(),
                    i: T::spec_unset(),
                    d: T::spec_unset(),
                })
            }
    }

    /// What `register` holds in this state. The axis sensors show the
    /// current position. The device has no register for a target torque or
    /// a target velocity.
    pub open spec fn register(self, register: Register) -> Option<[T; N]> {
        match register {
            Register::CurrentPosition => Some(self.current_position),
            Register::CurrentVelocity => Some(self.current_velocity),
            Register::CurrentTorque => Some(self.current_torque),
            Register::TargetPosition => Some(self.target_position),
            Register::VelocityLimit => Some(self.velocity_limit),
            Register::TorqueLimit => Some(self.torque_limit),
            Register::AxisSensors => Some(self.current_position),
            Register::TargetTorque => None,
            Register::TargetVelocity => None,
        }
    }

    /// `post` differs from `self` at most in torque and current position.
    pub open spec fn same_but_torque_and_position(self, post: Self) -> bool {
        &&& post.current_velocity == self.current_velocity
        &&& post.current_torque == self.current_torque
        &&& post.target_position == self.target_position
        &&& post.velocity_limit == self.velocity_limit
        &&& post.torque_limit == self.torque_limit
        &&& post.pid == self.pid
    }

    /// `post` is `self` after the torque was switched to `on`: an axis that
    /// goes from off to on snaps to its target, every other axis stays.
    pub open spec fn torque_switched(self, on: [bool; N], post: Self) -> bool {
        &&& post.torque_on == on
        &&& self.same_but_torque_and_position(post)
        &&& forall|i: int|
            0 <= i < N ==> #[trigger] post.current_position[i] == if on[i] && !self.torque_on[i] {
                self.target_position[i]
            } else {
                self.current_position[i]
            }
    }

    /// `post` is `self` after the target was set to `target`: an axis with
    /// torque on moves there at once, an axis with torque off stays.
    pub open spec fn target_moved(self, target: [T; N], post: Self) -> bool {
        &&& post.torque_on == self.torque_on
        &&& post.current_velocity == self.current_velocity
        &&& post.current_torque == self.current_torque
        &&& post.target_position == target
        &&& post.velocity_limit == self.velocity_limit
        &&& post.torque_limit == self.torque_limit
        &&& post.pid == self.pid
        &&& forall|i: int|
            0 <= i < N ==> #[trigger] post.current_position[i] == if self.torque_on[i] {
                target[i]
            } else {
                self.current_position[i]
            }
    }

    /// Sets the target and moves every axis whose torque is on.
    fn move_target(&mut self, target: [T; N])
        ensures
            old(self).target_moved(target, *final(self)),
    {
        self.target_position = target;
        let mut i: usize = 0;
        while i < N
            invariant
                i <= N,
                self.torque_on == old(self).torque_on,
                self.current_velocity == old(self).current_velocity,
                self.current_torque == old(self).current_torque,
                self.target_position == target,
                self.velocity_limit == old(self).velocity_limit,
                self.torque_limit == old(self).torque_limit,
                self.pid == old(self).pid,
                forall|j: int|
                    0 <= j < i ==> #[trigger] self.current_position[j] == if old(self).torque_on[j] {
                        target[j]
                    } else {
                        old(self).current_position[j]
                    },
                forall|j: int|
                    i <= j < N ==> #[trigger] self.current_position[j] == old(
                        self,
                    ).current_position[j],
            decreases N - i,
        {
            if self.torque_on[i] {
                self.current_position[i] = target[i];
            }
            i += 1;
        }
    }
}

impl<T: Scalar, const N: usize> Default for FakeMotorsIO<T, N> {
    fn default() -> (r: Self)
        ensures
            r.is_initial(),
    {
        let zero = T::zero();
        let unset = T::unset();
        let unbounded = T::unbounded();
        Self {
            torque_on: [false;N],
            current_position: [zero;N],
            current_velocity: [unset;N],
            current_torque: [unset;N],
            target_position: [zero;N],
            velocity_limit: [unbounded;N],
            torque_limit: [unbounded;N],
            pid: uniform(PID { p: unset, i: unset, d: unset }),
        }
    }
}

impl<T: Scalar, const N: usize> RawMotorsIO<T, N> for FakeMotorsIO<T, N> {
    open spec fn torque_read(pre: Self, post: Self, r: Result<[bool; N], MotorError>) -> bool {
        post == pre && r == Ok::<[bool; N], MotorError>(pre.torque_on)
    }

    open spec fn torque_written(pre: Self, on: [bool; N], post: Self, r: Result<(), MotorError>) -> bool {
        r is Ok && pre.torque_switched(on, post)
    }

    open spec fn register_read(
        pre: Self,
        register: Register,
        post: Self,
        r: Result<[T; N], MotorError>,
    ) -> bool {
        post == pre && match pre.register(register) {
            Some(values) => r == Ok::<[T; N], MotorError>(values),
            None => is_missing(r, register.spec_name()),
        }
    }

    open spec fn register_written(
        pre: Self,
        register: Register,
        values: [T; N],
        post: Self,
        r: Result<(), MotorError>,
    ) -> bool {
        match register {
            Register::TargetPosition => r is Ok && pre.target_moved(values, post),
            Register::VelocityLimit => r is Ok && post == (FakeMotorsIO {
                velocity_limit: values,
                ..pre
            }),
            Register::TorqueLimit => r is Ok && post == (FakeMotorsIO {
                torque_limit: values,
                ..pre
            }),
            _ => post == pre && is_missing(r, register.spec_name()),
        }
    }

    open spec fn control_mode_read(pre: Self, post: Self, r: Result<[u8; N], MotorError>) -> bool {
        post == pre && is_missing(r, "control_mode"@)
    }

    open spec fn control_mode_written(
        pre: Self,
        mode: [u8; N],
        post: Self,
        r: Result<(), MotorError>,
    ) -> bool {
        post == pre && is_missing(r, "control_mode"@)
    }

    open spec fn target_written_with_feedback(
        pre: Self,
        target: [T; N],
        post: Self,
        r: Result<[T; N], MotorError>,
    ) -> bool {
        pre.target_moved(target, post) && r == Ok::<[T; N], MotorError>(post.current_position)
    }

    open spec fn pid_read(pre: Self, post: Self, r: Result<[PID<T>; N], MotorError>) -> bool {
        post == pre && r == Ok::<[PID<T>; N], MotorError>(pre.pid)
    }

    open spec fn pid_written(pre: Self, pid: [PID<T>; N], post: Self, r: Result<(), MotorError>) -> bool {
        r is Ok && post == (FakeMotorsIO { pid, ..pre })
    }

    open spec fn board_state_read(pre: Self, post: Self, r: Result<u8, MotorError>) -> bool {
        post == pre && r == Ok::<u8, MotorError>(0)
    }

    open spec fn board_state_written(pre: Self, state: u8, post: Self, r: Result<(), MotorError>) -> bool {
        r is Ok && post == pre
    }

    fn is_torque_on(&mut self) -> (r: Result<[bool; N], MotorError>) {
        Ok(self.torque_on)
    }

    fn set_torque(&mut self, on: [bool; N]) -> (r: Result<(), MotorError>) {
        let mut i: usize = 0;
        while i < N
            invariant
                i <= N,
                self.torque_on == old(self).torque_on,
                old(self).same_but_torque_and_position(*self),
                forall|j: int|
                    0 <= j < i ==> #[trigger] self.current_position[j] == if on[j] && !old(
                        self,
                    ).torque_on[j] {
                        old(self).target_position[j]
                    } else {
                        old(self).current_position[j]
                    },
                forall|j: int|
                    i <= j < N ==> #[trigger] self.current_position[j] == old(
                        self,
                    ).current_position[j],
            decreases N - i,
        {
            if on[i] && !self.torque_on[i] {
                self.current_position[i] = self.target_position[i];
            }
            i += 1;
        }
        self.torque_on = on;
        Ok(())
    }

    fn get_current_position(&mut self) -> (r: Result<[T; N], MotorError>) {
        Ok(self.current_position)
    }

    fn get_current_velocity(&mut self) -> (r: Result<[T; N], MotorError>) {
        Ok(self.current_velocity)
    }

    fn get_current_torque(&mut self) -> (r: Result<[T; N], MotorError>) {
        Ok(self.current_torque)
    }

    fn get_target_position(&mut self) -> (r: Result<[T; N], MotorError>) {
        Ok(self.target_position)
    }

    fn set_target_position(&mut self, position: [T; N]) -> (r: Result<(), MotorError>) {
        self.move_target(position);
        Ok(())
    }

    fn get_target_torque(&mut self) -> (r: Result<[T; N], MotorError>) {
        Err(Register::TargetTorque.missing())
    }

    fn set_target_torque(&mut self, _torque: [T; N]) -> (r: Result<(), MotorError>) {
        Err(Register::TargetTorque.missing())
    }

    fn set_target_velocity(&mut self, _velocity: [T; N]) -> (r: Result<(), MotorError>) {
        Err(Register::TargetVelocity.missing())
    }

    fn get_target_velocity(&mut self) -> (r: Result<[T; N], MotorError>) {
        Err(Register::TargetVelocity.missing())
    }

    fn set_control_mode(&mut self, _mode: [u8; N]) -> (r: Result<(), MotorError>) {
        Err(MotorError::MissingRegister("control_mode".to_owned()))
    }

    fn get_control_mode(&mut self) -> (r: Result<[u8; N], MotorError>) {
        Err(MotorError::MissingRegister("control_mode".to_owned()))
    }

    fn set_target_position_fb(&mut self, position: [T; N]) -> (r: Result<[T; N], MotorError>) {
        self.move_target(position);
        Ok(self.current_position)
    }

    fn get_velocity_limit(&mut self) -> (r: Result<[T; N], MotorError>) {
        Ok(self.velocity_limit)
    }

    fn set_velocity_limit(&mut self, velocity: [T; N]) -> (r: Result<(), MotorError>) {
        self.velocity_limit = velocity;
        Ok(())
    }

    fn get_torque_limit(&mut self) -> (r: Result<[T; N], MotorError>) {
        Ok(self.torque_limit)
    }

    fn set_torque_limit(&mut self, torque: [T; N]) -> (r: Result<(), MotorError>) {
        self.torque_limit = torque;
        Ok(())
    }

    fn get_pid_gains(&mut self) -> (r: Result<[PID<T>; N], MotorError>) {
        Ok(self.pid)
    }

    fn set_pid_gains(&mut self, pid: [PID<T>; N]) -> (r: Result<(), MotorError>) {
        self.pid = pid;
        Ok(())
    }

    fn get_axis_sensors(&mut self) -> (r: Result<[T; N], MotorError>) {
        Ok(self.current_position)
    }

    fn get_board_state(&mut self) -> (r: Result<u8, MotorError>) {
        Ok(0)
    }

    fn set_board_state(&mut self, _state: u8) -> (r: Result<(), MotorError>) {
        Ok(())
    }
}

/// The torque latch. An axis whose torque is off keeps its position while
/// its target moves; it snaps to the target when the torque comes on; and
/// with the torque on it follows every new target at once.
pub proof fn lemma_torque_latch<T: Scalar, const N: usize>(
    start: FakeMotorsIO<T, N>,
    first: [T; N],
    aimed: FakeMotorsIO<T, N>,
    on: [bool; N],
    latched: FakeMotorsIO<T, N>,
    second: [T; N],
    moved: FakeMotorsIO<T, N>,
    i: int,
)
    requires
        0 <= i < N,
        !start.torque_on[i],
        on[i],
        start.target_moved(first, aimed),
        aimed.torque_switched(on, latched),
        latched.target_moved(second, moved),
    ensures
        aimed.current_position[i] == start.current_position[i],
        latched.current_position[i] == first[i],
        moved.current_position[i] == second[i],
{
}

/// Switching the torque off, or leaving it as it is, moves nothing.
pub proof fn lemma_release_keeps_position<T: Scalar, const N: usize>(
    pre: FakeMotorsIO<T, N>,
    on: [bool; N],
    post: FakeMotorsIO<T, N>,
    i: int,
)
    requires
        0 <= i < N,
        pre.torque_switched(on, post),
        !on[i] || pre.torque_on[i],
    ensures
        post.current_position[i] == pre.current_position[i],
{
}

/// What the controller over a fake device writes as target is what it
/// reads back: the write always succeeds and stores the commanded
/// positions in raw units, and the read changes nothing and returns what
/// is stored, in physical units.
pub proof fn lemma_target_round_trip<T: Scalar, const N: usize>(
    pre: FakeMotorsIO<T, N>,
    position: [T; N],
    stored: FakeMotorsIO<T, N>,
    written: Result<(), MotorError>,
    post: FakeMotorsIO<T, N>,
    read: Result<[T; N], MotorError>,
    calibration: Calibration<T, N>,
)
    requires
        position_written(pre, position, stored, calibration, written),
        position_read(stored, Register::TargetPosition, post, calibration, read),
    ensures
        written is Ok,
        read is Ok,
        post == stored,
        are_raw_positions(
            position,
            calibration.limits,
            calibration.offsets,
            calibration.reduction,
            stored.target_position,
        ),
        are_physical_positions(
            stored.target_position,
            calibration.reduction,
            calibration.offsets,
            read->Ok_0,
        ),
{
}

} // verus!
