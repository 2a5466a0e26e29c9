use motor_toolbox_rs::calibration::{
    scale_down, scale_up, to_physical_position, to_physical_positions, to_raw_position,
    to_raw_positions, Calibration,
};
use motor_toolbox_rs::fake_motor::{FakeMotorsController, FakeMotorsIO};
use motor_toolbox_rs::motors_controller::MotorsController;
use motor_toolbox_rs::motors_io::{RawMotorsIO, Register};
use motor_toolbox_rs::{Limit, MotorError, Scalar, PID};
use std::f64::consts::PI;

#[derive(Clone, Copy, Debug, PartialEq, PartialOrd)]
struct Real(f64);

fn same(a: f64, b: f64) -> bool {
    a == b || (a.is_nan() && b.is_nan())
}

impl Scalar for Real {
    fn is_sum(self, rhs: Self, r: Self) -> bool {
        same(self.0 + rhs.0, r.0)
    }
    fn is_difference(self, rhs: Self, r: Self) -> bool {
        same(self.0 - rhs.0, r.0)
    }
    fn is_product(self, rhs: Self, r: Self) -> bool {
        same(self.0 * rhs.0, r.0)
    }
    fn is_quotient(self, rhs: Self, r: Self) -> bool {
        same(self.0 / rhs.0, r.0)
    }
    fn below(self, rhs: Self) -> bool {
        self.0 < rhs.0
    }
    fn at_most(self, rhs: Self) -> bool {
        self.0 <= rhs.0
    }
    fn spec_zero() -> Self {
        Real(0.0)
    }
    fn spec_unset() -> Self {
        Real(f64::NAN)
    }
    fn spec_unbounded() -> Self {
        Real(f64::INFINITY)
    }
    fn plus(self, rhs: Self) -> Self {
        Real(self.0 + rhs.0)
    }
    fn minus(self, rhs: Self) -> Self {
        Real(self.0 - rhs.0)
    }
    fn times(self, rhs: Self) -> Self {
        Real(self.0 * rhs.0)
    }
    fn divided_by(self, rhs: Self) -> Self {
        Real(self.0 / rhs.0)
    }
    fn is_below(self, rhs: Self) -> bool {
        self.0 < rhs.0
    }
    fn is_at_most(self, rhs: Self) -> bool {
        self.0 <= rhs.0
    }
    fn zero() -> Self {
        Real(0.0)
    }
    fn unset() -> Self {
        Real(f64::NAN)
    }
    fn unbounded() -> Self {
        Real(f64::INFINITY)
    }
}

fn reals<const N: usize>(values: [f64; N]) -> [Real; N] {
    values.map(Real)
}

fn floats<const N: usize>(values: [Real; N]) -> [f64; N] {
    values.map(|v| v.0)
}

fn some<const N: usize>(values: [Option<f64>; N]) -> [Option<Real>; N] {
    values.map(|v| v.map(Real))
}

fn bounds(min: f64, max: f64) -> Limit<Real> {
    (Real(min), Real(max)).try_into().unwrap()
}

fn fixture() -> FakeMotorsController<Real, 3> {
    FakeMotorsController::<Real, 3>::new()
        .with_offsets(some([Some(-1.0), Some(1.0), None]))
        .with_reduction(some([Some(2.0), None, Some(1.0)]))
        .with_limits([Some(bounds(0.0, 1.0)), Some(bounds(-1.0, 1.0)), None])
}

// Limits

#[test]
fn check_limit() {
    let limit = Limit::new(Real(-1.0), Real(1.0));

    assert_eq!(limit.clamp(Real(-2.0)).0, -1.0);
    assert_eq!(limit.clamp(Real(0.0)).0, 0.0);
    assert_eq!(limit.clamp(Real(2.0)).0, 1.0);
}

#[test]
fn test_eq() {
    let limit1 = Limit::new(Real(-1.0), Real(1.0));
    let limit2 = Limit::new(Real(-1.0), Real(1.0));
    let limit3 = Limit::new(Real(-1.0), Real(2.0));
    let limit4 = Limit::new(Real(0.0), Real(1.0));

    assert_eq!(limit1, limit2);
    assert_ne!(limit1, limit3);
    assert_ne!(limit1, limit4);
}

#[test]
fn test_into() {
    let limit: Limit<Real> = (Real(0.0), Real(1.0)).try_into().unwrap();
    assert_eq!(limit, Limit::new(Real(0.0), Real(1.0)));
}

#[test]
fn test_into_bad() {
    let limit: Result<Limit<Real>, _> = (Real(1.0), Real(0.0)).try_into();
    assert!(limit.is_err());
}

#[test]
fn bad_limit_is_invalid_config() {
    let limit: Result<Limit<Real>, MotorError> = Limit::try_from((Real(1.0), Real(-1.0)));
    assert_eq!(limit, Err(MotorError::InvalidConfig));
}

#[test]
fn limit_of_one_point() {
    let limit = Limit::try_from((Real(0.5), Real(0.5))).unwrap();
    assert_eq!(limit.min().0, 0.5);
    assert_eq!(limit.max().0, 0.5);
    assert_eq!(limit.clamp(Real(3.0)).0, 0.5);
    assert_eq!(limit.clamp(Real(-3.0)).0, 0.5);
}

#[test]
fn limit_without_order_is_rejected() {
    let limit = Limit::try_from((Real(f64::NAN), Real(1.0)));
    assert_eq!(limit, Err(MotorError::InvalidConfig));
    let limit = Limit::try_from((Real(0.0), Real(f64::NAN)));
    assert_eq!(limit, Err(MotorError::InvalidConfig));
}

#[test]
fn limit_accessors() {
    let limit = Limit::new(Real(-0.25), Real(4.0));
    assert_eq!(limit.min().0, -0.25);
    assert_eq!(limit.max().0, 4.0);
}

#[test]
fn clamp_stays_within_limit() {
    let limit = Limit::new(Real(-1.5), Real(2.5));
    for v in [-1e300, -2.0, -1.5, 0.0, 1.0, 2.5, 2.6, 1e300, f64::INFINITY, f64::NEG_INFINITY] {
        let c = limit.clamp(Real(v)).0;
        assert!(-1.5 <= c && c <= 2.5);
    }
}

#[test]
fn clamp_is_idempotent() {
    let limit = Limit::new(Real(-1.5), Real(2.5));
    for v in [-1e300, -2.0, -1.5, 0.0, 1.0, 2.5, 2.6, 1e300, f64::INFINITY, f64::NEG_INFINITY] {
        let once = limit.clamp(Real(v));
        assert_eq!(limit.clamp(once), once);
    }
}

#[test]
fn clamp_lets_not_a_number_through() {
    let limit = Limit::new(Real(-1.0), Real(1.0));
    assert!(limit.clamp(Real(f64::NAN)).0.is_nan());
}

// Per-axis conversion

#[test]
fn read_divides_then_subtracts() {
    let r = to_physical_position(Real(6.0), Some(Real(-2.0)), Some(Real(0.5)));
    assert_eq!(r.0, -3.5);
}

#[test]
fn write_clamps_then_adds_then_multiplies() {
    let r = to_raw_position(Real(5.0), Some(bounds(0.0, 1.0)), Some(Real(0.5)), Some(Real(-2.0)));
    assert_eq!(r.0, -3.0);
    let r = to_raw_position(Real(-5.0), Some(bounds(0.0, 1.0)), Some(Real(0.5)), Some(Real(-2.0)));
    assert_eq!(r.0, -1.0);
}

#[test]
fn absent_calibration_is_skipped() {
    assert_eq!(to_physical_position(Real(PI), None, None).0, PI);
    assert_eq!(to_raw_position(Real(PI), None, None, None).0, PI);
    assert_eq!(scale_down(Real(PI), None).0, PI);
    assert_eq!(scale_up(Real(PI), None).0, PI);
}

#[test]
fn scaling_uses_the_ratio() {
    assert_eq!(scale_down(Real(3.0), Some(Real(2.0))).0, 1.5);
    assert_eq!(scale_up(Real(3.0), Some(Real(2.0))).0, 6.0);
    assert_eq!(scale_down(Real(1.0), Some(Real(0.0))).0, f64::INFINITY);
}

#[test]
fn arrays_convert_axis_by_axis() {
    let calibration = Calibration {
        offsets: some([Some(-1.0), Some(1.0), None]),
        reduction: some([Some(2.0), None, Some(1.0)]),
        limits: [Some(bounds(0.0, 1.0)), Some(bounds(-1.0, 1.0)), None],
    };
    let raw = to_raw_positions(
        reals([PI, PI, PI]),
        calibration.limits,
        calibration.offsets,
        calibration.reduction,
    );
    assert_eq!(floats(raw), [0.0, 2.0, PI]);
    let back = to_physical_positions(raw, calibration.reduction, calibration.offsets);
    assert_eq!(floats(back), [1.0, 1.0, PI]);
}

// Controller over the simulated device

#[test]
fn fake_motor_check_default() {
    let motor = FakeMotorsController::<Real, 1>::default();

    assert_eq!(motor.offsets(), [None]);
    assert_eq!(motor.reduction(), [None]);
    assert_eq!(motor.limits(), [None]);
}

#[test]
fn check_with() {
    let motor = FakeMotorsController::<Real, 1>::new();

    assert_eq!(motor.offsets(), [None]);
    assert_eq!(motor.reduction(), [None]);
    assert_eq!(motor.limits(), [None]);

    let motor = motor.with_offsets([Some(Real(1.0))]);
    assert_eq!(motor.offsets(), [Some(Real(1.0))]);
    assert_eq!(motor.reduction(), [None]);
    assert_eq!(motor.limits(), [None]);

    let motor = motor.with_reduction([Some(Real(2.0))]);
    assert_eq!(motor.offsets(), [Some(Real(1.0))]);
    assert_eq!(motor.reduction(), [Some(Real(2.0))]);
    assert_eq!(motor.limits(), [None]);

    let motor = motor.with_limits([Some((Real(0.0), Real(1.0)).try_into().unwrap())]);
    assert_eq!(motor.offsets(), [Some(Real(1.0))]);
    assert_eq!(motor.reduction(), [Some(Real(2.0))]);
    assert_eq!(
        motor.limits(),
        [Some((Real(0.0), Real(1.0)).try_into().unwrap())]
    );

    let motor = FakeMotorsController::<Real, 1>::new()
        .with_offsets([Some(Real(1.0))])
        .with_limits([Some((Real(0.0), Real(1.0)).try_into().unwrap())]);
    assert_eq!(motor.offsets(), [Some(Real(1.0))]);
    assert_eq!(motor.reduction(), [None]);
    assert_eq!(
        motor.limits(),
        [Some((Real(0.0), Real(1.0)).try_into().unwrap())]
    );
}

#[test]
fn check_torque() {
    let mut motor = FakeMotorsController::<Real, 3>::default();

    let torques = motor.is_torque_on().unwrap();
    assert!(torques.iter().all(|&x| !x));

    motor.set_torque([true, false, true]).unwrap();
    let torques = motor.is_torque_on().unwrap();
    assert!(torques[0]);
    assert!(!torques[1]);
    assert!(torques[2]);

    motor.set_torque([false, true, false]).unwrap();
    let torques = motor.is_torque_on().unwrap();
    assert!(!torques[0]);
    assert!(torques[1]);
    assert!(!torques[2]);
}

#[test]
fn offset() {
    let mut motor =
        FakeMotorsController::<Real, 3>::new().with_offsets(some([Some(-1.0), Some(1.0), None]));

    motor.set_torque([true; 3]).unwrap();
    assert_eq!(floats(motor.get_current_position().unwrap()), [1.0, -1.0, 0.0]);

    motor.set_target_position(reals([0.0, 0.0, 0.0])).unwrap();
    assert_eq!(floats(motor.get_target_position().unwrap()), [0.0, 0.0, 0.0]);
    assert_eq!(floats(motor.get_current_position().unwrap()), [0.0, 0.0, 0.0]);

    let raw_current = motor.io().get_current_position().unwrap();
    assert_eq!(floats(raw_current), [-1.0, 1.0, 0.0]);
    let raw_target = motor.io().get_target_position().unwrap();
    assert_eq!(floats(raw_target), [-1.0, 1.0, 0.0]);
}

#[test]
fn reduction() {
    let mut motor = FakeMotorsController::<Real, 3>::new()
        .with_reduction(some([Some(-2.0), None, Some(1.0)]));

    motor.set_torque([true; 3]).unwrap();
    assert_eq!(floats(motor.get_current_position().unwrap()), [0.0, 0.0, 0.0]);

    motor.set_target_position(reals([1.0, 1.0, 1.0])).unwrap();
    assert_eq!(floats(motor.get_target_position().unwrap()), [1.0, 1.0, 1.0]);
    assert_eq!(floats(motor.get_current_position().unwrap()), [1.0, 1.0, 1.0]);

    let raw_current = motor.io().get_current_position().unwrap();
    assert_eq!(floats(raw_current), [-2.0, 1.0, 1.0]);
    let raw_target = motor.io().get_target_position().unwrap();
    assert_eq!(floats(raw_target), [-2.0, 1.0, 1.0]);
}

#[test]
fn limit() {
    let mut motor = FakeMotorsController::<Real, 3>::new().with_limits([
        Some((Real(0.0), Real(1.0)).try_into().unwrap()),
        Some((Real(-1.0), Real(1.0)).try_into().unwrap()),
        None,
    ]);

    motor.set_torque([true; 3]).unwrap();
    assert_eq!(floats(motor.get_current_position().unwrap()), [0.0, 0.0, 0.0]);

    motor.set_target_position(reals([-0.5, -0.5, -0.5])).unwrap();
    assert_eq!(floats(motor.get_target_position().unwrap()), [0.0, -0.5, -0.5]);
    assert_eq!(floats(motor.get_current_position().unwrap()), [0.0, -0.5, -0.5]);

    let raw_current = motor.io().get_current_position().unwrap();
    assert_eq!(floats(raw_current), [0.0, -0.5, -0.5]);
    let raw_target = motor.io().get_target_position().unwrap();
    assert_eq!(floats(raw_target), [0.0, -0.5, -0.5]);

    motor.set_target_position(reals([PI, PI, PI])).unwrap();
    assert_eq!(floats(motor.get_target_position().unwrap()), [1.0, 1.0, PI]);
    assert_eq!(floats(motor.get_current_position().unwrap()), [1.0, 1.0, PI]);

    let raw_current = motor.io().get_current_position().unwrap();
    assert_eq!(floats(raw_current), [1.0, 1.0, PI]);
    let raw_target = motor.io().get_target_position().unwrap();
    assert_eq!(floats(raw_target), [1.0, 1.0, PI]);
}

#[test]
fn offset_reduction_limit() {
    let mut motor = fixture();

    motor.set_torque([true; 3]).unwrap();
    assert_eq!(floats(motor.get_current_position().unwrap()), [1.0, -1.0, 0.0]);

    motor.set_target_position(reals([0.0, 0.0, 0.0])).unwrap();
    assert_eq!(floats(motor.get_target_position().unwrap()), [0.0, 0.0, 0.0]);
    assert_eq!(floats(motor.get_current_position().unwrap()), [0.0, 0.0, 0.0]);

    motor.set_target_position(reals([-0.5, -0.5, -0.5])).unwrap();
    assert_eq!(floats(motor.get_target_position().unwrap()), [0.0, -0.5, -0.5]);
    assert_eq!(floats(motor.get_current_position().unwrap()), [0.0, -0.5, -0.5]);

    let raw_current = motor.io().get_current_position().unwrap();
    assert_eq!(floats(raw_current), [-2.0, 0.5, -0.5]);

    motor.set_target_position(reals([PI, PI, PI])).unwrap();
    assert_eq!(floats(motor.get_target_position().unwrap()), [1.0, 1.0, PI]);
    assert_eq!(floats(motor.get_current_position().unwrap()), [1.0, 1.0, PI]);

    let raw_current = motor.io().get_current_position().unwrap();
    assert_eq!(floats(raw_current), [0.0, 2.0, PI]);
    let raw_target = motor.io().get_target_position().unwrap();
    assert_eq!(floats(raw_target), [0.0, 2.0, PI]);
}

#[test]
fn target_position() {
    let mut motors = fixture();

    motors.set_target_position(reals([0.0, 1.0, 2.0])).unwrap();
    assert_eq!(floats(motors.get_target_position().unwrap()), [0.0, 1.0, 2.0]);

    motors.set_target_position(reals([-1.0, 0.0, 1.0])).unwrap();
    assert_eq!(floats(motors.get_target_position().unwrap()), [0.0, 0.0, 1.0]);
}

#[test]
fn velocity_limit() {
    let mut motors = fixture();

    motors.set_velocity_limit(reals([1.0, 2.0, 3.0])).unwrap();
    assert_eq!(floats(motors.get_velocity_limit().unwrap()), [1.0, 2.0, 3.0]);
}

#[test]
fn torque_limit() {
    let mut motors = fixture();

    motors.set_torque_limit(reals([1.0, 2.0, 3.0])).unwrap();
    assert_eq!(floats(motors.get_torque_limit().unwrap()), [1.0, 2.0, 3.0]);
}

#[test]
fn pid() {
    let mut motors = fixture();

    let pids = [
        PID {
            p: Real(1.0),
            i: Real(2.0),
            d: Real(3.0),
        },
        PID {
            p: Real(4.0),
            i: Real(5.0),
            d: Real(6.0),
        },
        PID {
            p: Real(7.0),
            i: Real(8.0),
            d: Real(9.0),
        },
    ];
    motors.set_pid_gains(pids).unwrap();
    assert_eq!(motors.get_pid_gains().unwrap(), pids);
}

#[test]
fn limits_are_written_in_raw_units() {
    let mut motors = fixture();

    motors.set_velocity_limit(reals([1.0, 2.0, 3.0])).unwrap();
    assert_eq!(floats(motors.io().get_velocity_limit().unwrap()), [2.0, 2.0, 3.0]);
    motors.set_torque_limit(reals([0.5, 2.0, 3.0])).unwrap();
    assert_eq!(floats(motors.io().get_torque_limit().unwrap()), [1.0, 2.0, 3.0]);
}

#[test]
fn velocity_and_torque_are_divided_by_the_ratio() {
    let mut motors = fixture();
    motors.io().current_velocity = reals([4.0, 4.0, 4.0]);
    motors.io().current_torque = reals([-1.0, 3.0, 0.5]);

    assert_eq!(floats(motors.get_current_velocity().unwrap()), [2.0, 4.0, 4.0]);
    assert_eq!(floats(motors.get_current_torque().unwrap()), [-0.5, 3.0, 0.5]);
}

#[test]
fn unset_readings_stay_unset() {
    let mut motors = fixture();
    assert!(floats(motors.get_current_velocity().unwrap()).iter().all(|v| v.is_nan()));
    assert!(floats(motors.get_current_torque().unwrap()).iter().all(|v| v.is_nan()));
    assert!(motors.get_pid_gains().unwrap().iter().all(|g| g.p.0.is_nan()
        && g.i.0.is_nan()
        && g.d.0.is_nan()));
}

#[test]
fn target_with_feedback() {
    let mut motors = fixture();

    let fb = motors.set_target_position_fb(reals([0.5, 0.5, 0.5])).unwrap();
    assert_eq!(floats(fb), [1.0, -1.0, 0.0]);
    assert_eq!(floats(motors.io().get_target_position().unwrap()), [-1.0, 1.5, 0.5]);

    motors.set_torque([true, false, true]).unwrap();
    let fb = motors.set_target_position_fb(reals([PI, 0.25, -0.5])).unwrap();
    assert_eq!(floats(fb), [1.0, -1.0, -0.5]);
    assert_eq!(floats(motors.get_target_position().unwrap()), [1.0, 0.25, -0.5]);
}

#[test]
fn round_trip_with_offset_and_reduction() {
    let mut motor = FakeMotorsController::<Real, 1>::new()
        .with_offsets([Some(Real(-1.0))])
        .with_reduction([Some(Real(2.0))]);

    motor.set_target_position([Real(0.0)]).unwrap();
    assert_eq!(floats(motor.get_target_position().unwrap()), [0.0]);
    assert_eq!(floats(motor.io().get_target_position().unwrap()), [-2.0]);
}

#[test]
fn round_trip_with_offset_alone() {
    let mut motor = FakeMotorsController::<Real, 1>::new().with_offsets([Some(Real(-1.0))]);

    motor.set_target_position([Real(0.0)]).unwrap();
    assert_eq!(floats(motor.get_target_position().unwrap()), [0.0]);
    assert_eq!(floats(motor.io().get_target_position().unwrap()), [-1.0]);
}

#[test]
fn negative_ratio_shows_the_order_of_steps() {
    let mut motor = FakeMotorsController::<Real, 1>::new()
        .with_offsets([Some(Real(0.5))])
        .with_reduction([Some(Real(-2.0))])
        .with_limits([Some(bounds(0.0, 1.0))]);

    motor.set_target_position([Real(3.0)]).unwrap();
    assert_eq!(floats(motor.io().get_target_position().unwrap()), [-3.0]);
    assert_eq!(floats(motor.get_target_position().unwrap()), [1.0]);
}

#[test]
fn board_state_and_axis_sensors() {
    let mut motors = fixture();
    motors.set_torque([true; 3]).unwrap();
    motors.set_target_position(reals([0.5, 0.5, 0.5])).unwrap();

    assert_eq!(motors.get_board_state().unwrap(), 0);
    motors.set_board_state(7).unwrap();
    assert_eq!(motors.get_board_state().unwrap(), 0);
    assert_eq!(floats(motors.get_axis_sensors().unwrap()), [-1.0, 1.5, 0.5]);
}

// The simulated device

#[test]
fn check_default() {
    let mut motor = FakeMotorsIO::<Real, 1>::default();

    assert!(!motor.is_torque_on().unwrap()[0]);
    assert_eq!(floats(motor.get_current_position().unwrap()), [0.0]);
    assert_eq!(floats(motor.get_target_position().unwrap()), [0.0]);
}

#[test]
fn set_target() {
    let mut motor = FakeMotorsIO::<Real, 1>::default();

    // With torque off, the current position should not change
    motor.set_target_position(reals([0.5])).unwrap();
    assert_eq!(floats(motor.get_target_position().unwrap()), [0.5]);
    assert_eq!(floats(motor.get_current_position().unwrap()), [0.0]);

    // Enabling the torque
    motor.set_torque([true]).unwrap();
    assert!(motor.is_torque_on().unwrap()[0]);
    assert_eq!(floats(motor.get_current_position().unwrap()), [0.5]);
    assert_eq!(floats(motor.get_target_position().unwrap()), [0.5]);

    // Setting the target position
    motor.set_target_position(reals([0.25])).unwrap();
    assert_eq!(floats(motor.get_target_position().unwrap()), [0.25]);
    assert_eq!(floats(motor.get_current_position().unwrap()), [0.25]);
}

#[test]
fn multiple_fake() {
    let mut motors = FakeMotorsIO::<Real, 3>::default();
    motors.set_torque([true, false, true]).unwrap();
    assert_eq!(motors.is_torque_on().unwrap(), [true, false, true]);
}

#[test]
fn default_device_state() {
    let mut motors = FakeMotorsIO::<Real, 2>::default();
    assert_eq!(motors.is_torque_on().unwrap(), [false, false]);
    assert_eq!(floats(motors.get_current_position().unwrap()), [0.0, 0.0]);
    assert_eq!(floats(motors.get_target_position().unwrap()), [0.0, 0.0]);
    assert!(floats(motors.get_current_velocity().unwrap()).iter().all(|v| v.is_nan()));
    assert!(floats(motors.get_current_torque().unwrap()).iter().all(|v| v.is_nan()));
    assert_eq!(floats(motors.get_velocity_limit().unwrap()), [f64::INFINITY, f64::INFINITY]);
    assert_eq!(floats(motors.get_torque_limit().unwrap()), [f64::INFINITY, f64::INFINITY]);
    assert_eq!(floats(motors.get_axis_sensors().unwrap()), [0.0, 0.0]);
    assert_eq!(motors.get_board_state().unwrap(), 0);
}

#[test]
fn torque_off_freezes_the_position() {
    let mut motors = FakeMotorsIO::<Real, 2>::default();
    motors.set_torque([true, true]).unwrap();
    motors.set_target_position(reals([1.0, 2.0])).unwrap();
    motors.set_torque([false, true]).unwrap();
    assert_eq!(floats(motors.get_current_position().unwrap()), [1.0, 2.0]);

    motors.set_target_position(reals([3.0, 4.0])).unwrap();
    assert_eq!(floats(motors.get_current_position().unwrap()), [1.0, 4.0]);
    assert_eq!(floats(motors.get_target_position().unwrap()), [3.0, 4.0]);

    // torque already on: no snap; torque newly on: snap to the target
    motors.set_torque([true, true]).unwrap();
    assert_eq!(floats(motors.get_current_position().unwrap()), [3.0, 4.0]);
}

#[test]
fn device_feedback_is_the_position_after_the_write() {
    let mut motors = FakeMotorsIO::<Real, 2>::default();
    motors.set_torque([true, false]).unwrap();
    let fb = motors.set_target_position_fb(reals([1.0, 2.0])).unwrap();
    assert_eq!(floats(fb), [1.0, 0.0]);
    assert_eq!(floats(motors.get_target_position().unwrap()), [1.0, 2.0]);
}

#[test]
fn device_registers_by_name() {
    let mut motors = FakeMotorsIO::<Real, 1>::default();
    motors.set_velocity_limit(reals([2.0])).unwrap();
    motors.set_torque_limit(reals([3.0])).unwrap();
    assert_eq!(floats(motors.get_velocity_limit().unwrap()), [2.0]);
    assert_eq!(floats(motors.get_torque_limit().unwrap()), [3.0]);
    assert_ne!(Register::VelocityLimit, Register::TorqueLimit);
}

#[test]
fn registers_that_the_device_lacks() {
    let mut motors = fixture();
    let before = floats(motors.io().get_target_position().unwrap());

    let missing = |name: &str| MotorError::MissingRegister(name.to_string());
    assert_eq!(motors.get_target_torque(), Err(missing("target_torque")));
    assert_eq!(motors.set_target_torque(reals([1.0; 3])), Err(missing("target_torque")));
    assert_eq!(motors.get_target_velocity(), Err(missing("target_velocity")));
    assert_eq!(motors.set_target_velocity(reals([1.0; 3])), Err(missing("target_velocity")));
    assert_eq!(motors.get_control_mode(), Err(missing("control_mode")));
    assert_eq!(motors.set_control_mode([1; 3]), Err(missing("control_mode")));
    assert_eq!(
        motors.get_target_torque().unwrap_err().message(),
        "(missing register \"target_torque\")"
    );

    assert_eq!(floats(motors.io().get_target_position().unwrap()), before);
}

#[test]
fn register_names() {
    assert_eq!(Register::CurrentPosition.name(), "current_position");
    assert_eq!(Register::CurrentVelocity.name(), "current_velocity");
    assert_eq!(Register::CurrentTorque.name(), "current_torque");
    assert_eq!(Register::TargetPosition.name(), "target_position");
    assert_eq!(Register::VelocityLimit.name(), "velocity_limit");
    assert_eq!(Register::TorqueLimit.name(), "torque_limit");
    assert_eq!(Register::AxisSensors.name(), "axis_sensors");
    assert_eq!(Register::TargetTorque.name(), "target_torque");
    assert_eq!(Register::TargetVelocity.name(), "target_velocity");
    assert_eq!(
        Register::AxisSensors.missing(),
        MotorError::MissingRegister("axis_sensors".to_string())
    );
}

// A device that fails

#[derive(Clone, Debug)]
struct Broken;

fn down<V>() -> Result<V, MotorError> {
    Err(MotorError::Backend("bus down".to_string()))
}

impl RawMotorsIO<Real, 2> for Broken {
    fn torque_read(_: Self, _: Self, r: Result<[bool; 2], MotorError>) -> bool {
        r.is_err()
    }
    fn torque_written(_: Self, _: [bool; 2], _: Self, r: Result<(), MotorError>) -> bool {
        r.is_err()
    }
    fn register_read(_: Self, _: Register, _: Self, r: Result<[Real; 2], MotorError>) -> bool {
        r.is_err()
    }
    fn register_written(
        _: Self,
        _: Register,
        _: [Real; 2],
        _: Self,
        r: Result<(), MotorError>,
    ) -> bool {
        r.is_err()
    }
    fn target_written_with_feedback(
        _: Self,
        _: [Real; 2],
        _: Self,
        r: Result<[Real; 2], MotorError>,
    ) -> bool {
        r.is_err()
    }
    fn pid_read(_: Self, _: Self, r: Result<[PID<Real>; 2], MotorError>) -> bool {
        r.is_err()
    }
    fn pid_written(_: Self, _: [PID<Real>; 2], _: Self, r: Result<(), MotorError>) -> bool {
        r.is_err()
    }
    fn control_mode_read(_: Self, _: Self, r: Result<[u8; 2], MotorError>) -> bool {
        r.is_err()
    }
    fn control_mode_written(_: Self, _: [u8; 2], _: Self, r: Result<(), MotorError>) -> bool {
        r.is_err()
    }
    fn board_state_read(_: Self, _: Self, r: Result<u8, MotorError>) -> bool {
        r.is_err()
    }
    fn board_state_written(_: Self, _: u8, _: Self, r: Result<(), MotorError>) -> bool {
        r.is_err()
    }
    fn is_torque_on(&mut self) -> Result<[bool; 2], MotorError> {
        down()
    }
    fn set_torque(&mut self, _: [bool; 2]) -> Result<(), MotorError> {
        down()
    }
    fn get_current_position(&mut self) -> Result<[Real; 2], MotorError> {
        down()
    }
    fn get_current_velocity(&mut self) -> Result<[Real; 2], MotorError> {
        down()
    }
    fn get_current_torque(&mut self) -> Result<[Real; 2], MotorError> {
        down()
    }
    fn get_target_position(&mut self) -> Result<[Real; 2], MotorError> {
        down()
    }
    fn set_target_position(&mut self, _: [Real; 2]) -> Result<(), MotorError> {
        down()
    }
    fn get_target_torque(&mut self) -> Result<[Real; 2], MotorError> {
        down()
    }
    fn set_target_torque(&mut self, _: [Real; 2]) -> Result<(), MotorError> {
        down()
    }
    fn set_target_velocity(&mut self, _: [Real; 2]) -> Result<(), MotorError> {
        down()
    }
    fn get_target_velocity(&mut self) -> Result<[Real; 2], MotorError> {
        down()
    }
    fn set_control_mode(&mut self, _: [u8; 2]) -> Result<(), MotorError> {
        down()
    }
    fn get_control_mode(&mut self) -> Result<[u8; 2], MotorError> {
        down()
    }
    fn set_target_position_fb(&mut self, _: [Real; 2]) -> Result<[Real; 2], MotorError> {
        down()
    }
    fn get_velocity_limit(&mut self) -> Result<[Real; 2], MotorError> {
        Err(MotorError::MissingRegister("velocity_limit".to_string()))
    }
    fn set_velocity_limit(&mut self, _: [Real; 2]) -> Result<(), MotorError> {
        Err(MotorError::MissingRegister("velocity_limit".to_string()))
    }
    fn get_torque_limit(&mut self) -> Result<[Real; 2], MotorError> {
        down()
    }
    fn set_torque_limit(&mut self, _: [Real; 2]) -> Result<(), MotorError> {
        down()
    }
    fn get_pid_gains(&mut self) -> Result<[PID<Real>; 2], MotorError> {
        down()
    }
    fn set_pid_gains(&mut self, _: [PID<Real>; 2]) -> Result<(), MotorError> {
        down()
    }
    fn get_axis_sensors(&mut self) -> Result<[Real; 2], MotorError> {
        down()
    }
    fn get_board_state(&mut self) -> Result<u8, MotorError> {
        down()
    }
    fn set_board_state(&mut self, _: u8) -> Result<(), MotorError> {
        down()
    }
}

struct OverBroken {
    io: Broken,
}

impl MotorsController<Real, 2> for OverBroken {
    type IO = Broken;

    fn io_view(&self) -> Broken {
        self.io.clone()
    }
    fn calibration(&self) -> Calibration<Real, 2> {
        Calibration {
            offsets: self.offsets(),
            reduction: self.reduction(),
            limits: self.limits(),
        }
    }
    fn io(&mut self) -> &mut Broken {
        &mut self.io
    }
    fn offsets(&self) -> [Option<Real>; 2] {
        [Some(Real(1.0)), None]
    }
    fn reduction(&self) -> [Option<Real>; 2] {
        [Some(Real(2.0)), None]
    }
    fn limits(&self) -> [Option<Limit<Real>>; 2] {
        [None, None]
    }
}

#[test]
fn a_failure_of_the_device_is_returned_as_it_is() {
    let mut motors = OverBroken { io: Broken };
    let bus_down = MotorError::Backend("bus down".to_string());
    let missing = MotorError::MissingRegister("velocity_limit".to_string());

    assert_eq!(motors.is_torque_on(), Err(bus_down.clone()));
    assert_eq!(motors.set_torque([true, true]), Err(bus_down.clone()));
    assert_eq!(motors.get_current_position(), Err(bus_down.clone()));
    assert_eq!(motors.get_current_velocity(), Err(bus_down.clone()));
    assert_eq!(motors.get_current_torque(), Err(bus_down.clone()));
    assert_eq!(motors.get_target_position(), Err(bus_down.clone()));
    assert_eq!(motors.set_target_position(reals([0.0, 0.0])), Err(bus_down.clone()));
    assert_eq!(motors.set_target_position_fb(reals([0.0, 0.0])), Err(bus_down.clone()));
    assert_eq!(motors.get_velocity_limit(), Err(missing.clone()));
    assert_eq!(motors.set_velocity_limit(reals([0.0, 0.0])), Err(missing));
    assert_eq!(motors.get_torque_limit(), Err(bus_down.clone()));
    assert_eq!(motors.set_torque_limit(reals([0.0, 0.0])), Err(bus_down.clone()));
    assert_eq!(motors.get_pid_gains(), Err(bus_down.clone()));
    assert_eq!(motors.get_axis_sensors(), Err(bus_down.clone()));
    assert_eq!(motors.get_board_state(), Err(bus_down.clone()));
    assert_eq!(motors.get_target_torque(), Err(bus_down.clone()));
    assert_eq!(motors.set_target_torque(reals([0.0, 0.0])), Err(bus_down.clone()));
    assert_eq!(motors.get_target_velocity(), Err(bus_down.clone()));
    assert_eq!(motors.set_target_velocity(reals([0.0, 0.0])), Err(bus_down.clone()));
    assert_eq!(motors.get_control_mode(), Err(bus_down.clone()));
    assert_eq!(motors.set_control_mode([1, 1]), Err(bus_down.clone()));
    assert_eq!(motors.set_board_state(1), Err(bus_down));
}
