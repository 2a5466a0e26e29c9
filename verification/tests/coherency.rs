use motor_toolbox_rs::coherency::coherent_results;
use motor_toolbox_rs::{CoherentResult, MissingRegisterErrror, MissingResisterErrror, MotorError};

#[test]
fn coherent_when_all_agree() {
    let readings: Vec<Result<bool, MotorError>> = vec![Ok(true), Ok(true), Ok(true)];
    assert_eq!(readings.coherent(), Ok(true));
}

#[test]
fn incoherent_when_one_differs() {
    let readings: Vec<Result<bool, MotorError>> = vec![Ok(true), Ok(false), Ok(true)];
    assert_eq!(readings.coherent(), Err(MotorError::Incoherent));
}

#[test]
fn incoherent_when_empty() {
    let readings: Vec<Result<bool, MotorError>> = vec![];
    assert_eq!(readings.coherent(), Err(MotorError::Incoherent));
}

#[test]
fn incoherent_when_a_source_failed() {
    let failed = MotorError::Backend("no answer".to_string());
    let readings: Vec<Result<u8, MotorError>> = vec![Ok(1), Err(failed.clone()), Ok(1)];
    assert_eq!(readings.coherent(), Err(MotorError::Incoherent));
    let readings: Vec<Result<u8, MotorError>> = vec![Err(failed), Ok(1), Ok(1)];
    assert_eq!(readings.coherent(), Err(MotorError::Incoherent));
}

#[test]
fn coherent_single_reading() {
    let readings: Vec<Result<i32, MotorError>> = vec![Ok(-7)];
    assert_eq!(readings.coherent(), Ok(-7));
}

#[test]
fn incoherent_when_the_last_differs() {
    let readings = [Ok(3u16), Ok(3), Ok(3), Ok(4)];
    assert_eq!(readings.coherent(), Err(MotorError::Incoherent));
}

#[test]
fn coherent_on_arrays_and_slices() {
    let readings = [Ok(0.75f64), Ok(0.75)];
    assert_eq!(coherent_results(&readings[..1]), Ok(0.75));
    assert_eq!(coherent_results::<f64>(&readings[..0]), Err(MotorError::Incoherent));
    assert_eq!(readings.coherent(), Ok(0.75));
}

#[test]
fn a_value_that_differs_from_itself_is_incoherent() {
    let readings = [Ok(f64::NAN), Ok(f64::NAN)];
    assert_eq!(readings.coherent(), Err(MotorError::Incoherent));
}

#[test]
fn missing_register_message() {
    let e = MissingRegisterErrror("torque".to_string());
    assert_eq!(e.message(), "(missing register \"torque\")");
}

#[test]
fn missing_register_as_error() {
    let e = MissingRegisterErrror("pid".to_string());
    assert_eq!(e.clone().into_error(), MotorError::MissingRegister("pid".to_string()));
    assert_eq!(e.into_error().message(), "(missing register \"pid\")");

    let e = MissingResisterErrror("torque_limit".to_string());
    assert_eq!(e.message(), "(missing register \"torque_limit\")");
    assert_eq!(e.into_error(), MotorError::MissingRegister("torque_limit".to_string()));
}

#[test]
fn missing_register_with_empty_name() {
    let e = MissingRegisterErrror(String::new());
    assert_eq!(e.message(), "(missing register \"\")");
}

#[test]
fn error_messages() {
    assert_eq!(MotorError::Incoherent.message(), "(incoherent values)");
    assert_eq!(
        MotorError::MissingRegister("board_state".to_string()).message(),
        "(missing register \"board_state\")"
    );
    assert_eq!(MotorError::Backend("timeout on bus 2".to_string()).message(), "timeout on bus 2");
    assert_eq!(MotorError::InvalidConfig.message(), "min must be less than max");
}
