use motorgroup::MotorError;
use motorgroup::MotorGroupError;

#[derive(Debug, PartialEq, Eq, Clone)]
struct FakeErr(&'static str);

#[test]
fn motor_group_error_with_result_and_first() {
    let errors = vec![FakeErr("a"), FakeErr("b")];

    let mg_err = MotorGroupError::with_result(errors.clone(), 42u32);

    // first() returns a reference to the first error
    assert_eq!(mg_err.first(), &errors[0]);

    // result() should return the provided result
    assert_eq!(mg_err.result(), &Some(42u32));

    // errors vector should be preserved
    assert_eq!(mg_err.errors.len(), 2);
}

#[test]
fn motor_group_error_with_empty_result() {
    let errors = vec![FakeErr("x")];

    let mg_err: MotorGroupError<FakeErr, ()> = MotorGroupError::with_empty_result(errors.clone());

    // No result available when using with_empty_result
    assert_eq!(mg_err.result(), &None);

    // Error list is present and first() works
    assert_eq!(mg_err.errors.len(), 1);
    assert_eq!(mg_err.first(), &errors[0]);
}

#[test]
fn motor_group_error_new_has_no_result() {
    let mg_err = MotorGroupError::new(vec![MotorError::Busy, MotorError::Port]);
    assert_eq!(mg_err.result(), &None::<()>);
    assert_eq!(mg_err.errors.len(), 2);
}

#[test]
fn busy_and_port_predicates() {
    let busy_only: MotorGroupError<MotorError> = MotorGroupError::new(vec![MotorError::Busy]);
    assert!(busy_only.has_busy_error());
    assert!(!busy_only.has_port_error());

    let port_only: MotorGroupError<MotorError> = MotorGroupError::new(vec![MotorError::Port]);
    assert!(!port_only.has_busy_error());
    assert!(port_only.has_port_error());

    let other: MotorGroupError<MotorError> =
        MotorGroupError::new(vec![MotorError::Other(7), MotorError::SetGearsetUnsupported]);
    assert!(!other.has_busy_error());
    assert!(!other.has_port_error());

    let mixed: MotorGroupError<MotorError> =
        MotorGroupError::new(vec![MotorError::Other(1), MotorError::Port, MotorError::Busy]);
    assert!(mixed.has_busy_error());
    assert!(mixed.has_port_error());
}

#[test]
fn first_returns_earliest_error() {
    let mg_err: MotorGroupError<MotorError> = MotorGroupError::new(vec![
        MotorError::Busy,
        MotorError::Port,
        MotorError::Other(3),
    ]);
    assert_eq!(mg_err.first(), &MotorError::Busy);
    assert_eq!(mg_err.into_first(), MotorError::Busy);
}
