use girlboss::{ExitReport, JobReturnStatus};

#[test]
fn return_status_impl_from_unit_works() {
    let value = JobReturnStatus::from(());
    assert_eq!(value, JobReturnStatus::new(None, true));
}

#[test]
fn return_status_impl_from_bool_true_works() {
    let value = JobReturnStatus::from(true);
    assert_eq!(value, JobReturnStatus::new(None, true));
}

#[test]
fn return_status_impl_from_bool_false_works() {
    let value = JobReturnStatus::from(false);
    assert_eq!(value, JobReturnStatus::new(None, false));
}

#[test]
fn return_status_impl_from_str_works() {
    let value = JobReturnStatus::from("test");
    assert_eq!(value, JobReturnStatus::new(Some("test".to_string()), true));
}

#[test]
fn return_status_impl_from_string_works() {
    let value = JobReturnStatus::from("test".to_string());
    assert_eq!(value, JobReturnStatus::new(Some("test".to_string()), true));
}

#[test]
fn return_status_impl_from_exit_status_success_works() {
    let status = ExitReport { success: true, text: "exit status: 0".to_string() };
    let value = JobReturnStatus::from(status);
    assert_eq!(value, JobReturnStatus::new(None, true));
}

#[test]
fn return_status_impl_from_exit_status_failure_works() {
    let status = ExitReport { success: false, text: "exit status: 1".to_string() };
    let value = JobReturnStatus::from(status);
    assert_eq!(
        value,
        JobReturnStatus::new(Some("exit status: 1".to_string()), false),
    );
}

#[test]
fn return_status_impl_from_result_ok_works() {
    let value = JobReturnStatus::from(Ok::<_, String>("okyie"));
    assert_eq!(value, JobReturnStatus::new(Some("okyie".to_string()), true));
}

#[test]
fn return_status_impl_from_result_err_works() {
    let value = JobReturnStatus::from(Err::<(), _>("oopsie"));
    assert_eq!(value, JobReturnStatus::new(Some("oopsie".to_string()), false));
}

#[test]
fn return_status_impl_from_option_some_works() {
    let value = JobReturnStatus::from(Some("somethin"));
    assert_eq!(value, JobReturnStatus::new(Some("somethin".to_string()), true));
}

#[test]
fn return_status_impl_from_option_none_works() {
    let value = JobReturnStatus::from(None::<()>);
    assert_eq!(value, JobReturnStatus::new(None, false));
}
