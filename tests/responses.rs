use cms_tools::{check_password, check_success, user_exists_from, CheckResponse, Failure, Session, USERNAME_TAKEN};

fn check(success: u8, error: Option<&str>) -> CheckResponse {
    CheckResponse { success, error: error.map(String::from) }
}

#[test]
fn failure_codes() {
    assert_eq!(Failure::Unreachable.code(), 1);
    assert_eq!(Failure::Malformed.code(), 2);
    assert_eq!(Failure::Rejected.code(), 3);
}

#[test]
fn success_flag() {
    assert_eq!(check_success(1), Ok(()));
    assert_eq!(check_success(0), Err(Failure::Rejected));
    assert_eq!(check_success(2), Err(Failure::Rejected));
}

#[test]
fn user_exists_decisions() {
    assert_eq!(user_exists_from(&check(1, None)), Ok(false));
    assert_eq!(user_exists_from(&check(0, Some(USERNAME_TAKEN))), Ok(true));
    assert_eq!(user_exists_from(&check(0, Some("This username is not available"))), Ok(true));
    assert_eq!(user_exists_from(&check(0, Some("Invalid username"))), Ok(false));
    assert_eq!(user_exists_from(&check(0, None)), Err(Failure::Rejected));
}

#[test]
fn password_length() {
    assert!(check_password("hello"));
    assert!(!check_password("abcd"));
    assert!(!check_password(""));
    assert!(check_password("éé€"));
}

#[test]
fn login_records_session() {
    let mut s = Session::new(String::from("MyK_00L"));
    assert!(!s.logged);
    assert_eq!(s.record_login(Err(Failure::Unreachable)), Err(Failure::Unreachable));
    assert!(!s.logged);
    assert_eq!(s.record_login(Ok(0)), Err(Failure::Rejected));
    assert!(!s.logged);
    assert_eq!(s.record_login(Ok(1)), Ok(false));
    assert!(s.logged);
    assert_eq!(s.record_login(Ok(0)), Ok(true));
    assert!(s.logged);
    assert_eq!(s.username, "MyK_00L");
}
