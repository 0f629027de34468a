use devtester::error::AppError;
use devtester::validation::{
    history_limit, validate_application, validate_checkin, validate_credentials,
    ApplicationInput, AuthRequest, CheckinInput,
};

fn app(name: &str, link: &str, testers: Option<i32>) -> ApplicationInput {
    ApplicationInput {
        app_name: name.to_string(),
        playstore_link: link.to_string(),
        required_testers: testers,
    }
}

fn bad_request_message(result: Result<i32, AppError>) -> String {
    match result {
        Err(AppError::BadRequest(m)) => m,
        other => panic!("expected a bad request, got {:?}", other),
    }
}

#[test]
fn credentials_need_an_at_sign() {
    let input = AuthRequest { email: "tester.example.com".into(), password: "longenough".into() };
    match validate_credentials(&input) {
        Err(AppError::BadRequest(m)) => {
            assert_eq!(m, "valid email and password of at least 8 characters are required")
        }
        other => panic!("unexpected {:?}", other),
    }
}

#[test]
fn credentials_accept_eight_bytes() {
    let input = AuthRequest { email: "a@b".into(), password: "12345678".into() };
    assert!(validate_credentials(&input).is_ok());
    let seven = AuthRequest { email: "a@b".into(), password: "1234567".into() };
    assert!(validate_credentials(&seven).is_err());
}

#[test]
fn credentials_count_password_characters_not_bytes() {
    // four characters, eight bytes
    let short = AuthRequest { email: "tester@example.com".into(), password: "éééé".into() };
    assert!(validate_credentials(&short).is_err());
    let long = AuthRequest { email: "tester@example.com".into(), password: "éééééééé".into() };
    assert!(validate_credentials(&long).is_ok());
}

#[test]
fn application_name_counts_characters() {
    let name = "é".repeat(120);
    assert_eq!(validate_application(&app(&name, "https://x", None)).unwrap(), 12);
    let longer = "é".repeat(121);
    assert!(validate_application(&app(&longer, "https://x", None)).is_err());
}

#[test]
fn feedback_counts_characters() {
    assert!(validate_checkin(&checkin(3, &"é".repeat(5000))).is_ok());
    assert!(validate_checkin(&checkin(3, &"é".repeat(5001))).is_err());
}

#[test]
fn application_name_is_trimmed_and_bounded() {
    assert_eq!(
        bad_request_message(validate_application(&app("   ", "https://x", None))),
        "app name must be between 1 and 120 characters"
    );
    let long = "a".repeat(121);
    assert_eq!(
        bad_request_message(validate_application(&app(&long, "https://x", None))),
        "app name must be between 1 and 120 characters"
    );
    let padded = format!("  {}  ", "a".repeat(120));
    assert_eq!(validate_application(&app(&padded, "https://x", None)).unwrap(), 12);
}

#[test]
fn application_link_must_be_http() {
    assert_eq!(
        bad_request_message(validate_application(&app("App", "ftp://x", None))),
        "play store link must use http or https"
    );
    assert_eq!(validate_application(&app("App", "http://x", Some(3))).unwrap(), 3);
    // the link is checked as given, before trimming
    assert!(validate_application(&app("App", " https://x", None)).is_err());
}

#[test]
fn application_testers_between_one_and_a_hundred() {
    for n in [0, -1, 101] {
        assert_eq!(
            bad_request_message(validate_application(&app("App", "https://x", Some(n)))),
            "required testers must be between 1 and 100"
        );
    }
    assert_eq!(validate_application(&app("App", "https://x", Some(1))).unwrap(), 1);
    assert_eq!(validate_application(&app("App", "https://x", Some(100))).unwrap(), 100);
}

fn checkin(day: i32, feedback: &str) -> CheckinInput {
    CheckinInput {
        assignment_id: 7,
        day_number: day,
        feedback_text: feedback.to_string(),
        screenshot_url: None,
    }
}

fn checkin_message(input: &CheckinInput) -> String {
    match validate_checkin(input) {
        Err(AppError::BadRequest(m)) => m,
        other => panic!("unexpected {:?}", other),
    }
}

#[test]
fn checkin_day_within_testing_period() {
    assert_eq!(checkin_message(&checkin(0, "fine")), "day number must be between 1 and 14");
    assert_eq!(checkin_message(&checkin(15, "fine")), "day number must be between 1 and 14");
    assert!(validate_checkin(&checkin(1, "fine")).is_ok());
    assert!(validate_checkin(&checkin(14, "fine")).is_ok());
}

#[test]
fn checkin_feedback_not_blank_nor_too_long() {
    assert_eq!(
        checkin_message(&checkin(3, " \t\n")),
        "feedback must be between 1 and 5000 characters"
    );
    assert_eq!(
        checkin_message(&checkin(3, &"x".repeat(5001))),
        "feedback must be between 1 and 5000 characters"
    );
    assert!(validate_checkin(&checkin(3, &"x".repeat(5000))).is_ok());
}

#[test]
fn history_limit_defaults_and_clamps() {
    assert_eq!(history_limit(None), 50);
    assert_eq!(history_limit(Some(0)), 1);
    assert_eq!(history_limit(Some(-3)), 1);
    assert_eq!(history_limit(Some(20)), 20);
    assert_eq!(history_limit(Some(500)), 100);
}
