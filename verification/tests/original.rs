use devtester::validation::{
    validate_application, validate_checkin, validate_credentials, ApplicationInput, AuthRequest,
    CheckinInput,
};
use uuid::Uuid;

#[test]
fn application_defaults_to_twelve_testers() {
    let input = ApplicationInput {
        app_name: "Test app".into(),
        playstore_link: "https://play.google.com/apps/testing/example".into(),
        required_testers: None,
    };
    assert_eq!(validate_application(&input).unwrap(), 12);
}

#[test]
fn checkin_requires_a_valid_day_and_feedback() {
    let input = CheckinInput {
        assignment_id: Uuid::new_v4().as_u128(),
        day_number: 15,
        feedback_text: String::new(),
        screenshot_url: None,
    };
    assert!(validate_checkin(&input).is_err());
}

#[test]
fn credentials_require_a_password_of_at_least_eight_characters() {
    let input = AuthRequest {
        email: "tester@example.com".into(),
        password: "short".into(),
    };
    assert!(validate_credentials(&input).is_err());
}
