use devtester::auth::authenticated_user;
use devtester::checkin::{create_checkin, CheckinFlow};
use devtester::error::{AppError, DbFailure};
use devtester::flow::{Command, CreditReason, Reply, APP_SUBMISSION_COST, CHECKIN_REWARD, REGISTRATION_BONUS};
use devtester::joining::{join_application, JoinFlow};
use devtester::queries::{
    application_progress, application_report, available_applications, credit_balance,
    credit_history, packages, QueryFlow,
};
use devtester::register::{login, register, LoginFlow, RegisterFlow};
use devtester::submission::{submit_application, SubmissionFlow};
use devtester::validation::{ApplicationInput, AuthRequest, CheckinInput};

fn now() -> i64 {
    std::time::SystemTime::now()
        .duration_since(std::time::UNIX_EPOCH)
        .unwrap()
        .as_secs() as i64
}

const SECRET: &str = "test secret";

fn credentials(email: &str, password: &str) -> AuthRequest {
    AuthRequest { email: email.to_string(), password: password.to_string() }
}

#[test]
fn registration_runs_to_an_access_token() {
    let (flow, command) = register(credentials("  New@Example.com ", "password123"), SECRET.to_string());
    assert!(matches!(command, Command::Begin));
    let (flow, command) = flow.step(Reply::Done);
    let hash = match command {
        Command::InsertUser { email, password_hash, credits_balance } => {
            assert_eq!(email, "new@example.com");
            assert_eq!(credits_balance, REGISTRATION_BONUS);
            assert_eq!(credits_balance, 50);
            password_hash
        }
        other => panic!("unexpected {:?}", other),
    };
    let (flow, command) =
        flow.step(Reply::User { id: 9, password_hash: hash, credits_balance: 50 });
    match command {
        Command::RecordCredit { user_id, amount, reason } => {
            assert_eq!(user_id, 9);
            assert_eq!(amount, 50);
            assert_eq!(reason, CreditReason::RegistrationBonus);
            assert_eq!(reason.kind(), "bonus");
            assert_eq!(reason.description(), "Registration bonus");
        }
        other => panic!("unexpected {:?}", other),
    }
    let (flow, command) = flow.step(Reply::Done);
    assert!(matches!(command, Command::Commit));
    let (flow, command) = flow.step(Reply::Done);
    assert!(matches!(command, Command::ReadClock));
    let (flow, command) = flow.step(Reply::Clock(now()));
    match command {
        Command::RespondAuth { status, access_token, user_id, credits_balance } => {
            assert_eq!(status, 201);
            let header = format!("Bearer {}", access_token);
            assert_eq!(authenticated_user(Some(&header), SECRET, now() as u64).unwrap(), 9);
            assert_eq!(user_id, 9);
            assert_eq!(credits_balance, 50);
        }
        other => panic!("unexpected {:?}", other),
    }
    assert!(matches!(flow, RegisterFlow::Finished));
    let (_, command) = flow.step(Reply::Done);
    assert!(matches!(command, Command::Fail(AppError::Internal(m)) if m == "unexpected reply"));
}

#[test]
fn registration_refuses_bad_credentials_and_taken_addresses() {
    let (flow, command) = register(credentials("nobody", "password123"), SECRET.to_string());
    assert!(matches!(flow, RegisterFlow::Finished));
    assert!(matches!(command, Command::Fail(AppError::BadRequest(_))));

    let (flow, _) = register(credentials("a@b.c", "password123"), SECRET.to_string());
    let (flow, _) = flow.step(Reply::Done);
    let (flow, command) = flow.step(Reply::Failed(DbFailure {
        unique_violation: true,
        detail: "duplicate key".into(),
    }));
    assert!(matches!(flow, RegisterFlow::Finished));
    assert!(matches!(command, Command::Fail(AppError::Conflict(m)) if m == "resource already exists"));
}

#[test]
fn login_checks_the_stored_hash() {
    let hash = devtester::password::hash_password("password123").unwrap();

    let (flow, command) = login(credentials(" A@B.C", "password123"), SECRET.to_string());
    assert!(matches!(command, Command::FindUserByEmail { ref email } if email == "a@b.c"));
    let (flow, command) =
        flow.step(Reply::User { id: 4, password_hash: hash.clone(), credits_balance: 70 });
    assert!(matches!(command, Command::ReadClock));
    let (_, command) = flow.step(Reply::Clock(now()));
    assert!(matches!(
        command,
        Command::RespondAuth { status: 200, user_id: 4, credits_balance: 70, .. }
    ));

    let (flow, _) = login(credentials("a@b.c", "wrongpassword"), SECRET.to_string());
    let (flow, command) = flow.step(Reply::User { id: 4, password_hash: hash, credits_balance: 70 });
    assert!(matches!(flow, LoginFlow::Finished));
    assert!(matches!(command, Command::Fail(AppError::Unauthorized)));

    let (flow, _) = login(credentials("a@b.c", "password123"), SECRET.to_string());
    let (_, command) = flow.step(Reply::Missing);
    assert!(matches!(command, Command::Fail(AppError::Unauthorized)));

    let (flow, _) = login(credentials("a@b.c", "password123"), SECRET.to_string());
    let (_, command) =
        flow.step(Reply::User { id: 4, password_hash: "garbage".into(), credits_balance: 0 });
    assert!(matches!(command, Command::Fail(AppError::Internal(_))));
}

fn application() -> ApplicationInput {
    ApplicationInput {
        app_name: "  My App ".into(),
        playstore_link: "https://play.google.com/apps/testing/my.app ".into(),
        required_testers: Some(20),
    }
}

#[test]
fn submission_charges_and_records_the_cost() {
    let (flow, command) = submit_application(5, application());
    assert!(matches!(command, Command::Begin));
    let (flow, command) = flow.step(Reply::Done);
    assert!(matches!(command, Command::ChargeCredits { user_id: 5, amount: 100 }));
    let (flow, command) = flow.step(Reply::RowsAffected(1));
    match command {
        Command::InsertApplication { developer_id, app_name, playstore_link, required_testers } => {
            assert_eq!(developer_id, 5);
            assert_eq!(app_name, "My App");
            assert_eq!(playstore_link, "https://play.google.com/apps/testing/my.app");
            assert_eq!(required_testers, 20);
        }
        other => panic!("unexpected {:?}", other),
    }
    let (flow, command) = flow.step(Reply::NewId(77));
    match command {
        Command::RecordCredit { user_id, amount, reason } => {
            assert_eq!(user_id, 5);
            assert_eq!(amount, -APP_SUBMISSION_COST);
            assert_eq!(reason.kind(), "spent");
            assert_eq!(reason.description(), "Application submission");
        }
        other => panic!("unexpected {:?}", other),
    }
    let (flow, command) = flow.step(Reply::Done);
    assert!(matches!(command, Command::FetchApplication { application_id: 77 }));
    let (flow, command) = flow.step(Reply::Found);
    assert!(matches!(command, Command::Commit));
    let (flow, command) = flow.step(Reply::Done);
    assert!(matches!(command, Command::RespondWithResult { status: 201 }));
    assert!(matches!(flow, SubmissionFlow::Finished));
}

#[test]
fn submission_without_credits_is_a_conflict() {
    let (flow, _) = submit_application(5, application());
    let (flow, _) = flow.step(Reply::Done);
    let (flow, command) = flow.step(Reply::RowsAffected(0));
    assert!(matches!(command, Command::Fail(AppError::Conflict(m)) if m == "insufficient credits"));
    assert!(matches!(flow, SubmissionFlow::Finished));
}

#[test]
fn invalid_submission_is_refused_before_any_work() {
    let mut input = application();
    input.required_testers = Some(0);
    let (flow, command) = submit_application(5, input);
    assert!(matches!(flow, SubmissionFlow::Finished));
    assert!(matches!(command, Command::Fail(AppError::BadRequest(_))));
}

#[test]
fn joining_respects_ownership_and_capacity() {
    let (flow, command) = join_application(3, 10);
    assert!(matches!(command, Command::Begin));
    let (flow, command) = flow.step(Reply::Done);
    assert!(matches!(command, Command::LockApplication { application_id: 10 }));
    let (_, command) =
        flow.step(Reply::Slots { developer_id: 3, required_testers: 12, active_testers: 0 });
    assert!(matches!(command,
        Command::Fail(AppError::BadRequest(m)) if m == "developers cannot test their own app"));

    let (flow, _) = join_application(3, 10);
    let (flow, _) = flow.step(Reply::Done);
    let (_, command) =
        flow.step(Reply::Slots { developer_id: 8, required_testers: 12, active_testers: 12 });
    assert!(matches!(command,
        Command::Fail(AppError::Conflict(m)) if m == "application already has enough testers"));

    let (flow, _) = join_application(3, 10);
    let (flow, _) = flow.step(Reply::Done);
    let (_, command) = flow.step(Reply::Missing);
    assert!(matches!(command, Command::Fail(AppError::NotFound)));

    let (flow, _) = join_application(3, 10);
    let (flow, _) = flow.step(Reply::Done);
    let (flow, command) =
        flow.step(Reply::Slots { developer_id: 8, required_testers: 12, active_testers: 11 });
    assert!(matches!(command, Command::InsertAssignment { application_id: 10, tester_id: 3 }));
    let (flow, command) = flow.step(Reply::Found);
    assert!(matches!(command, Command::RefreshApplicationStatus { application_id: 10 }));
    let (flow, command) = flow.step(Reply::Done);
    assert!(matches!(command, Command::Commit));
    let (flow, command) = flow.step(Reply::Done);
    assert!(matches!(command, Command::RespondWithResult { status: 201 }));
    assert!(matches!(flow, JoinFlow::Finished));
}

fn daily(feedback: &str) -> CheckinInput {
    CheckinInput {
        assignment_id: 21,
        day_number: 2,
        feedback_text: feedback.to_string(),
        screenshot_url: Some("  https://img/1.png ".into()),
    }
}

#[test]
fn checkin_rewards_and_records_the_reward() {
    let (flow, command) = create_checkin(6, daily("  works well  "));
    assert!(matches!(command, Command::Begin));
    let (flow, command) = flow.step(Reply::Done);
    assert!(matches!(command, Command::FindActiveAssignment { assignment_id: 21, tester_id: 6 }));
    let (flow, command) = flow.step(Reply::Exists(true));
    match command {
        Command::InsertCheckin { assignment_id, day_number, feedback_text, screenshot_url } => {
            assert_eq!(assignment_id, 21);
            assert_eq!(day_number, 2);
            assert_eq!(feedback_text, "works well");
            assert_eq!(screenshot_url.as_deref(), Some("https://img/1.png"));
        }
        other => panic!("unexpected {:?}", other),
    }
    let (flow, command) = flow.step(Reply::Found);
    assert!(matches!(command, Command::AddCredits { user_id: 6, amount: 10 }));
    let (flow, command) = flow.step(Reply::Done);
    match command {
        Command::RecordCredit { user_id, amount, reason } => {
            assert_eq!(user_id, 6);
            assert_eq!(amount, CHECKIN_REWARD);
            assert_eq!(reason.kind(), "earned");
            assert_eq!(reason.description(), "Verified daily check-in");
        }
        other => panic!("unexpected {:?}", other),
    }
    let (flow, command) = flow.step(Reply::Done);
    assert!(matches!(command, Command::Commit));
    let (flow, command) = flow.step(Reply::Done);
    assert!(matches!(command, Command::RespondWithResult { status: 201 }));
    assert!(matches!(flow, CheckinFlow::Finished));
}

#[test]
fn checkin_on_someone_elses_assignment_is_not_found() {
    let (flow, _) = create_checkin(6, daily("ok"));
    let (flow, _) = flow.step(Reply::Done);
    let (flow, command) = flow.step(Reply::Exists(false));
    assert!(matches!(command, Command::Fail(AppError::NotFound)));
    assert!(matches!(flow, CheckinFlow::Finished));
}

#[test]
fn read_only_requests() {
    let (flow, command) = credit_balance(2);
    assert!(matches!(command, Command::FetchBalance { user_id: 2 }));
    let (_, command) = flow.step(Reply::Missing);
    assert!(matches!(command, Command::Fail(AppError::Unauthorized)));

    let (flow, command) = credit_balance(2);
    assert!(matches!(command, Command::FetchBalance { user_id: 2 }));
    let (_, command) = flow.step(Reply::Found);
    assert!(matches!(command, Command::RespondWithResult { status: 200 }));

    let (flow, command) = credit_history(2, Some(1000));
    assert!(matches!(command, Command::FetchHistory { user_id: 2, limit: 100 }));
    let (_, command) = flow.step(Reply::Found);
    assert!(matches!(command, Command::RespondWithResult { status: 200 }));

    let (_, command) = packages();
    assert!(matches!(command, Command::FetchPackages));
    let (_, command) = available_applications(2);
    assert!(matches!(command, Command::FetchAvailable { user_id: 2 }));

    let (flow, command) = application_progress(2, 30);
    assert!(matches!(command, Command::FetchProgress { application_id: 30, developer_id: 2 }));
    let (_, command) = flow.step(Reply::Missing);
    assert!(matches!(command, Command::Fail(AppError::NotFound)));

    let (flow, command) = application_report(2, 30);
    assert!(matches!(command, Command::CheckOwnership { application_id: 30, developer_id: 2 }));
    let (_, command) = flow.step(Reply::Exists(false));
    assert!(matches!(command, Command::Fail(AppError::NotFound)));

    let (flow, _) = application_report(2, 30);
    let (flow, command) = flow.step(Reply::Exists(true));
    assert!(matches!(command, Command::FetchReport { application_id: 30 }));
    let (flow, command) = flow.step(Reply::Found);
    assert!(matches!(command, Command::RespondWithResult { status: 200 }));
    assert!(matches!(flow, QueryFlow::Finished));
}

#[test]
fn database_failure_ends_any_flow() {
    let (flow, _) = credit_history(2, None);
    let (flow, command) = flow.step(Reply::Failed(DbFailure {
        unique_violation: false,
        detail: "timeout".into(),
    }));
    assert!(matches!(command, Command::Fail(AppError::Internal(m)) if m == "timeout"));
    assert!(matches!(flow, QueryFlow::Finished));
}

#[test]
fn login_in_another_case_looks_up_the_registered_address() {
    let (flow, _) = register(credentials("Tester@Example.com", "password123"), SECRET.to_string());
    let (_, command) = flow.step(Reply::Done);
    let stored = match command {
        Command::InsertUser { email, .. } => email,
        other => panic!("unexpected {:?}", other),
    };
    let (_, command) = login(credentials("  tester@EXAMPLE.COM ", "password123"), SECRET.to_string());
    match command {
        Command::FindUserByEmail { email } => assert_eq!(email, stored),
        other => panic!("unexpected {:?}", other),
    }
}
