use vstd::prelude::*;

use crate::error::AppError;
use crate::text::{char_count, contains_char, has_prefix, trim, trimmed};

verus! {

/// Length of the testing period, in days.
pub const TESTING_DAYS: i32 = 14;

/// Testers an application asks for when it names no number.
pub const DEFAULT_REQUIRED_TESTERS: i32 = 12;

/// Entries a credit history holds when the query names no limit.
pub const DEFAULT_HISTORY_LIMIT: i64 = 50;


/// E-mail and password given to register or log in.
pub struct AuthRequest {
    pub email: String,
    pub password: String,
}

/// An application submitted for closed testing.
pub struct ApplicationInput {
    pub app_name: String,
    pub playstore_link: String,
    pub required_testers: Option<i32>,
}

/// A tester's daily check-in.
pub struct CheckinInput {
    pub assignment_id: u128,
    pub day_number: i32,
    pub feedback_text: String,
    pub screenshot_url: Option<String>,
}

/// Whether credentials may be used: the e-mail holds an `@` and the password
/// has at least 8 characters.
pub open spec fn credentials_acceptable(input: AuthRequest) -> bool {
    input.email@.contains('@') && input.password@.len() >= 8
}

/// Checks credentials before they are used to register or log in.
pub fn validate_credentials(input: &AuthRequest) -> (r: Result<(), AppError>)
    ensures
        r is Ok <==> credentials_acceptable(*input),
        r matches Err(e) ==> (e matches AppError::BadRequest(m) && m@
            == "valid email and password of at least 8 characters are required"@),
{
    if !contains_char(input.email.as_str(), '@') || char_count(input.password.as_str()) < 8 {
        return Err(
            AppError::bad_request(
                "valid email and password of at least 8 characters are required",
            ),
        );
    }
    Ok(())
}

/// The number of testers an application asks for.
pub open spec fn requested_testers(input: ApplicationInput) -> i32 {
    match input.required_testers {
        Some(n) => n,
        None => DEFAULT_REQUIRED_TESTERS,
    }
}

/// What checking an application gives: the number of testers it needs, or the
/// message of the first rule it breaks.
pub open spec fn application_verdict(input: ApplicationInput) -> Result<i32, Seq<char>> {
    let name = trimmed(input.app_name@);
    let link = input.playstore_link@;
    if name.len() == 0 || name.len() > 120 {
        Err("app name must be between 1 and 120 characters"@)
    } else if !("https://"@.is_prefix_of(link) || "http://"@.is_prefix_of(link)) {
        Err("play store link must use http or https"@)
    } else if !(1 <= requested_testers(input) && requested_testers(input) <= 100) {
        Err("required testers must be between 1 and 100"@)
    } else {
        Ok(requested_testers(input))
    }
}

/// Checks an application before it is submitted, and gives the number of
/// testers it needs.
pub fn validate_application(input: &ApplicationInput) -> (r: Result<i32, AppError>)
    ensures
        r matches Ok(n) ==> application_verdict(*input) == Ok::<i32, Seq<char>>(n),
        r matches Err(e) ==> (e matches AppError::BadRequest(m) && application_verdict(*input)
            == Err::<i32, Seq<char>>(m@)),
{
    let name = trim(input.app_name.as_str());
    if name.is_empty() || char_count(name) > 120 {
        return Err(AppError::bad_request("app name must be between 1 and 120 characters"));
    }
    if !(has_prefix(input.playstore_link.as_str(), "https://") || has_prefix(
        input.playstore_link.as_str(),
        "http://",
    )) {
        return Err(AppError::bad_request("play store link must use http or https"));
    }
    let required_testers = match input.required_testers {
        Some(n) => n,
        None => DEFAULT_REQUIRED_TESTERS,
    };
    if !(1 <= required_testers && required_testers <= 100) {
        return Err(AppError::bad_request("required testers must be between 1 and 100"));
    }
    Ok(required_testers)
}

/// What checking a check-in gives: nothing, or the message of the first rule
/// it breaks.
pub open spec fn checkin_verdict(input: CheckinInput) -> Result<(), Seq<char>> {
    if !(1 <= input.day_number && input.day_number <= TESTING_DAYS) {
        Err("day number must be between 1 and 14"@)
    } else if trimmed(input.feedback_text@).len() == 0 || input.feedback_text@.len() > 5000 {
        Err("feedback must be between 1 and 5000 characters"@)
    } else {
        Ok(())
    }
}

/// Checks a daily check-in before it is recorded.
pub fn validate_checkin(input: &CheckinInput) -> (r: Result<(), AppError>)
    ensures
        r is Ok <==> checkin_verdict(*input) is Ok,
        r matches Err(e) ==> (e matches AppError::BadRequest(m) && checkin_verdict(*input)
            == Err::<(), Seq<char>>(m@)),
{
    if !(1 <= input.day_number && input.day_number <= TESTING_DAYS) {
        return Err(AppError::bad_request("day number must be between 1 and 14"));
    }
    if trim(input.feedback_text.as_str()).is_empty() || char_count(input.feedback_text.as_str()) > 5000 {
        return Err(AppError::bad_request("feedback must be between 1 and 5000 characters"));
    }
    Ok(())
}

/// The number of credit-history entries to return: the requested limit, 50 by
/// default, kept within 1 to 100.
pub open spec fn history_limit_of(limit: Option<i64>) -> i64 {
    let requested = match limit {
        Some(n) => n,
        None => DEFAULT_HISTORY_LIMIT,
    };
    if requested < 1 {
        1
    } else if requested > 100 {
        100
    } else {
        requested
    }
}

/// The number of credit-history entries to return.
pub fn history_limit(limit: Option<i64>) -> (n: i64)
    ensures
        n == history_limit_of(limit),
        1 <= n <= 100,
{
    let requested = match limit {
        Some(n) => n,
        None => DEFAULT_HISTORY_LIMIT,
    };
    if requested < 1 {
        1
    } else if requested > 100 {
        100
    } else {
        requested
    }
}

} // verus!
