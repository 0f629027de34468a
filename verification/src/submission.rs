use vstd::prelude::*;

use crate::error::AppError;
use crate::flow::{
    db_failed, fails_bad_request, fails_conflict, fails_with_db_error, is_unexpected, responds_with_result,
    unexpected, Command, CreditReason, Reply, APP_SUBMISSION_COST,
};
use crate::text::{trim, trimmed};
use crate::validation::{application_verdict, validate_application, ApplicationInput};
use vstd::string::*;

verus! {

/// Where the submission of an application stands.
pub enum SubmissionFlow {
    /// Waiting for the transaction to open.
    AwaitBegin {
        developer_id: u128,
        app_name: String,
        playstore_link: String,
        required_testers: i32,
    },
    /// Waiting to learn whether the submission cost was charged.
    AwaitCharge {
        developer_id: u128,
        app_name: String,
        playstore_link: String,
        required_testers: i32,
    },
    /// Waiting for the new application's id.
    AwaitApplicationId { developer_id: u128 },
    /// Waiting for the charge to reach the ledger.
    AwaitLedger { application_id: u128 },
    /// Waiting for the stored application.
    AwaitApplication,
    /// Waiting for the commit.
    AwaitCommit,
    /// Answered.
    Finished,
}

/// How a submission starts: an application that breaks a rule is refused
/// with that rule's message; a valid one opens a transaction, holding the
/// trimmed name and link and the number of testers it needs.
pub open spec fn submission_started(
    developer_id: u128,
    input: ApplicationInput,
    s: SubmissionFlow,
    c: Command,
) -> bool {
    match application_verdict(input) {
        Ok(n) => {
            &&& s matches SubmissionFlow::AwaitBegin {
                developer_id: d,
                app_name,
                playstore_link,
                required_testers,
            }
            &&& d == developer_id
            &&& app_name@ == trimmed(input.app_name@)
            &&& playstore_link@ == trimmed(input.playstore_link@)
            &&& required_testers == n
            &&& c is Begin
        },
        Err(m) => s is Finished && fails_bad_request(c, m),
    }
}

/// The step once the charge is known: unless exactly one balance was charged
/// the submission is refused for insufficient credits; otherwise the
/// application is stored.
pub open spec fn charge_settled(
    developer_id: u128,
    app_name: String,
    playstore_link: String,
    required_testers: i32,
    rows: u64,
    s2: SubmissionFlow,
    c: Command,
) -> bool {
    if rows != 1 {
        s2 is Finished && fails_conflict(c, "insufficient credits"@)
    } else {
        &&& s2 == SubmissionFlow::AwaitApplicationId { developer_id }
        &&& c == Command::InsertApplication {
            developer_id,
            app_name,
            playstore_link,
            required_testers,
        }
    }
}

/// A submission step once the flow is waiting for a reply.
pub open spec fn submission_advanced(
    s: SubmissionFlow,
    r: Reply,
    s2: SubmissionFlow,
    c: Command,
) -> bool {
    match s {
        SubmissionFlow::AwaitBegin { developer_id, app_name, playstore_link, required_testers } =>
            if r is Done {
            &&& s2 == SubmissionFlow::AwaitCharge {
                developer_id,
                app_name,
                playstore_link,
                required_testers,
            }
            &&& c == Command::ChargeCredits { user_id: developer_id, amount: APP_SUBMISSION_COST }
        } else {
            s2 is Finished && is_unexpected(c)
        },
        SubmissionFlow::AwaitCharge { developer_id, app_name, playstore_link, required_testers } =>
            match r {
            Reply::RowsAffected(rows) => charge_settled(
                developer_id,
                app_name,
                playstore_link,
                required_testers,
                rows,
                s2,
                c,
            ),
            _ => s2 is Finished && is_unexpected(c),
        },
        SubmissionFlow::AwaitApplicationId { developer_id } => match r {
            Reply::NewId(application_id) => {
                &&& s2 == SubmissionFlow::AwaitLedger { application_id }
                &&& c matches Command::RecordCredit { user_id, amount, reason }
                &&& user_id == developer_id
                &&& amount == -APP_SUBMISSION_COST
                &&& reason == CreditReason::ApplicationSubmission
            },
            _ => s2 is Finished && is_unexpected(c),
        },
        SubmissionFlow::AwaitLedger { application_id } => if r is Done {
            s2 is AwaitApplication && c == Command::FetchApplication { application_id }
        } else {
            s2 is Finished && is_unexpected(c)
        },
        SubmissionFlow::AwaitApplication => if r is Found {
            s2 is AwaitCommit && c is Commit
        } else {
            s2 is Finished && is_unexpected(c)
        },
        SubmissionFlow::AwaitCommit => s2 is Finished && if r is Done {
            responds_with_result(c, 201)
        } else {
            is_unexpected(c)
        },
        SubmissionFlow::Finished => s2 is Finished && is_unexpected(c),
    }
}

/// One submission step.
pub open spec fn submission_next(s: SubmissionFlow, r: Reply, s2: SubmissionFlow, c: Command) -> bool {
    if s is Finished {
        s2 is Finished && is_unexpected(c)
    } else if r is Failed {
        s2 is Finished && (r matches Reply::Failed(f) && fails_with_db_error(c, f))
    } else {
        submission_advanced(s, r, s2, c)
    }
}

/// Starts submitting an application for the developer.
pub fn submit_application(developer_id: u128, input: ApplicationInput) -> (res: (
    SubmissionFlow,
    Command,
))
    ensures
        submission_started(developer_id, input, res.0, res.1),
{
    match validate_application(&input) {
        Err(e) => (SubmissionFlow::Finished, Command::Fail(e)),
        Ok(required_testers) => {
            let app_name = String::from_str(trim(input.app_name.as_str()));
            let playstore_link = String::from_str(trim(input.playstore_link.as_str()));
            (
                SubmissionFlow::AwaitBegin {
                    developer_id,
                    app_name,
                    playstore_link,
                    required_testers,
                },
                Command::Begin,
            )
        },
    }
}

impl SubmissionFlow {
    /// Takes the reply to the last command and gives the next one.
    pub fn step(self, reply: Reply) -> (res: (SubmissionFlow, Command))
        ensures
            submission_next(self, reply, res.0, res.1),
    {
        match (self, reply) {
            (SubmissionFlow::Finished, _) => (SubmissionFlow::Finished, unexpected()),
            (_, Reply::Failed(f)) => (SubmissionFlow::Finished, db_failed(f)),
            (
                SubmissionFlow::AwaitBegin { developer_id, app_name, playstore_link, required_testers },
                Reply::Done,
            ) => (
                SubmissionFlow::AwaitCharge {
                    developer_id,
                    app_name,
                    playstore_link,
                    required_testers,
                },
                Command::ChargeCredits { user_id: developer_id, amount: APP_SUBMISSION_COST },
            ),
            (
                SubmissionFlow::AwaitCharge { developer_id, app_name, playstore_link, required_testers },
                Reply::RowsAffected(rows),
            ) => {
                if rows != 1 {
                    (SubmissionFlow::Finished, Command::Fail(AppError::conflict("insufficient credits")))
                } else {
                    (
                        SubmissionFlow::AwaitApplicationId { developer_id },
                        Command::InsertApplication {
                            developer_id,
                            app_name,
                            playstore_link,
                            required_testers,
                        },
                    )
                }
            },
            (SubmissionFlow::AwaitApplicationId { developer_id }, Reply::NewId(application_id)) => (
                SubmissionFlow::AwaitLedger { application_id },
                Command::RecordCredit {
                    user_id: developer_id,
                    amount: -APP_SUBMISSION_COST,
                    reason: CreditReason::ApplicationSubmission,
                },
            ),
            (SubmissionFlow::AwaitLedger { application_id }, Reply::Done) => (
                SubmissionFlow::AwaitApplication,
                Command::FetchApplication { application_id },
            ),
            (SubmissionFlow::AwaitApplication, Reply::Found) => (
                SubmissionFlow::AwaitCommit,
                Command::Commit,
            ),
            (SubmissionFlow::AwaitCommit, Reply::Done) => (
                SubmissionFlow::Finished,
                Command::RespondWithResult { status: 201 },
            ),
            _ => (SubmissionFlow::Finished, unexpected()),
        }
    }
}

} // verus!
