use vstd::prelude::*;

use crate::error::AppError;
use crate::flow::{
    db_failed, fails_bad_request, fails_with, fails_with_db_error, is_unexpected,
    responds_with_result, unexpected, Command, CreditReason, Reply, CHECKIN_REWARD,
};
use crate::text::{trim, trimmed};
use crate::validation::{checkin_verdict, validate_checkin, CheckinInput};
use vstd::string::*;

verus! {

/// Where a daily check-in stands.
pub enum CheckinFlow {
    /// Waiting for the transaction to open.
    AwaitBegin {
        tester_id: u128,
        assignment_id: u128,
        day_number: i32,
        feedback_text: String,
        screenshot_url: Option<String>,
    },
    /// Waiting to learn whether the assignment is the tester's and active.
    AwaitAssignment {
        tester_id: u128,
        assignment_id: u128,
        day_number: i32,
        feedback_text: String,
        screenshot_url: Option<String>,
    },
    /// Waiting for the recorded check-in.
    AwaitCheckin { tester_id: u128 },
    /// Waiting for the reward to reach the balance.
    AwaitReward { tester_id: u128 },
    /// Waiting for the reward to reach the ledger.
    AwaitLedger,
    /// Waiting for the commit.
    AwaitCommit,
    /// Answered.
    Finished,
}

/// `url` trimmed, when there is one.
pub open spec fn trimmed_option(url: Option<String>) -> Option<Seq<char>> {
    match url {
        Some(u) => Some(trimmed(u@)),
        None => None,
    }
}

/// The view of an optional string.
pub open spec fn option_view(url: Option<String>) -> Option<Seq<char>> {
    match url {
        Some(u) => Some(u@),
        None => None,
    }
}

/// How a check-in starts: one that breaks a rule is refused with that rule's
/// message; a valid one opens a transaction, holding the trimmed feedback and
/// screenshot link.
pub open spec fn checkin_started(
    tester_id: u128,
    input: CheckinInput,
    s: CheckinFlow,
    c: Command,
) -> bool {
    match checkin_verdict(input) {
        Ok(_) => {
            &&& s matches CheckinFlow::AwaitBegin {
                tester_id: t,
                assignment_id,
                day_number,
                feedback_text,
                screenshot_url,
            }
            &&& t == tester_id
            &&& assignment_id == input.assignment_id
            &&& day_number == input.day_number
            &&& feedback_text@ == trimmed(input.feedback_text@)
            &&& option_view(screenshot_url) == trimmed_option(input.screenshot_url)
            &&& c is Begin
        },
        Err(m) => s is Finished && fails_bad_request(c, m),
    }
}

/// A check-in step once the flow is waiting for a reply.
pub open spec fn checkin_advanced(s: CheckinFlow, r: Reply, s2: CheckinFlow, c: Command) -> bool {
    match s {
        CheckinFlow::AwaitBegin {
            tester_id,
            assignment_id,
            day_number,
            feedback_text,
            screenshot_url,
        } => if r is Done {
            &&& s2 == CheckinFlow::AwaitAssignment {
                tester_id,
                assignment_id,
                day_number,
                feedback_text,
                screenshot_url,
            }
            &&& c == Command::FindActiveAssignment { assignment_id, tester_id }
        } else {
            s2 is Finished && is_unexpected(c)
        },
        CheckinFlow::AwaitAssignment {
            tester_id,
            assignment_id,
            day_number,
            feedback_text,
            screenshot_url,
        } => match r {
            Reply::Exists(true) => {
                &&& s2 == CheckinFlow::AwaitCheckin { tester_id }
                &&& c == Command::InsertCheckin {
                    assignment_id,
                    day_number,
                    feedback_text,
                    screenshot_url,
                }
            },
            Reply::Exists(false) => s2 is Finished && fails_with(c, AppError::NotFound),
            _ => s2 is Finished && is_unexpected(c),
        },
        CheckinFlow::AwaitCheckin { tester_id } => if r is Found {
            &&& s2 == CheckinFlow::AwaitReward { tester_id }
            &&& c == Command::AddCredits { user_id: tester_id, amount: CHECKIN_REWARD }
        } else {
            s2 is Finished && is_unexpected(c)
        },
        CheckinFlow::AwaitReward { tester_id } => if r is Done {
            &&& s2 is AwaitLedger
            &&& c == Command::RecordCredit {
                user_id: tester_id,
                amount: CHECKIN_REWARD,
                reason: CreditReason::DailyCheckin,
            }
        } else {
            s2 is Finished && is_unexpected(c)
        },
        CheckinFlow::AwaitLedger => if r is Done {
            s2 is AwaitCommit && c is Commit
        } else {
            s2 is Finished && is_unexpected(c)
        },
        CheckinFlow::AwaitCommit => s2 is Finished && if r is Done {
            responds_with_result(c, 201)
        } else {
            is_unexpected(c)
        },
        CheckinFlow::Finished => s2 is Finished && is_unexpected(c),
    }
}

/// One check-in step.
pub open spec fn checkin_next(s: CheckinFlow, r: Reply, s2: CheckinFlow, c: Command) -> bool {
    if s is Finished {
        s2 is Finished && is_unexpected(c)
    } else if r is Failed {
        s2 is Finished && (r matches Reply::Failed(f) && fails_with_db_error(c, f))
    } else {
        checkin_advanced(s, r, s2, c)
    }
}

/// A trimmed copy of an optional screenshot link.
fn trim_link(url: &Option<String>) -> (r: Option<String>)
    ensures
        option_view(r) == trimmed_option(*url),
{
    match url {
        Some(u) => Some(String::from_str(trim(u.as_str()))),
        None => None,
    }
}

/// Starts recording a tester's daily check-in.
pub fn create_checkin(tester_id: u128, input: CheckinInput) -> (res: (CheckinFlow, Command))
    ensures
        checkin_started(tester_id, input, res.0, res.1),
{
    match validate_checkin(&input) {
        Err(e) => (CheckinFlow::Finished, Command::Fail(e)),
        Ok(()) => {
            let feedback_text = String::from_str(trim(input.feedback_text.as_str()));
            let screenshot_url = trim_link(&input.screenshot_url);
            (
                CheckinFlow::AwaitBegin {
                    tester_id,
                    assignment_id: input.assignment_id,
                    day_number: input.day_number,
                    feedback_text,
                    screenshot_url,
                },
                Command::Begin,
            )
        },
    }
}

impl CheckinFlow {
    /// Takes the reply to the last command and gives the next one.
    pub fn step(self, reply: Reply) -> (res: (CheckinFlow, Command))
        ensures
            checkin_next(self, reply, res.0, res.1),
    {
        match (self, reply) {
            (CheckinFlow::Finished, _) => (CheckinFlow::Finished, unexpected()),
            (_, Reply::Failed(f)) => (CheckinFlow::Finished, db_failed(f)),
            (
                CheckinFlow::AwaitBegin {
                    tester_id,
                    assignment_id,
                    day_number,
                    feedback_text,
                    screenshot_url,
                },
                Reply::Done,
            ) => (
                CheckinFlow::AwaitAssignment {
                    tester_id,
                    assignment_id,
                    day_number,
                    feedback_text,
                    screenshot_url,
                },
                Command::FindActiveAssignment { assignment_id, tester_id },
            ),
            (
                CheckinFlow::AwaitAssignment {
                    tester_id,
                    assignment_id,
                    day_number,
                    feedback_text,
                    screenshot_url,
                },
                Reply::Exists(found),
            ) => {
                if found {
                    (
                        CheckinFlow::AwaitCheckin { tester_id },
                        Command::InsertCheckin {
                            assignment_id,
                            day_number,
                            feedback_text,
                            screenshot_url,
                        },
                    )
                } else {
                    (CheckinFlow::Finished, Command::Fail(AppError::NotFound))
                }
            },
            (CheckinFlow::AwaitCheckin { tester_id }, Reply::Found) => (
                CheckinFlow::AwaitReward { tester_id },
                Command::AddCredits { user_id: tester_id, amount: CHECKIN_REWARD },
            ),
            (CheckinFlow::AwaitReward { tester_id }, Reply::Done) => (
                CheckinFlow::AwaitLedger,
                Command::RecordCredit {
                    user_id: tester_id,
                    amount: CHECKIN_REWARD,
                    reason: CreditReason::DailyCheckin,
                },
            ),
            (CheckinFlow::AwaitLedger, Reply::Done) => (CheckinFlow::AwaitCommit, Command::Commit),
            (CheckinFlow::AwaitCommit, Reply::Done) => (
                CheckinFlow::Finished,
                Command::RespondWithResult { status: 201 },
            ),
            _ => (CheckinFlow::Finished, unexpected()),
        }
    }
}

} // verus!
