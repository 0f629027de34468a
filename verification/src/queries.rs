use vstd::prelude::*;

use crate::error::AppError;
use crate::flow::{
    db_failed, fails_with, fails_with_db_error, is_unexpected, responds_with_result, unexpected,
    Command, Reply,
};
use crate::validation::{history_limit, history_limit_of};

verus! {

/// Where a read-only request stands.
pub enum QueryFlow {
    /// Waiting for a single row; its absence is answered with `when_missing`.
    AwaitRow { when_missing: AppError },
    /// Waiting for a list of rows, which may be empty.
    AwaitRows,
    /// Waiting to learn whether the developer owns the application.
    AwaitOwnership { application_id: u128 },
    /// Answered.
    Finished,
}

/// One step of a read-only request.
pub open spec fn query_next(s: QueryFlow, r: Reply, s2: QueryFlow, c: Command) -> bool {
    if s is Finished {
        s2 is Finished && is_unexpected(c)
    } else if r is Failed {
        s2 is Finished && (r matches Reply::Failed(f) && fails_with_db_error(c, f))
    } else {
        match s {
            QueryFlow::AwaitRow { when_missing } => match r {
                Reply::Found => s2 is Finished && responds_with_result(c, 200),
                Reply::Missing => s2 is Finished && fails_with(c, when_missing),
                _ => s2 is Finished && is_unexpected(c),
            },
            QueryFlow::AwaitRows => s2 is Finished && if r is Found {
                responds_with_result(c, 200)
            } else {
                is_unexpected(c)
            },
            QueryFlow::AwaitOwnership { application_id } => match r {
                Reply::Exists(true) => s2 is AwaitRows && c == Command::FetchReport { application_id },
                Reply::Exists(false) => s2 is Finished && fails_with(c, AppError::NotFound),
                _ => s2 is Finished && is_unexpected(c),
            },
            QueryFlow::Finished => s2 is Finished && is_unexpected(c),
        }
    }
}

/// Starts reading the user's balance; a user that no longer exists is
/// unauthorized.
pub fn credit_balance(user_id: u128) -> (res: (QueryFlow, Command))
    ensures
        res.0 == (QueryFlow::AwaitRow { when_missing: AppError::Unauthorized }),
        res.1 == (Command::FetchBalance { user_id }),
{
    (QueryFlow::AwaitRow { when_missing: AppError::Unauthorized }, Command::FetchBalance { user_id })
}

/// Starts reading the user's credit history, with the limit kept within 1 to
/// 100 and 50 by default.
pub fn credit_history(user_id: u128, limit: Option<i64>) -> (res: (QueryFlow, Command))
    ensures
        (res.0 is AwaitRows),
        res.1 == (Command::FetchHistory { user_id, limit: history_limit_of(limit) }),
{
    (QueryFlow::AwaitRows, Command::FetchHistory { user_id, limit: history_limit(limit) })
}

/// Starts reading the credit packages.
pub fn packages() -> (res: (QueryFlow, Command))
    ensures
        (res.0 is AwaitRows),
        (res.1 is FetchPackages),
{
    (QueryFlow::AwaitRows, Command::FetchPackages)
}

/// Starts reading the applications the user may test.
pub fn available_applications(user_id: u128) -> (res: (QueryFlow, Command))
    ensures
        (res.0 is AwaitRows),
        res.1 == (Command::FetchAvailable { user_id }),
{
    (QueryFlow::AwaitRows, Command::FetchAvailable { user_id })
}

/// Starts reading the progress of one of the developer's applications; any
/// other application is not found.
pub fn application_progress(developer_id: u128, application_id: u128) -> (res: (
    QueryFlow,
    Command,
))
    ensures
        res.0 == (QueryFlow::AwaitRow { when_missing: AppError::NotFound }),
        res.1 == (Command::FetchProgress { application_id, developer_id }),
{
    (
        QueryFlow::AwaitRow { when_missing: AppError::NotFound },
        Command::FetchProgress { application_id, developer_id },
    )
}

/// Starts the testing report of one of the developer's applications; any
/// other application is not found.
pub fn application_report(developer_id: u128, application_id: u128) -> (res: (
    QueryFlow,
    Command,
))
    ensures
        res.0 == (QueryFlow::AwaitOwnership { application_id }),
        res.1 == (Command::CheckOwnership { application_id, developer_id }),
{
    (
        QueryFlow::AwaitOwnership { application_id },
        Command::CheckOwnership { application_id, developer_id },
    )
}

impl QueryFlow {
    /// Takes the reply to the last command and gives the next one.
    pub fn step(self, reply: Reply) -> (res: (QueryFlow, Command))
        ensures
            query_next(self, reply, res.0, res.1),
    {
        match (self, reply) {
            (QueryFlow::Finished, _) => (QueryFlow::Finished, unexpected()),
            (_, Reply::Failed(f)) => (QueryFlow::Finished, db_failed(f)),
            (QueryFlow::AwaitRow { .. }, Reply::Found) => (
                QueryFlow::Finished,
                Command::RespondWithResult { status: 200 },
            ),
            (QueryFlow::AwaitRow { when_missing }, Reply::Missing) => (
                QueryFlow::Finished,
                Command::Fail(when_missing),
            ),
            (QueryFlow::AwaitRows, Reply::Found) => (
                QueryFlow::Finished,
                Command::RespondWithResult { status: 200 },
            ),
            (QueryFlow::AwaitOwnership { application_id }, Reply::Exists(owned)) => {
                if owned {
                    (QueryFlow::AwaitRows, Command::FetchReport { application_id })
                } else {
                    (QueryFlow::Finished, Command::Fail(AppError::NotFound))
                }
            },
            _ => (QueryFlow::Finished, unexpected()),
        }
    }
}

} // verus!
