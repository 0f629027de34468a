use vstd::prelude::*;

use crate::error::{map_db, AppError, DbFailure};

verus! {

/// Credits a user receives on registering.
pub const REGISTRATION_BONUS: i32 = 50;

/// Credits that submitting an application costs.
pub const APP_SUBMISSION_COST: i32 = 100;

/// Credits a tester earns with each daily check-in.
pub const CHECKIN_REWARD: i32 = 10;

/// Why a credit transaction is recorded.
#[derive(Debug, PartialEq, Eq, Structural, Clone, Copy)]
pub enum CreditReason {
    RegistrationBonus,
    ApplicationSubmission,
    DailyCheckin,
}

/// The transaction type that the ledger stores for a reason.
pub open spec fn kind_of(reason: CreditReason) -> Seq<char> {
    match reason {
        CreditReason::RegistrationBonus => "bonus"@,
        CreditReason::ApplicationSubmission => "spent"@,
        CreditReason::DailyCheckin => "earned"@,
    }
}

/// The description that the ledger stores for a reason.
pub open spec fn description_of_reason(reason: CreditReason) -> Seq<char> {
    match reason {
        CreditReason::RegistrationBonus => "Registration bonus"@,
        CreditReason::ApplicationSubmission => "Application submission"@,
        CreditReason::DailyCheckin => "Verified daily check-in"@,
    }
}

impl CreditReason {
    /// The transaction type stored in the ledger.
    pub fn kind(&self) -> (k: &'static str)
        ensures
            k@ == kind_of(*self),
    {
        match self {
            CreditReason::RegistrationBonus => "bonus",
            CreditReason::ApplicationSubmission => "spent",
            CreditReason::DailyCheckin => "earned",
        }
    }

    /// The description stored in the ledger.
    pub fn description(&self) -> (d: &'static str)
        ensures
            d@ == description_of_reason(*self),
    {
        match self {
            CreditReason::RegistrationBonus => "Registration bonus",
            CreditReason::ApplicationSubmission => "Application submission",
            CreditReason::DailyCheckin => "Verified daily check-in",
        }
    }
}

/// The next thing a request needs done: a database statement, a token, or the
/// answer to the request.
#[derive(Debug)]
pub enum Command {
    /// Open a transaction.
    Begin,
    /// Commit the open transaction.
    Commit,
    /// Create a user with this normalized e-mail, password hash and starting
    /// balance, returning its row.
    InsertUser { email: String, password_hash: String, credits_balance: i32 },
    /// Look up the user with this normalized e-mail.
    FindUserByEmail { email: String },
    /// Append an entry to the user's credit ledger.
    RecordCredit { user_id: u128, amount: i32, reason: CreditReason },
    /// Take `amount` credits from the user if the balance covers it,
    /// reporting how many rows changed.
    ChargeCredits { user_id: u128, amount: i32 },
    /// Give `amount` credits to the user.
    AddCredits { user_id: u128, amount: i32 },
    /// Create an application, returning its id.
    InsertApplication {
        developer_id: u128,
        app_name: String,
        playstore_link: String,
        required_testers: i32,
    },
    /// Read an application together with its active testers.
    FetchApplication { application_id: u128 },
    /// Lock an application and read its developer, the testers it needs and
    /// its active testers.
    LockApplication { application_id: u128 },
    /// Assign a tester to an application, returning the assignment.
    InsertAssignment { application_id: u128, tester_id: u128 },
    /// Mark an application in progress once it has all its testers.
    RefreshApplicationStatus { application_id: u128 },
    /// Ask whether this active assignment belongs to the tester.
    FindActiveAssignment { assignment_id: u128, tester_id: u128 },
    /// Record a check-in, returning it.
    InsertCheckin {
        assignment_id: u128,
        day_number: i32,
        feedback_text: String,
        screenshot_url: Option<String>,
    },
    /// Read the user's balance.
    FetchBalance { user_id: u128 },
    /// Read the latest `limit` entries of the user's ledger.
    FetchHistory { user_id: u128, limit: i64 },
    /// Read the credit packages, cheapest first.
    FetchPackages,
    /// Read the applications that still need testers, other than the user's.
    FetchAvailable { user_id: u128 },
    /// Read the progress of an application of this developer.
    FetchProgress { application_id: u128, developer_id: u128 },
    /// Ask whether the application belongs to this developer.
    CheckOwnership { application_id: u128, developer_id: u128 },
    /// Read the testers of an application and their check-ins.
    FetchReport { application_id: u128 },
    /// Read the clock, in seconds since the Unix epoch.
    ReadClock,
    /// Answer with an access token and the user's balance.
    RespondAuth { status: u16, access_token: String, user_id: u128, credits_balance: i32 },
    /// Answer with what the last read returned.
    RespondWithResult { status: u16 },
    /// Answer with an error.
    Fail(AppError),
}

/// What came back from the last command.
pub enum Reply {
    /// The statement ran.
    Done,
    /// The statement changed this many rows.
    RowsAffected(u64),
    /// The statement created a row with this id.
    NewId(u128),
    /// The user row that was created or found.
    User { id: u128, password_hash: String, credits_balance: i32 },
    /// The read found its row or rows.
    Found,
    /// The read found no row.
    Missing,
    /// The answer to an existence question.
    Exists(bool),
    /// The locked application: its developer, the testers it needs, and the
    /// testers active on it.
    Slots { developer_id: u128, required_testers: i32, active_testers: i32 },
    /// The clock reads this many seconds since the Unix epoch.
    Clock(i64),
    /// The statement failed.
    Failed(DbFailure),
}

/// Whether a clock reading leaves room for a token's lifetime before the
/// largest time an `i64` holds.
pub open spec fn clock_in_range(r: Reply) -> bool {
    r matches Reply::Clock(now) ==> now + crate::auth::TOKEN_LIFETIME_SECONDS <= i64::MAX
}

/// Whether `e` is the error that answers the database failure `f`.
pub open spec fn answers_db_failure(f: DbFailure, e: AppError) -> bool {
    &&& f.unique_violation ==> (e matches AppError::Conflict(m) && m@ == "resource already exists"@)
    &&& !f.unique_violation ==> (e matches AppError::Internal(m) && m@ == f.detail@)
}

/// Whether `c` answers the database failure `f`.
pub open spec fn fails_with_db_error(c: Command, f: DbFailure) -> bool {
    c matches Command::Fail(e) && answers_db_failure(f, e)
}

/// Whether `c` answers a reply that the request was not waiting for.
pub open spec fn is_unexpected(c: Command) -> bool {
    c matches Command::Fail(AppError::Internal(m)) && m@ == "unexpected reply"@
}

/// Whether `c` answers with exactly this error.
pub open spec fn fails_with(c: Command, e: AppError) -> bool {
    c matches Command::Fail(x) && x == e
}

/// Whether `c` answers with a bad request carrying `message`.
pub open spec fn fails_bad_request(c: Command, message: Seq<char>) -> bool {
    c matches Command::Fail(AppError::BadRequest(m)) && m@ == message
}

/// Whether `c` answers with a conflict carrying `message`.
pub open spec fn fails_conflict(c: Command, message: Seq<char>) -> bool {
    c matches Command::Fail(AppError::Conflict(m)) && m@ == message
}

/// Whether `c` answers with an internal error carrying `detail`.
pub open spec fn fails_internal(c: Command, detail: Seq<char>) -> bool {
    c matches Command::Fail(AppError::Internal(m)) && m@ == detail
}

/// Whether `c` answers with what the last read returned, under `status`.
pub open spec fn responds_with_result(c: Command, status: u16) -> bool {
    c matches Command::RespondWithResult { status: s } && s == status
}

/// The answer to a failed database statement.
pub fn db_failed(failure: DbFailure) -> (c: Command)
    ensures
        fails_with_db_error(c, failure),
{
    Command::Fail(map_db(failure))
}

/// The answer to a reply the request was not waiting for.
pub fn unexpected() -> (c: Command)
    ensures
        is_unexpected(c),
{
    Command::Fail(AppError::internal("unexpected reply"))
}

} // verus!
