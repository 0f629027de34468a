use vstd::prelude::*;
use vstd::utf8::encode_utf8;

use crate::auth::{jwt_decoded, signed_token, token, TOKEN_LIFETIME_SECONDS};
use crate::error::AppError;
use crate::flow::{
    clock_in_range, db_failed, fails_bad_request, fails_with, fails_with_db_error, is_unexpected,
    unexpected, Command, CreditReason, Reply, REGISTRATION_BONUS,
};
use crate::password::{
    argon2_accepts, hash_password, password_hashable, phc_string_parses, verify_password,
};
use crate::text::{all_ascii, ascii_lower, normalize_email, normalized_email, trimmed};
use crate::validation::{credentials_acceptable, validate_credentials, AuthRequest};

verus! {

/// Where a registration stands. `secret` signs the access token at the end.
pub enum RegisterFlow {
    /// Waiting for the transaction to open.
    AwaitBegin { email: String, password: String, secret: String },
    /// Waiting for the new user's row.
    AwaitUser { secret: String },
    /// Waiting for the registration bonus to reach the ledger.
    AwaitBonusRecord { user_id: u128, credits_balance: i32, secret: String },
    /// Waiting for the commit.
    AwaitCommit { user_id: u128, credits_balance: i32, secret: String },
    /// Waiting for the clock, to issue the access token.
    AwaitClock { user_id: u128, credits_balance: i32, secret: String },
    /// Answered.
    Finished,
}

/// Where a login stands. `secret` signs the access token at the end.
pub enum LoginFlow {
    /// Waiting for the user found under the e-mail.
    AwaitUser { password: String, secret: String },
    /// Waiting for the clock, to issue the access token.
    AwaitClock { user_id: u128, credits_balance: i32, secret: String },
    /// Answered.
    Finished,
}

/// The answer to invalid credentials.
pub open spec fn fails_credentials(c: Command) -> bool {
    fails_bad_request(c, "valid email and password of at least 8 characters are required"@)
}

/// How a registration starts: invalid credentials are refused, valid ones
/// open a transaction.
pub open spec fn register_started(
    input: AuthRequest,
    secret: String,
    s: RegisterFlow,
    c: Command,
) -> bool {
    if credentials_acceptable(input) {
        &&& s == RegisterFlow::AwaitBegin { email: input.email, password: input.password, secret }
        &&& c is Begin
    } else {
        s is Finished && fails_credentials(c)
    }
}

/// The user that registration creates: the normalized e-mail, a hash that
/// verifies the password, and the registration bonus as balance.
pub open spec fn creates_user(c: Command, email: Seq<char>, password: Seq<char>) -> bool {
    &&& c matches Command::InsertUser { email: e, password_hash: h, credits_balance: b }
    &&& e@ == normalized_email(email)
    &&& all_ascii(email) ==> e@ == ascii_lower(trimmed(email))
    &&& b == REGISTRATION_BONUS
    &&& phc_string_parses(h@)
    &&& argon2_accepts(encode_utf8(password), h@)
}

/// The step once the transaction is open: the user is created; only a
/// password Argon2 refuses (over `u32::MAX` bytes) may end in an internal
/// error instead.
pub open spec fn user_created(
    email: String,
    password: String,
    secret: String,
    s2: RegisterFlow,
    c: Command,
) -> bool {
    ||| s2 == RegisterFlow::AwaitUser { secret } && creates_user(c, email@, password@)
    ||| !password_hashable(encode_utf8(password@)) && s2 is Finished && c matches Command::Fail(
        AppError::Internal(_),
    )
}

/// The answer once the clock is read: the access token issued then for the
/// user, signed with the flow's secret, with the user and the balance.
pub open spec fn auth_answered(
    c: Command,
    status: u16,
    user_id: u128,
    credits_balance: i32,
    now: i64,
    secret: String,
) -> bool {
    &&& c matches Command::RespondAuth {
        status: s,
        access_token: t,
        user_id: u,
        credits_balance: b,
    }
    &&& s == status
    &&& u == user_id
    &&& b == credits_balance
    &&& t@ == signed_token(
        user_id,
        (now + TOKEN_LIFETIME_SECONDS) as usize,
        encode_utf8(secret@),
    )
    &&& jwt_decoded(t@, encode_utf8(secret@)) == Some(
        (user_id, ((now + TOKEN_LIFETIME_SECONDS) as usize) as u64),
    )
}

/// A registration step once the flow is waiting for a reply.
pub open spec fn register_advanced(s: RegisterFlow, r: Reply, s2: RegisterFlow, c: Command) -> bool {
    match s {
        RegisterFlow::AwaitBegin { email, password, secret } => if r is Done {
            user_created(email, password, secret, s2, c)
        } else {
            s2 is Finished && is_unexpected(c)
        },
        RegisterFlow::AwaitUser { secret } => match r {
            Reply::User { id, credits_balance, .. } => {
                &&& s2 == RegisterFlow::AwaitBonusRecord { user_id: id, credits_balance, secret }
                &&& c == Command::RecordCredit {
                    user_id: id,
                    amount: REGISTRATION_BONUS,
                    reason: CreditReason::RegistrationBonus,
                }
            },
            _ => s2 is Finished && is_unexpected(c),
        },
        RegisterFlow::AwaitBonusRecord { user_id, credits_balance, secret } => if r is Done {
            s2 == RegisterFlow::AwaitCommit { user_id, credits_balance, secret } && c is Commit
        } else {
            s2 is Finished && is_unexpected(c)
        },
        RegisterFlow::AwaitCommit { user_id, credits_balance, secret } => if r is Done {
            s2 == RegisterFlow::AwaitClock { user_id, credits_balance, secret } && c is ReadClock
        } else {
            s2 is Finished && is_unexpected(c)
        },
        RegisterFlow::AwaitClock { user_id, credits_balance, secret } => s2 is Finished && match r {
            Reply::Clock(now) => auth_answered(c, 201, user_id, credits_balance, now, secret),
            _ => is_unexpected(c),
        },
        RegisterFlow::Finished => s2 is Finished && is_unexpected(c),
    }
}

/// One registration step: after the flow is answered every reply is
/// unexpected, and a failed statement ends it with the matching error.
pub open spec fn register_next(s: RegisterFlow, r: Reply, s2: RegisterFlow, c: Command) -> bool {
    if s is Finished {
        s2 is Finished && is_unexpected(c)
    } else if r is Failed {
        s2 is Finished && (r matches Reply::Failed(f) && fails_with_db_error(c, f))
    } else {
        register_advanced(s, r, s2, c)
    }
}

/// Starts registering a user; `secret` signs the access token.
pub fn register(input: AuthRequest, secret: String) -> (res: (RegisterFlow, Command))
    ensures
        register_started(input, secret, res.0, res.1),
{
    match validate_credentials(&input) {
        Err(e) => (RegisterFlow::Finished, Command::Fail(e)),
        Ok(()) => (
            RegisterFlow::AwaitBegin { email: input.email, password: input.password, secret },
            Command::Begin,
        ),
    }
}

/// Issues the access token once the clock is read.
fn answer_with_token(
    status: u16,
    user_id: u128,
    credits_balance: i32,
    now: i64,
    secret: String,
) -> (c: Command)
    requires
        now + TOKEN_LIFETIME_SECONDS <= i64::MAX,
    ensures
        auth_answered(c, status, user_id, credits_balance, now, secret),
{
    match token(user_id, now, secret.as_str()) {
        Ok(access_token) => Command::RespondAuth { status, access_token, user_id, credits_balance },
        Err(e) => Command::Fail(e),
    }
}

/// The user row to insert once the transaction is open.
fn new_user(email: String, password: String, secret: String) -> (res: (RegisterFlow, Command))
    ensures
        user_created(email, password, secret, res.0, res.1),
{
    let normalized = normalize_email(email.as_str());
    match hash_password(password.as_str()) {
        Ok(hash) => (
            RegisterFlow::AwaitUser { secret },
            Command::InsertUser {
                email: normalized,
                password_hash: hash,
                credits_balance: REGISTRATION_BONUS,
            },
        ),
        Err(e) => (RegisterFlow::Finished, Command::Fail(e)),
    }
}

impl RegisterFlow {
    /// Takes the reply to the last command and gives the next one. A clock
    /// reading must leave room for the token's lifetime.
    pub fn step(self, reply: Reply) -> (res: (RegisterFlow, Command))
        requires
            clock_in_range(reply),
        ensures
            register_next(self, reply, res.0, res.1),
    {
        match (self, reply) {
            (RegisterFlow::Finished, _) => (RegisterFlow::Finished, unexpected()),
            (_, Reply::Failed(f)) => (RegisterFlow::Finished, db_failed(f)),
            (RegisterFlow::AwaitBegin { email, password, secret }, Reply::Done) => new_user(
                email,
                password,
                secret,
            ),
            (RegisterFlow::AwaitUser { secret }, Reply::User { id, credits_balance, .. }) => (
                RegisterFlow::AwaitBonusRecord { user_id: id, credits_balance, secret },
                Command::RecordCredit {
                    user_id: id,
                    amount: REGISTRATION_BONUS,
                    reason: CreditReason::RegistrationBonus,
                },
            ),
            (RegisterFlow::AwaitBonusRecord { user_id, credits_balance, secret }, Reply::Done) => (
                RegisterFlow::AwaitCommit { user_id, credits_balance, secret },
                Command::Commit,
            ),
            (RegisterFlow::AwaitCommit { user_id, credits_balance, secret }, Reply::Done) => (
                RegisterFlow::AwaitClock { user_id, credits_balance, secret },
                Command::ReadClock,
            ),
            (RegisterFlow::AwaitClock { user_id, credits_balance, secret }, Reply::Clock(now)) => (
                RegisterFlow::Finished,
                answer_with_token(201, user_id, credits_balance, now, secret),
            ),
            _ => (RegisterFlow::Finished, unexpected()),
        }
    }
}

/// How a login starts: invalid credentials are refused, valid ones look the
/// user up under the normalized e-mail.
pub open spec fn login_started(input: AuthRequest, secret: String, s: LoginFlow, c: Command) -> bool {
    if credentials_acceptable(input) {
        &&& s == LoginFlow::AwaitUser { password: input.password, secret }
        &&& c matches Command::FindUserByEmail { email }
        &&& email@ == normalized_email(input.email@)
        &&& all_ascii(input.email@) ==> email@ == ascii_lower(trimmed(input.email@))
    } else {
        s is Finished && fails_credentials(c)
    }
}

/// The decision once the user row is known: an unparsable stored hash is an
/// internal error, a wrong password is unauthorized, a right one reads the
/// clock to issue a token.
pub open spec fn login_checked(
    password: Seq<char>,
    secret: String,
    id: u128,
    hash: Seq<char>,
    credits_balance: i32,
    s2: LoginFlow,
    c: Command,
) -> bool {
    if !phc_string_parses(hash) {
        s2 is Finished && c matches Command::Fail(AppError::Internal(_))
    } else if !argon2_accepts(encode_utf8(password), hash) {
        s2 is Finished && fails_with(c, AppError::Unauthorized)
    } else {
        s2 == LoginFlow::AwaitClock { user_id: id, credits_balance, secret } && c is ReadClock
    }
}

/// One login step.
pub open spec fn login_next(s: LoginFlow, r: Reply, s2: LoginFlow, c: Command) -> bool {
    if s is Finished {
        s2 is Finished && is_unexpected(c)
    } else if r is Failed {
        s2 is Finished && (r matches Reply::Failed(f) && fails_with_db_error(c, f))
    } else {
        match s {
            LoginFlow::AwaitUser { password, secret } => match r {
                Reply::Missing => s2 is Finished && fails_with(c, AppError::Unauthorized),
                Reply::User { id, password_hash, credits_balance } => login_checked(
                    password@,
                    secret,
                    id,
                    password_hash@,
                    credits_balance,
                    s2,
                    c,
                ),
                _ => s2 is Finished && is_unexpected(c),
            },
            LoginFlow::AwaitClock { user_id, credits_balance, secret } => s2 is Finished && match r {
                Reply::Clock(now) => auth_answered(c, 200, user_id, credits_balance, now, secret),
                _ => is_unexpected(c),
            },
            LoginFlow::Finished => s2 is Finished && is_unexpected(c),
        }
    }
}

/// Starts a login; `secret` signs the access token.
pub fn login(input: AuthRequest, secret: String) -> (res: (LoginFlow, Command))
    ensures
        login_started(input, secret, res.0, res.1),
{
    match validate_credentials(&input) {
        Err(e) => (LoginFlow::Finished, Command::Fail(e)),
        Ok(()) => {
            let email = normalize_email(input.email.as_str());
            (
                LoginFlow::AwaitUser { password: input.password, secret },
                Command::FindUserByEmail { email },
            )
        },
    }
}

/// Checks the password of the user found.
fn check_login(
    password: String,
    secret: String,
    id: u128,
    password_hash: String,
    credits_balance: i32,
) -> (res: (LoginFlow, Command))
    ensures
        login_checked(password@, secret, id, password_hash@, credits_balance, res.0, res.1),
{
    match verify_password(password.as_str(), password_hash.as_str()) {
        Err(e) => (LoginFlow::Finished, Command::Fail(e)),
        Ok(false) => (LoginFlow::Finished, Command::Fail(AppError::Unauthorized)),
        Ok(true) => (
            LoginFlow::AwaitClock { user_id: id, credits_balance, secret },
            Command::ReadClock,
        ),
    }
}

impl LoginFlow {
    /// Takes the reply to the last command and gives the next one. A clock
    /// reading must leave room for the token's lifetime.
    pub fn step(self, reply: Reply) -> (res: (LoginFlow, Command))
        requires
            clock_in_range(reply),
        ensures
            login_next(self, reply, res.0, res.1),
    {
        match (self, reply) {
            (LoginFlow::Finished, _) => (LoginFlow::Finished, unexpected()),
            (_, Reply::Failed(f)) => (LoginFlow::Finished, db_failed(f)),
            (LoginFlow::AwaitUser { .. }, Reply::Missing) => (
                LoginFlow::Finished,
                Command::Fail(AppError::Unauthorized),
            ),
            (
                LoginFlow::AwaitUser { password, secret },
                Reply::User { id, password_hash, credits_balance },
            ) => check_login(password, secret, id, password_hash, credits_balance),
            (LoginFlow::AwaitClock { user_id, credits_balance, secret }, Reply::Clock(now)) => (
                LoginFlow::Finished,
                answer_with_token(200, user_id, credits_balance, now, secret),
            ),
            _ => (LoginFlow::Finished, unexpected()),
        }
    }
}

} // verus!
