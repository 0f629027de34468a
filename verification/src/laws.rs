use vstd::prelude::*;

use crate::checkin::{checkin_next, checkin_started, trimmed_option, CheckinFlow};
use crate::flow::{
    fails_conflict, is_unexpected, responds_with_result, Command, CreditReason, Reply,
    APP_SUBMISSION_COST, CHECKIN_REWARD, REGISTRATION_BONUS,
};
use crate::joining::{join_next, may_join, JoinFlow};
use crate::auth::{
    jwt_decoded, token_user, TOKEN_LEEWAY_SECONDS, TOKEN_LIFETIME_SECONDS,
};
use crate::error::DbFailure;
use crate::password::password_hashable;
use crate::register::{
    auth_answered, creates_user, login_checked, login_started, register_next, register_started,
    LoginFlow, RegisterFlow,
};
use crate::validation::credentials_acceptable;
use vstd::utf8::encode_utf8;
use crate::submission::{submission_next, submission_started, SubmissionFlow};
use crate::queries::{query_next, QueryFlow};
use crate::error::{public_message_of, status_of, AppError};
use crate::text::{
    all_ascii, ascii_lower, is_white_space, trimmed, trimmed_is_empty_exactly_for_white_space,
};
use crate::validation::{
    application_verdict, checkin_verdict, history_limit_of, ApplicationInput, AuthRequest,
    CheckinInput, DEFAULT_HISTORY_LIMIT, DEFAULT_REQUIRED_TESTERS, TESTING_DAYS,
};

verus! {

/// A valid registration whose password Argon2 accepts (at most `u32::MAX`
/// bytes) succeeds when the database does: it stores the normalized e-mail
/// with the registration bonus as balance, records that same bonus in the new
/// user's ledger, commits only after that, and answers 201 with a token that
/// names the new user and the balance the database returned.
pub proof fn registration_succeeds(
    input: AuthRequest,
    secret: String,
    id: u128,
    password_hash: String,
    credits_balance: i32,
    now: i64,
    s0: RegisterFlow,
    c0: Command,
    s1: RegisterFlow,
    c1: Command,
    s2: RegisterFlow,
    c2: Command,
    s3: RegisterFlow,
    c3: Command,
    s4: RegisterFlow,
    c4: Command,
    s5: RegisterFlow,
    c5: Command,
)
    requires
        credentials_acceptable(input),
        password_hashable(encode_utf8(input.password@)),
        register_started(input, secret, s0, c0),
        register_next(s0, Reply::Done, s1, c1),
        register_next(s1, Reply::User { id, password_hash, credits_balance }, s2, c2),
        register_next(s2, Reply::Done, s3, c3),
        register_next(s3, Reply::Done, s4, c4),
        register_next(s4, Reply::Clock(now), s5, c5),
    ensures
        c0 is Begin,
        creates_user(c1, input.email@, input.password@),
        c2 == (Command::RecordCredit {
            user_id: id,
            amount: REGISTRATION_BONUS,
            reason: CreditReason::RegistrationBonus,
        }),
        c3 is Commit,
        c4 is ReadClock,
        auth_answered(c5, 201, id, credits_balance, now, secret),
        s5 is Finished,
{
}

/// Registering an address that is already taken (the insert violates the
/// unique constraint) is answered with a conflict, "resource already
/// exists", and never commits.
pub proof fn taken_address_is_a_conflict(
    input: AuthRequest,
    secret: String,
    detail: String,
    later: Reply,
    s0: RegisterFlow,
    c0: Command,
    s1: RegisterFlow,
    c1: Command,
    s2: RegisterFlow,
    c2: Command,
    s3: RegisterFlow,
    c3: Command,
)
    requires
        credentials_acceptable(input),
        password_hashable(encode_utf8(input.password@)),
        register_started(input, secret, s0, c0),
        register_next(s0, Reply::Done, s1, c1),
        register_next(
            s1,
            Reply::Failed(DbFailure { unique_violation: true, detail }),
            s2,
            c2,
        ),
        register_next(s2, later, s3, c3),
    ensures
        c1 is InsertUser,
        fails_conflict(c2, "resource already exists"@),
        s2 is Finished,
        is_unexpected(c3),
{
}

/// A user who registered logs in with the same credentials: login looks up
/// the address registration stored, and the password hash registration
/// stored accepts the same password, so login goes on to issue a token.
pub proof fn registered_credentials_log_in(
    input: AuthRequest,
    secret: String,
    s0: RegisterFlow,
    c0: Command,
    s1: RegisterFlow,
    c1: Command,
    l0: LoginFlow,
    d0: Command,
    id: u128,
    credits_balance: i32,
    l1: LoginFlow,
    d1: Command,
)
    requires
        register_started(input, secret, s0, c0),
        register_next(s0, Reply::Done, s1, c1),
        c1 is InsertUser,
        login_started(input, secret, l0, d0),
        c1 matches Command::InsertUser { password_hash, .. } && login_checked(
            input.password@,
            secret,
            id,
            password_hash@,
            credits_balance,
            l1,
            d1,
        ),
    ensures
        d0 matches Command::FindUserByEmail { email } && c1 matches Command::InsertUser {
            email: stored,
            ..
        } && email@ == stored@,
        d1 is ReadClock,
        l1 == (LoginFlow::AwaitClock { user_id: id, credits_balance, secret }),
{
}

/// An address registered in one case is found by a login in another: for
/// addresses in ASCII that differ only in the case of their letters and in
/// surrounding white space, login looks up the very address that
/// registration stored.
pub proof fn login_ignores_ascii_case_of_address(
    registered: AuthRequest,
    entered: AuthRequest,
    secret: String,
    s0: RegisterFlow,
    c0: Command,
    s1: RegisterFlow,
    c1: Command,
    l0: LoginFlow,
    d0: Command,
)
    requires
        all_ascii(registered.email@),
        all_ascii(entered.email@),
        ascii_lower(trimmed(registered.email@)) == ascii_lower(trimmed(entered.email@)),
        credentials_acceptable(entered),
        register_started(registered, secret, s0, c0),
        register_next(s0, Reply::Done, s1, c1),
        c1 is InsertUser,
        login_started(entered, secret, l0, d0),
    ensures
        d0 matches Command::FindUserByEmail { email } && c1 matches Command::InsertUser {
            email: stored,
            ..
        } && email@ == stored@,
{
}

/// A token issued for a user authenticates as that user, under the same
/// secret, from the moment it is issued until its expiry plus the leeway.
pub proof fn fresh_tokens_authenticate_their_user(
    token: Seq<char>,
    user_id: u128,
    issued: i64,
    secret: Seq<u8>,
    now: u64,
)
    requires
        issued + TOKEN_LIFETIME_SECONDS <= i64::MAX,
        issued + TOKEN_LIFETIME_SECONDS <= usize::MAX,
        0 <= issued,
        jwt_decoded(token, secret) == Some(
            (user_id, ((issued + TOKEN_LIFETIME_SECONDS) as usize) as u64),
        ),
        TOKEN_LEEWAY_SECONDS <= now <= issued + TOKEN_LIFETIME_SECONDS + TOKEN_LEEWAY_SECONDS,
    ensures
        token_user(token, secret, now) == Some(user_id),
{
}

/// A bearer header carries its token: the user an `Authorization` header
/// `Bearer <token>` authenticates is the one the token authenticates.
pub proof fn bearer_header_carries_its_token(token: Seq<char>, header: Seq<char>)
    requires
        header == "Bearer "@ + token,
    ensures
        "Bearer "@.is_prefix_of(header),
        header.skip(7) == token,
{
    reveal_strlit("Bearer ");
    assert(header.skip(7) =~= token);
    assert("Bearer "@ =~= header.subrange(0, 7));
}

/// A valid submission charges the submission cost to the developer and
/// records exactly that charge, as a negative amount, in the developer's
/// ledger before the application is read back and the transaction commits.
pub proof fn submission_records_its_charge(
    developer_id: u128,
    input: ApplicationInput,
    application_id: u128,
    s0: SubmissionFlow,
    c0: Command,
    s1: SubmissionFlow,
    c1: Command,
    s2: SubmissionFlow,
    c2: Command,
    s3: SubmissionFlow,
    c3: Command,
    s4: SubmissionFlow,
    c4: Command,
    s5: SubmissionFlow,
    c5: Command,
    s6: SubmissionFlow,
    c6: Command,
)
    requires
        application_verdict(input) is Ok,
        submission_started(developer_id, input, s0, c0),
        submission_next(s0, Reply::Done, s1, c1),
        submission_next(s1, Reply::RowsAffected(1), s2, c2),
        submission_next(s2, Reply::NewId(application_id), s3, c3),
        submission_next(s3, Reply::Done, s4, c4),
        submission_next(s4, Reply::Found, s5, c5),
        submission_next(s5, Reply::Done, s6, c6),
    ensures
        c0 is Begin,
        c1 == (Command::ChargeCredits { user_id: developer_id, amount: APP_SUBMISSION_COST }),
        c2 matches Command::InsertApplication {
            developer_id: d,
            app_name,
            playstore_link,
            required_testers,
        } && d == developer_id && app_name@ == trimmed(input.app_name@) && playstore_link@
            == trimmed(input.playstore_link@) && application_verdict(input) == Ok::<
            i32,
            Seq<char>,
        >(required_testers),
        c3 matches Command::RecordCredit { user_id, amount, reason } && user_id == developer_id
            && amount == -APP_SUBMISSION_COST && reason == CreditReason::ApplicationSubmission,
        c4 == (Command::FetchApplication { application_id }),
        c5 is Commit,
        responds_with_result(c6, 201),
{
}

/// A submission whose charge changes no balance (the developer lacks the
/// credits) is refused as a conflict, stores no application, and never
/// commits: every later reply is answered as unexpected.
pub proof fn uncovered_submission_is_refused(
    developer_id: u128,
    input: ApplicationInput,
    rows: u64,
    s0: SubmissionFlow,
    c0: Command,
    s1: SubmissionFlow,
    c1: Command,
    s2: SubmissionFlow,
    c2: Command,
    later: Reply,
    s3: SubmissionFlow,
    c3: Command,
)
    requires
        application_verdict(input) is Ok,
        rows != 1,
        submission_started(developer_id, input, s0, c0),
        submission_next(s0, Reply::Done, s1, c1),
        submission_next(s1, Reply::RowsAffected(rows), s2, c2),
        submission_next(s2, later, s3, c3),
    ensures
        fails_conflict(c2, "insufficient credits"@),
        s2 is Finished,
        is_unexpected(c3),
        s3 is Finished,
{
}

/// A valid check-in on an active assignment of the tester records the
/// trimmed feedback, rewards the tester, records exactly that reward in the
/// tester's ledger, and only then commits.
pub proof fn checkin_records_its_reward(
    tester_id: u128,
    input: CheckinInput,
    s0: CheckinFlow,
    c0: Command,
    s1: CheckinFlow,
    c1: Command,
    s2: CheckinFlow,
    c2: Command,
    s3: CheckinFlow,
    c3: Command,
    s4: CheckinFlow,
    c4: Command,
    s5: CheckinFlow,
    c5: Command,
    s6: CheckinFlow,
    c6: Command,
)
    requires
        checkin_verdict(input) is Ok,
        checkin_started(tester_id, input, s0, c0),
        checkin_next(s0, Reply::Done, s1, c1),
        checkin_next(s1, Reply::Exists(true), s2, c2),
        checkin_next(s2, Reply::Found, s3, c3),
        checkin_next(s3, Reply::Done, s4, c4),
        checkin_next(s4, Reply::Done, s5, c5),
        checkin_next(s5, Reply::Done, s6, c6),
    ensures
        c0 is Begin,
        c1 == (Command::FindActiveAssignment { assignment_id: input.assignment_id, tester_id }),
        c2 matches Command::InsertCheckin {
            assignment_id,
            day_number,
            feedback_text,
            screenshot_url,
        } && assignment_id == input.assignment_id && day_number == input.day_number
            && feedback_text@ == trimmed(input.feedback_text@) && crate::checkin::option_view(
            screenshot_url,
        ) == trimmed_option(input.screenshot_url),
        c3 == (Command::AddCredits { user_id: tester_id, amount: CHECKIN_REWARD }),
        c4 == (Command::RecordCredit {
            user_id: tester_id,
            amount: CHECKIN_REWARD,
            reason: CreditReason::DailyCheckin,
        }),
        c5 is Commit,
        responds_with_result(c6, 201),
{
}

/// A tester is assigned to a locked application exactly when it is not
/// their own and it has fewer active testers than it needs.
pub proof fn joining_assigns_only_when_allowed(
    application_id: u128,
    tester_id: u128,
    developer_id: u128,
    required_testers: i32,
    active_testers: i32,
    s1: JoinFlow,
    c1: Command,
    s2: JoinFlow,
    c2: Command,
)
    requires
        join_next(JoinFlow::AwaitBegin { application_id, tester_id }, Reply::Done, s1, c1),
        join_next(s1, Reply::Slots { developer_id, required_testers, active_testers }, s2, c2),
    ensures
        c1 == (Command::LockApplication { application_id }),
        (c2 == Command::InsertAssignment { application_id, tester_id }) <==> may_join(
            tester_id,
            developer_id,
            required_testers,
            active_testers,
        ),
{
}

/// Expiry is final: a token whose expiry lies more than a minute of leeway before
/// `now` authenticates nobody, however long ago it expired.
pub proof fn expired_tokens_authenticate_nobody(
    token: Seq<char>,
    secret: Seq<u8>,
    user_id: u128,
    exp: u64,
    now: u64,
)
    requires
        jwt_decoded(token, secret) == Some((user_id, exp)),
        exp + 60 < now,
    ensures
        token_user(token, secret, now) is None,
{
}

/// A token that authenticates nobody at one moment authenticates nobody at
/// any later moment either.
pub proof fn refused_tokens_stay_refused(token: Seq<char>, secret: Seq<u8>, earlier: u64, later: u64)
    requires
        earlier <= later,
        token_user(token, secret, earlier) is None,
    ensures
        token_user(token, secret, later) is None,
{
}

/// A token that checks out and whose expiry, plus a minute of leeway, is not before
/// `now` authenticates exactly its subject.
pub proof fn unexpired_tokens_authenticate_their_subject(
    token: Seq<char>,
    secret: Seq<u8>,
    user_id: u128,
    exp: u64,
    now: u64,
)
    requires
        jwt_decoded(token, secret) == Some((user_id, exp)),
        now <= exp + 60,
    ensures
        token_user(token, secret, now) == Some(user_id),
{
}

/// Any e-mail holding an `@` with any password of 8 characters or more is
/// acceptable: the password has no upper bound.
pub proof fn long_enough_credentials_are_acceptable(input: AuthRequest)
    requires
        input.email@.contains('@'),
        input.password@.len() >= 8,
    ensures
        credentials_acceptable(input),
{
}

/// A password of fewer than 8 characters, or an e-mail without `@`, is
/// never acceptable.
pub proof fn short_passwords_and_bare_addresses_are_refused(input: AuthRequest)
    requires
        input.password@.len() < 8 || !input.email@.contains('@'),
    ensures
        !credentials_acceptable(input),
{
}

/// Lengthening the password of acceptable credentials keeps them acceptable.
pub proof fn longer_passwords_stay_acceptable(a: AuthRequest, b: AuthRequest)
    requires
        credentials_acceptable(a),
        b.email@ == a.email@,
        b.password@.len() >= a.password@.len(),
    ensures
        credentials_acceptable(b),
{
}

/// An application with a name of 1 to 120 characters once trimmed, a link
/// that starts with `https://` or `http://` (whatever follows), and 1 to 100
/// testers (12 when it names none) is accepted, and needs that many testers.
pub proof fn applications_with_web_links_are_accepted(input: ApplicationInput, testers: i32)
    requires
        1 <= trimmed(input.app_name@).len() <= 120,
        "https://"@.is_prefix_of(input.playstore_link@) || "http://"@.is_prefix_of(
            input.playstore_link@,
        ),
        input.required_testers == Some(testers) || (input.required_testers is None && testers
            == 12),
        1 <= testers <= 100,
    ensures
        application_verdict(input) == Ok::<i32, Seq<char>>(testers),
{
}

/// An accepted application has a name of 1 to 120 characters once trimmed,
/// a link that starts with `https://` or `http://`, and needs the number of
/// testers it asked for (12 when it named none), between 1 and 100.
pub proof fn accepted_applications_meet_every_rule(input: ApplicationInput, testers: i32)
    requires
        application_verdict(input) == Ok::<i32, Seq<char>>(testers),
    ensures
        1 <= trimmed(input.app_name@).len() <= 120,
        "https://"@.is_prefix_of(input.playstore_link@) || "http://"@.is_prefix_of(
            input.playstore_link@,
        ),
        input.required_testers == Some(testers) || (input.required_testers is None && testers
            == 12),
        1 <= testers <= 100,
{
}

/// Only the start of the link matters: two applications that differ only in
/// what follows an `https://` or `http://` at the start of their links get
/// the same verdict.
pub proof fn link_after_its_scheme_does_not_matter(a: ApplicationInput, b: ApplicationInput)
    requires
        a.app_name@ == b.app_name@,
        a.required_testers == b.required_testers,
        "https://"@.is_prefix_of(a.playstore_link@) || "http://"@.is_prefix_of(a.playstore_link@),
        "https://"@.is_prefix_of(b.playstore_link@) || "http://"@.is_prefix_of(b.playstore_link@),
    ensures
        application_verdict(a) == application_verdict(b),
{
}

/// A check-in for a day from 1 to 14 whose feedback is not blank and has at
/// most 5000 characters is accepted, whatever characters the feedback holds.
pub proof fn checkins_with_feedback_are_accepted(input: CheckinInput)
    requires
        1 <= input.day_number <= 14,
        trimmed(input.feedback_text@).len() > 0,
        input.feedback_text@.len() <= 5000,
    ensures
        checkin_verdict(input) is Ok,
{
}

/// An accepted check-in is for a day from 1 to 14 and has non-blank feedback
/// of at most 5000 characters.
pub proof fn accepted_checkins_meet_every_rule(input: CheckinInput)
    requires
        checkin_verdict(input) is Ok,
    ensures
        1 <= input.day_number <= 14,
        trimmed(input.feedback_text@).len() > 0,
        input.feedback_text@.len() <= 5000,
{
}

/// Two check-ins for the same day whose feedback has the same length, and is
/// blank for both or for neither, get the same verdict, whatever characters
/// the feedback holds.
pub proof fn feedback_content_does_not_matter(a: CheckinInput, b: CheckinInput)
    requires
        a.day_number == b.day_number,
        a.feedback_text@.len() == b.feedback_text@.len(),
        (trimmed(a.feedback_text@).len() == 0) == (trimmed(b.feedback_text@).len() == 0),
    ensures
        (checkin_verdict(a) is Ok) == (checkin_verdict(b) is Ok),
{
}

/// A single row that is found is returned with status 200, whatever its
/// absence would have been answered with; that answer comes only when the
/// row is missing.
pub proof fn found_rows_are_returned(when_missing: AppError, r: Reply, s2: QueryFlow, c: Command)
    requires
        query_next(QueryFlow::AwaitRow { when_missing }, r, s2, c),
    ensures
        r is Found ==> c == (Command::RespondWithResult { status: 200 }) && s2 is Finished,
        r is Missing ==> c == Command::Fail(when_missing) && s2 is Finished,
        r is Found ==> !(c is Fail),
{
}

/// A check-in for a day from 1 to 14 whose feedback holds at least one
/// character that is not white space, and at most 5000 characters, is
/// accepted.
pub proof fn checkins_with_visible_feedback_are_accepted(input: CheckinInput, i: int)
    requires
        1 <= input.day_number <= 14,
        0 <= i < input.feedback_text@.len(),
        !is_white_space(input.feedback_text@[i]),
        input.feedback_text@.len() <= 5000,
    ensures
        checkin_verdict(input) is Ok,
{
    trimmed_is_empty_exactly_for_white_space(input.feedback_text@);
}

/// A check-in for a valid day whose feedback is white space only is refused
/// for its feedback.
pub proof fn blank_feedback_is_refused(input: CheckinInput)
    requires
        1 <= input.day_number <= 14,
        forall|i: int|
            0 <= i < input.feedback_text@.len() ==> is_white_space(
                #[trigger] input.feedback_text@[i],
            ),
    ensures
        checkin_verdict(input) == Err::<(), Seq<char>>(
            "feedback must be between 1 and 5000 characters"@,
        ),
{
    trimmed_is_empty_exactly_for_white_space(input.feedback_text@);
}

/// A check-in for a day outside 1 to 14 is refused for its day, whatever its
/// feedback.
pub proof fn days_outside_the_testing_period_are_refused(input: CheckinInput)
    requires
        input.day_number < 1 || input.day_number > 14,
    ensures
        checkin_verdict(input) == Err::<(), Seq<char>>("day number must be between 1 and 14"@),
{
}

/// An application whose name is white space only is refused for its name,
/// whatever its link and testers.
pub proof fn blank_app_names_are_refused(input: ApplicationInput)
    requires
        forall|i: int|
            0 <= i < input.app_name@.len() ==> is_white_space(#[trigger] input.app_name@[i]),
    ensures
        application_verdict(input) == Err::<i32, Seq<char>>(
            "app name must be between 1 and 120 characters"@,
        ),
{
    trimmed_is_empty_exactly_for_white_space(input.app_name@);
}

/// An application with a valid name whose link starts with neither
/// `https://` nor `http://` is refused for its link.
pub proof fn links_without_web_scheme_are_refused(input: ApplicationInput)
    requires
        1 <= trimmed(input.app_name@).len() <= 120,
        !"https://"@.is_prefix_of(input.playstore_link@),
        !"http://"@.is_prefix_of(input.playstore_link@),
    ensures
        application_verdict(input) == Err::<i32, Seq<char>>(
            "play store link must use http or https"@,
        ),
{
}

/// An application with a valid name and link that asks for fewer than 1 or
/// more than 100 testers is refused for its testers.
pub proof fn tester_counts_outside_range_are_refused(input: ApplicationInput, testers: i32)
    requires
        1 <= trimmed(input.app_name@).len() <= 120,
        "https://"@.is_prefix_of(input.playstore_link@) || "http://"@.is_prefix_of(
            input.playstore_link@,
        ),
        input.required_testers == Some(testers),
        testers < 1 || testers > 100,
    ensures
        application_verdict(input) == Err::<i32, Seq<char>>(
            "required testers must be between 1 and 100"@,
        ),
{
}

/// A tester may join exactly an application that is not their own and has
/// fewer active testers than it needs; a full application stays closed as
/// more testers become active, and an open one stays open as fewer do.
pub proof fn joining_needs_room_and_another_developer(
    tester_id: u128,
    developer_id: u128,
    required_testers: i32,
    active_testers: i32,
    other_active: i32,
)
    ensures
        may_join(tester_id, developer_id, required_testers, active_testers) <==> (developer_id
            != tester_id && active_testers < required_testers),
        !may_join(tester_id, tester_id, required_testers, active_testers),
        may_join(tester_id, developer_id, required_testers, active_testers) && other_active
            <= active_testers ==> may_join(tester_id, developer_id, required_testers, other_active),
        !may_join(tester_id, developer_id, required_testers, active_testers) && other_active
            >= active_testers ==> !may_join(
            tester_id,
            developer_id,
            required_testers,
            other_active,
        ),
{
}

/// The history limit is the requested one when it lies within 1 to 100, 50
/// when none is requested, and otherwise the nearest bound; a larger request
/// never gives a smaller limit.
pub proof fn history_limit_keeps_requests_within_bounds(a: i64, b: i64)
    ensures
        1 <= history_limit_of(Some(a)) <= 100,
        1 <= a <= 100 ==> history_limit_of(Some(a)) == a,
        a < 1 ==> history_limit_of(Some(a)) == 1,
        a > 100 ==> history_limit_of(Some(a)) == 100,
        history_limit_of(None) == 50,
        a <= b ==> history_limit_of(Some(a)) <= history_limit_of(Some(b)),
{
}

/// Each error is answered with its own status: 400 for a bad request, 401
/// when unauthorized, 404 when not found, 409 for a conflict and 500 for an
/// internal error. Internal details never reach the answer: two internal
/// errors carry the same public message whatever their details, while a bad
/// request or a conflict carries its own message.
pub proof fn errors_answer_with_their_status(e: AppError, f: AppError)
    ensures
        e is BadRequest ==> status_of(e) == 400,
        e is Unauthorized ==> status_of(e) == 401,
        e is NotFound ==> status_of(e) == 404,
        e is Conflict ==> status_of(e) == 409,
        e is Internal ==> status_of(e) == 500,
        e is Internal && f is Internal ==> public_message_of(e) == public_message_of(f),
        e matches AppError::BadRequest(m) ==> public_message_of(e) == m@,
        e matches AppError::Conflict(m) ==> public_message_of(e) == m@,
{
}

/// A token issued at `issued` lasts a week: it authenticates its user until
/// seven days and a minute after it was issued, and nobody after that.
pub proof fn tokens_last_a_week(
    token: Seq<char>,
    user_id: u128,
    issued: i64,
    secret: Seq<u8>,
    now: u64,
)
    requires
        issued + TOKEN_LIFETIME_SECONDS <= i64::MAX,
        issued + TOKEN_LIFETIME_SECONDS <= usize::MAX,
        0 <= issued,
        jwt_decoded(token, secret) == Some(
            (user_id, ((issued + TOKEN_LIFETIME_SECONDS) as usize) as u64),
        ),
    ensures
        now <= issued + 7 * 24 * 60 * 60 + 60 ==> token_user(token, secret, now) == Some(user_id),
        now > issued + 7 * 24 * 60 * 60 + 60 ==> token_user(token, secret, now) is None,
{
}

/// The amounts the service works with: a submission costs 100 credits, a
/// registration brings a bonus of 50, a check-in a reward of 10; testing
/// lasts 14 days, an application asks for 12 testers unless it names a
/// number, and a credit history holds 50 entries unless a limit is named.
pub proof fn service_amounts()
    ensures
        APP_SUBMISSION_COST == 100,
        REGISTRATION_BONUS == 50,
        CHECKIN_REWARD == 10,
        TESTING_DAYS == 14,
        DEFAULT_REQUIRED_TESTERS == 12,
        DEFAULT_HISTORY_LIMIT == 50,
        TOKEN_LEEWAY_SECONDS == 60,
{
}

} // verus!
