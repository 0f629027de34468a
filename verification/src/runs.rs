use vstd::prelude::*;

use crate::checkin::{checkin_next, checkin_started, CheckinFlow};
use crate::flow::{
    Command, CreditReason, Reply, APP_SUBMISSION_COST, CHECKIN_REWARD, REGISTRATION_BONUS,
};
use crate::joining::{join_next, may_join, JoinFlow};
use crate::register::{register_next, register_started, RegisterFlow};
use crate::validation::{AuthRequest, CheckinInput};
use crate::submission::{submission_next, submission_started, SubmissionFlow};
use crate::validation::ApplicationInput;

verus! {

/// Step `i` of a submission run: state `i` takes reply `i` to state `i + 1`
/// and gives command `i + 1`.
pub open spec fn submission_step_at(
    replies: Seq<Reply>,
    states: Seq<SubmissionFlow>,
    commands: Seq<Command>,
    i: int,
) -> bool {
    submission_next(states[i], replies[i], states[i + 1], commands[i + 1])
}

/// A run of the submission flow on any replies: it starts, then takes one
/// step per reply. Command `i` is answered by reply `i`.
pub open spec fn submission_run(
    developer_id: u128,
    input: ApplicationInput,
    replies: Seq<Reply>,
    states: Seq<SubmissionFlow>,
    commands: Seq<Command>,
) -> bool {
    &&& states.len() == replies.len() + 1
    &&& commands.len() == states.len()
    &&& submission_started(developer_id, input, states[0], commands[0])
    &&& forall|i: int|
        0 <= i < replies.len() ==> #[trigger] submission_step_at(replies, states, commands, i)
}

/// Whether `c` records the submission cost as spent by the developer.
pub open spec fn records_submission(c: Command, developer_id: u128) -> bool {
    &&& c matches Command::RecordCredit { user_id, amount, reason }
    &&& user_id == developer_id
    &&& amount == -APP_SUBMISSION_COST
    &&& reason == CreditReason::ApplicationSubmission
}

/// What command `t` of a submission run may do to credits: only command 1
/// charges, and it charges the developer the submission cost; only command 3
/// records, and it records that cost as spent by the developer; no command
/// adds credits; only command 5 commits.
pub open spec fn submission_credit_ok(t: int, c: Command, developer_id: u128) -> bool {
    &&& c is ChargeCredits ==> t == 1 && c == Command::ChargeCredits {
        user_id: developer_id,
        amount: APP_SUBMISSION_COST,
    }
    &&& c is RecordCredit ==> t == 3 && records_submission(c, developer_id)
    &&& !(c is AddCredits)
    &&& c is Commit ==> t == 5
}

/// The state that the successful path reaches after `k` replies.
pub open spec fn submission_on_path(k: int, s: SubmissionFlow, developer_id: u128) -> bool {
    if k == 0 {
        s matches SubmissionFlow::AwaitBegin { developer_id: d, .. } && d == developer_id
    } else if k == 1 {
        s matches SubmissionFlow::AwaitCharge { developer_id: d, .. } && d == developer_id
    } else if k == 2 {
        s == SubmissionFlow::AwaitApplicationId { developer_id }
    } else if k == 3 {
        s is AwaitLedger
    } else if k == 4 {
        s is AwaitApplication
    } else {
        k == 5 && s is AwaitCommit
    }
}

/// What holds after `k` replies of a submission run.
pub open spec fn submission_invariant(
    developer_id: u128,
    replies: Seq<Reply>,
    states: Seq<SubmissionFlow>,
    commands: Seq<Command>,
    k: int,
) -> bool {
    &&& forall|t: int|
        0 <= t <= k ==> #[trigger] submission_credit_ok(t, commands[t], developer_id)
    &&& states[k] is Finished || {
        &&& submission_on_path(k, states[k], developer_id)
        &&& k >= 1 ==> commands[1] == Command::ChargeCredits {
            user_id: developer_id,
            amount: APP_SUBMISSION_COST,
        }
        &&& k >= 2 ==> replies[1] == Reply::RowsAffected(1)
        &&& k >= 3 ==> commands[3] is RecordCredit
        &&& k >= 4 ==> replies[3] is Done
    }
}

proof fn lemma_submission_invariant(
    developer_id: u128,
    input: ApplicationInput,
    replies: Seq<Reply>,
    states: Seq<SubmissionFlow>,
    commands: Seq<Command>,
    k: int,
)
    requires
        submission_run(developer_id, input, replies, states, commands),
        0 <= k < states.len(),
    ensures
        submission_invariant(developer_id, replies, states, commands, k),
    decreases k,
{
    if k > 0 {
        lemma_submission_invariant(developer_id, input, replies, states, commands, k - 1);
        assert(submission_step_at(replies, states, commands, k - 1));
        assert(submission_credit_ok(k, commands[k], developer_id));
        assert(forall|t: int|
            0 <= t <= k ==> #[trigger] submission_credit_ok(t, commands[t], developer_id)) by {
            assert forall|t: int| 0 <= t <= k implies #[trigger] submission_credit_ok(
                t,
                commands[t],
                developer_id,
            ) by {
                if t < k {
                    assert(submission_credit_ok(t, commands[t], developer_id));
                }
            }
        }
    } else {
        assert(submission_credit_ok(0, commands[0], developer_id));
    }
}

/// Every run of a submission, whatever the database replies, changes credits
/// only as a whole: it charges at most once and records at most once, and if
/// it commits, the charge of the submission cost to the developer went
/// through (exactly one balance changed) and the equal spending was recorded
/// in the developer's ledger before the commit.
pub proof fn submission_commits_charge_with_its_record(
    developer_id: u128,
    input: ApplicationInput,
    replies: Seq<Reply>,
    states: Seq<SubmissionFlow>,
    commands: Seq<Command>,
    k: int,
)
    requires
        submission_run(developer_id, input, replies, states, commands),
        0 <= k < commands.len(),
    ensures
        submission_credit_ok(k, commands[k], developer_id),
        commands[k] is Commit ==> {
            &&& k == 5
            &&& commands[1] == Command::ChargeCredits {
                user_id: developer_id,
                amount: APP_SUBMISSION_COST,
            }
            &&& replies[1] == Reply::RowsAffected(1)
            &&& records_submission(commands[3], developer_id)
            &&& replies[3] is Done
        },
{
    lemma_submission_invariant(developer_id, input, replies, states, commands, k);
    assert(submission_credit_ok(k, commands[k], developer_id));
    if commands[k] is Commit {
        lemma_submission_invariant(developer_id, input, replies, states, commands, k - 1);
        lemma_submission_invariant(developer_id, input, replies, states, commands, 3);
        assert(submission_step_at(replies, states, commands, k - 1));
        assert(submission_credit_ok(3, commands[3], developer_id));
    }
}

/// Step `i` of a check-in run.
pub open spec fn checkin_step_at(
    replies: Seq<Reply>,
    states: Seq<CheckinFlow>,
    commands: Seq<Command>,
    i: int,
) -> bool {
    checkin_next(states[i], replies[i], states[i + 1], commands[i + 1])
}

/// A run of the check-in flow on any replies.
pub open spec fn checkin_run(
    tester_id: u128,
    input: CheckinInput,
    replies: Seq<Reply>,
    states: Seq<CheckinFlow>,
    commands: Seq<Command>,
) -> bool {
    &&& states.len() == replies.len() + 1
    &&& commands.len() == states.len()
    &&& checkin_started(tester_id, input, states[0], commands[0])
    &&& forall|i: int|
        0 <= i < replies.len() ==> #[trigger] checkin_step_at(replies, states, commands, i)
}

/// What command `t` of a check-in run may do to credits: only command 3 adds
/// credits, the reward to the tester; only command 4 records, that reward as
/// earned by the tester; nothing is charged; only command 5 commits.
pub open spec fn checkin_credit_ok(t: int, c: Command, tester_id: u128) -> bool {
    &&& c is AddCredits ==> t == 3 && c == Command::AddCredits {
        user_id: tester_id,
        amount: CHECKIN_REWARD,
    }
    &&& c is RecordCredit ==> t == 4 && c == Command::RecordCredit {
        user_id: tester_id,
        amount: CHECKIN_REWARD,
        reason: CreditReason::DailyCheckin,
    }
    &&& !(c is ChargeCredits)
    &&& c is Commit ==> t == 5
}

/// The state that the successful check-in path reaches after `k` replies.
pub open spec fn checkin_on_path(k: int, s: CheckinFlow, tester_id: u128) -> bool {
    if k == 0 {
        s matches CheckinFlow::AwaitBegin { tester_id: t, .. } && t == tester_id
    } else if k == 1 {
        s matches CheckinFlow::AwaitAssignment { tester_id: t, .. } && t == tester_id
    } else if k == 2 {
        s == CheckinFlow::AwaitCheckin { tester_id }
    } else if k == 3 {
        s == CheckinFlow::AwaitReward { tester_id }
    } else if k == 4 {
        s is AwaitLedger
    } else {
        k == 5 && s is AwaitCommit
    }
}

/// What holds after `k` replies of a check-in run.
pub open spec fn checkin_invariant(
    tester_id: u128,
    replies: Seq<Reply>,
    states: Seq<CheckinFlow>,
    commands: Seq<Command>,
    k: int,
) -> bool {
    &&& forall|t: int| 0 <= t <= k ==> #[trigger] checkin_credit_ok(t, commands[t], tester_id)
    &&& states[k] is Finished || {
        &&& checkin_on_path(k, states[k], tester_id)
        &&& k >= 3 ==> commands[3] is AddCredits
        &&& k >= 4 ==> replies[3] is Done && commands[4] is RecordCredit
        &&& k >= 5 ==> replies[4] is Done
    }
}

proof fn lemma_checkin_invariant(
    tester_id: u128,
    input: CheckinInput,
    replies: Seq<Reply>,
    states: Seq<CheckinFlow>,
    commands: Seq<Command>,
    k: int,
)
    requires
        checkin_run(tester_id, input, replies, states, commands),
        0 <= k < states.len(),
    ensures
        checkin_invariant(tester_id, replies, states, commands, k),
    decreases k,
{
    if k > 0 {
        lemma_checkin_invariant(tester_id, input, replies, states, commands, k - 1);
        assert(checkin_step_at(replies, states, commands, k - 1));
        assert(checkin_credit_ok(k, commands[k], tester_id));
        assert forall|t: int| 0 <= t <= k implies #[trigger] checkin_credit_ok(
            t,
            commands[t],
            tester_id,
        ) by {
            if t < k {
                assert(checkin_credit_ok(t, commands[t], tester_id));
            }
        }
    } else {
        assert(checkin_credit_ok(0, commands[0], tester_id));
    }
}

/// Every run of a check-in, whatever the database replies, changes credits
/// only as a whole: it adds credits at most once and records at most once,
/// and if it commits, the reward was added to the tester's balance and the
/// equal amount recorded as earned in the tester's ledger before the commit.
pub proof fn checkin_commits_reward_with_its_record(
    tester_id: u128,
    input: CheckinInput,
    replies: Seq<Reply>,
    states: Seq<CheckinFlow>,
    commands: Seq<Command>,
    k: int,
)
    requires
        checkin_run(tester_id, input, replies, states, commands),
        0 <= k < commands.len(),
    ensures
        checkin_credit_ok(k, commands[k], tester_id),
        commands[k] is Commit ==> {
            &&& k == 5
            &&& commands[3] == Command::AddCredits { user_id: tester_id, amount: CHECKIN_REWARD }
            &&& replies[3] is Done
            &&& commands[4] == Command::RecordCredit {
                user_id: tester_id,
                amount: CHECKIN_REWARD,
                reason: CreditReason::DailyCheckin,
            }
            &&& replies[4] is Done
        },
{
    lemma_checkin_invariant(tester_id, input, replies, states, commands, k);
    assert(checkin_credit_ok(k, commands[k], tester_id));
    if commands[k] is Commit {
        lemma_checkin_invariant(tester_id, input, replies, states, commands, k - 1);
        assert(checkin_step_at(replies, states, commands, k - 1));
        assert(checkin_credit_ok(3, commands[3], tester_id));
        assert(checkin_credit_ok(4, commands[4], tester_id));
    }
}

/// Step `i` of a registration run.
pub open spec fn register_step_at(
    replies: Seq<Reply>,
    states: Seq<RegisterFlow>,
    commands: Seq<Command>,
    i: int,
) -> bool {
    register_next(states[i], replies[i], states[i + 1], commands[i + 1])
}

/// A run of the registration flow on any replies.
pub open spec fn register_run(
    input: AuthRequest,
    secret: String,
    replies: Seq<Reply>,
    states: Seq<RegisterFlow>,
    commands: Seq<Command>,
) -> bool {
    &&& states.len() == replies.len() + 1
    &&& commands.len() == states.len()
    &&& register_started(input, secret, states[0], commands[0])
    &&& forall|i: int|
        0 <= i < replies.len() ==> #[trigger] register_step_at(replies, states, commands, i)
}

/// What command `t` of a registration run may do to credits: only command 1
/// creates a user, with the registration bonus as balance; only command 2
/// records, the registration bonus; nothing is charged or added; only
/// command 3 commits.
pub open spec fn register_credit_ok(t: int, c: Command) -> bool {
    &&& c is InsertUser ==> t == 1 && (c matches Command::InsertUser { credits_balance, .. }
        && credits_balance == REGISTRATION_BONUS)
    &&& c is RecordCredit ==> t == 2 && (c matches Command::RecordCredit { amount, reason, .. }
        && amount == REGISTRATION_BONUS && reason == CreditReason::RegistrationBonus)
    &&& !(c is ChargeCredits)
    &&& !(c is AddCredits)
    &&& c is Commit ==> t == 3
}

/// The state that the successful registration path reaches after `k` replies.
pub open spec fn register_on_path(k: int, s: RegisterFlow) -> bool {
    if k == 0 {
        s is AwaitBegin
    } else if k == 1 {
        s is AwaitUser
    } else if k == 2 {
        s is AwaitBonusRecord
    } else if k == 3 {
        s is AwaitCommit
    } else {
        k == 4 && s is AwaitClock
    }
}

/// Whether `c` records the registration bonus for the user that `r` returned.
pub open spec fn records_bonus_of(r: Reply, c: Command) -> bool {
    &&& r matches Reply::User { id, .. }
    &&& c == Command::RecordCredit {
        user_id: id,
        amount: REGISTRATION_BONUS,
        reason: CreditReason::RegistrationBonus,
    }
}

/// What holds after `k` replies of a registration run.
pub open spec fn register_invariant(
    replies: Seq<Reply>,
    states: Seq<RegisterFlow>,
    commands: Seq<Command>,
    k: int,
) -> bool {
    &&& forall|t: int| 0 <= t <= k ==> #[trigger] register_credit_ok(t, commands[t])
    &&& states[k] is Finished || {
        &&& register_on_path(k, states[k])
        &&& k >= 1 ==> commands[1] is InsertUser
        &&& k >= 2 ==> records_bonus_of(replies[1], commands[2])
        &&& k >= 3 ==> replies[2] is Done
    }
}

proof fn lemma_register_invariant(
    input: AuthRequest,
    secret: String,
    replies: Seq<Reply>,
    states: Seq<RegisterFlow>,
    commands: Seq<Command>,
    k: int,
)
    requires
        register_run(input, secret, replies, states, commands),
        0 <= k < states.len(),
    ensures
        register_invariant(replies, states, commands, k),
    decreases k,
{
    if k > 0 {
        lemma_register_invariant(input, secret, replies, states, commands, k - 1);
        assert(register_step_at(replies, states, commands, k - 1));
        assert(register_credit_ok(k, commands[k]));
        assert forall|t: int| 0 <= t <= k implies #[trigger] register_credit_ok(t, commands[t]) by {
            if t < k {
                assert(register_credit_ok(t, commands[t]));
            }
        }
    } else {
        assert(register_credit_ok(0, commands[0]));
    }
}

/// Every run of a registration, whatever the database replies, credits the
/// new user only as a whole: it creates at most one user, with the bonus as
/// balance, records at most once, and if it commits, the bonus was recorded
/// for the very user the database created, before the commit.
pub proof fn registration_commits_bonus_with_its_record(
    input: AuthRequest,
    secret: String,
    replies: Seq<Reply>,
    states: Seq<RegisterFlow>,
    commands: Seq<Command>,
    k: int,
)
    requires
        register_run(input, secret, replies, states, commands),
        0 <= k < commands.len(),
    ensures
        register_credit_ok(k, commands[k]),
        commands[k] is Commit ==> {
            &&& k == 3
            &&& commands[1] is InsertUser
            &&& records_bonus_of(replies[1], commands[2])
            &&& replies[2] is Done
        },
{
    lemma_register_invariant(input, secret, replies, states, commands, k);
    assert(register_credit_ok(k, commands[k]));
    if commands[k] is Commit {
        lemma_register_invariant(input, secret, replies, states, commands, k - 1);
        assert(register_step_at(replies, states, commands, k - 1));
    }
}

/// Step `i` of a joining run.
pub open spec fn join_step_at(
    replies: Seq<Reply>,
    states: Seq<JoinFlow>,
    commands: Seq<Command>,
    i: int,
) -> bool {
    join_next(states[i], replies[i], states[i + 1], commands[i + 1])
}

/// A run of a tester's request to join an application, on any replies.
pub open spec fn join_run(
    application_id: u128,
    tester_id: u128,
    replies: Seq<Reply>,
    states: Seq<JoinFlow>,
    commands: Seq<Command>,
) -> bool {
    &&& states.len() == replies.len() + 1
    &&& commands.len() == states.len()
    &&& states[0] == JoinFlow::AwaitBegin { application_id, tester_id }
    &&& commands[0] is Begin
    &&& forall|i: int|
        0 <= i < replies.len() ==> #[trigger] join_step_at(replies, states, commands, i)
}

/// What command `t` of a joining run may be: only command 1 locks the
/// application, only command 2 assigns, and only this tester to this
/// application; only command 4 commits.
pub open spec fn join_command_ok(t: int, c: Command, application_id: u128, tester_id: u128) -> bool {
    &&& c is LockApplication ==> t == 1
    &&& c is InsertAssignment ==> t == 2 && c == Command::InsertAssignment {
        application_id,
        tester_id,
    }
    &&& c is Commit ==> t == 4
}

/// Whether reply `r` to the lock shows an application the tester may join.
pub open spec fn slots_allow(r: Reply, tester_id: u128) -> bool {
    &&& r matches Reply::Slots { developer_id, required_testers, active_testers }
    &&& may_join(tester_id, developer_id, required_testers, active_testers)
}

/// The state that the successful joining path reaches after `k` replies.
pub open spec fn join_on_path(k: int, s: JoinFlow, application_id: u128, tester_id: u128) -> bool {
    if k == 0 {
        s == JoinFlow::AwaitBegin { application_id, tester_id }
    } else if k == 1 {
        s == JoinFlow::AwaitSlots { application_id, tester_id }
    } else if k == 2 {
        s == JoinFlow::AwaitAssignment { application_id }
    } else if k == 3 {
        s is AwaitStatus
    } else {
        k == 4 && s is AwaitCommit
    }
}

/// What holds after `k` replies of a joining run.
pub open spec fn join_invariant(
    application_id: u128,
    tester_id: u128,
    replies: Seq<Reply>,
    states: Seq<JoinFlow>,
    commands: Seq<Command>,
    k: int,
) -> bool {
    &&& forall|t: int|
        0 <= t <= k ==> #[trigger] join_command_ok(t, commands[t], application_id, tester_id)
    &&& states[k] is Finished || {
        &&& join_on_path(k, states[k], application_id, tester_id)
        &&& k >= 1 ==> commands[1] == Command::LockApplication { application_id }
        &&& k >= 2 ==> slots_allow(replies[1], tester_id) && commands[2] is InsertAssignment
        &&& k >= 3 ==> replies[2] is Found
    }
}

proof fn lemma_join_invariant(
    application_id: u128,
    tester_id: u128,
    replies: Seq<Reply>,
    states: Seq<JoinFlow>,
    commands: Seq<Command>,
    k: int,
)
    requires
        join_run(application_id, tester_id, replies, states, commands),
        0 <= k < states.len(),
    ensures
        join_invariant(application_id, tester_id, replies, states, commands, k),
    decreases k,
{
    if k > 0 {
        lemma_join_invariant(application_id, tester_id, replies, states, commands, k - 1);
        assert(join_step_at(replies, states, commands, k - 1));
        assert(join_command_ok(k, commands[k], application_id, tester_id));
        assert forall|t: int| 0 <= t <= k implies #[trigger] join_command_ok(
            t,
            commands[t],
            application_id,
            tester_id,
        ) by {
            if t < k {
                assert(join_command_ok(t, commands[t], application_id, tester_id));
            }
        }
    } else {
        assert(join_command_ok(0, commands[0], application_id, tester_id));
    }
}

/// Every run of a request to join, whatever the database replies, assigns
/// at most once, and if it commits, the application was locked first, was
/// not the tester's own and had fewer active testers than it needs, and the
/// one assignment it made was this tester to this application. An
/// application that does not exceed its testers before the request does
/// not after it.
pub proof fn joining_commits_one_allowed_assignment(
    application_id: u128,
    tester_id: u128,
    replies: Seq<Reply>,
    states: Seq<JoinFlow>,
    commands: Seq<Command>,
    k: int,
)
    requires
        join_run(application_id, tester_id, replies, states, commands),
        0 <= k < commands.len(),
    ensures
        join_command_ok(k, commands[k], application_id, tester_id),
        commands[k] is Commit ==> {
            &&& k == 4
            &&& commands[1] == Command::LockApplication { application_id }
            &&& slots_allow(replies[1], tester_id)
            &&& commands[2] == Command::InsertAssignment { application_id, tester_id }
            &&& replies[2] is Found
        },
{
    lemma_join_invariant(application_id, tester_id, replies, states, commands, k);
    assert(join_command_ok(k, commands[k], application_id, tester_id));
    if commands[k] is Commit {
        lemma_join_invariant(application_id, tester_id, replies, states, commands, k - 1);
        assert(join_step_at(replies, states, commands, k - 1));
        assert(join_command_ok(2, commands[2], application_id, tester_id));
    }
}

} // verus!
