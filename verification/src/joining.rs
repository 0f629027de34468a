use vstd::prelude::*;

use crate::error::AppError;
use crate::flow::{
    db_failed, fails_bad_request, fails_conflict, fails_with, fails_with_db_error, is_unexpected,
    responds_with_result, unexpected, Command, Reply,
};

verus! {

/// Where a tester's request to join an application stands.
pub enum JoinFlow {
    /// Waiting for the transaction to open.
    AwaitBegin { application_id: u128, tester_id: u128 },
    /// Waiting for the locked application.
    AwaitSlots { application_id: u128, tester_id: u128 },
    /// Waiting for the new assignment.
    AwaitAssignment { application_id: u128 },
    /// Waiting for the application's status to be brought up to date.
    AwaitStatus,
    /// Waiting for the commit.
    AwaitCommit,
    /// Answered.
    Finished,
}

/// Whether a tester may join an application: it is not their own, and it
/// still has fewer active testers than it needs.
pub open spec fn may_join(
    tester_id: u128,
    developer_id: u128,
    required_testers: i32,
    active_testers: i32,
) -> bool {
    developer_id != tester_id && active_testers < required_testers
}

/// The decision once the application is locked: developers cannot test
/// their own app, a full application is a conflict, otherwise the tester is
/// assigned.
pub open spec fn join_decided(
    application_id: u128,
    tester_id: u128,
    developer_id: u128,
    required_testers: i32,
    active_testers: i32,
    s2: JoinFlow,
    c: Command,
) -> bool {
    if developer_id == tester_id {
        s2 is Finished && fails_bad_request(c, "developers cannot test their own app"@)
    } else if active_testers >= required_testers {
        s2 is Finished && fails_conflict(c, "application already has enough testers"@)
    } else {
        &&& s2 == JoinFlow::AwaitAssignment { application_id }
        &&& c == Command::InsertAssignment { application_id, tester_id }
    }
}

/// A joining step once the flow is waiting for a reply.
pub open spec fn join_advanced(s: JoinFlow, r: Reply, s2: JoinFlow, c: Command) -> bool {
    match s {
        JoinFlow::AwaitBegin { application_id, tester_id } => if r is Done {
            &&& s2 == JoinFlow::AwaitSlots { application_id, tester_id }
            &&& c == Command::LockApplication { application_id }
        } else {
            s2 is Finished && is_unexpected(c)
        },
        JoinFlow::AwaitSlots { application_id, tester_id } => match r {
            Reply::Missing => s2 is Finished && fails_with(c, AppError::NotFound),
            Reply::Slots { developer_id, required_testers, active_testers } => join_decided(
                application_id,
                tester_id,
                developer_id,
                required_testers,
                active_testers,
                s2,
                c,
            ),
            _ => s2 is Finished && is_unexpected(c),
        },
        JoinFlow::AwaitAssignment { application_id } => if r is Found {
            s2 is AwaitStatus && c == Command::RefreshApplicationStatus { application_id }
        } else {
            s2 is Finished && is_unexpected(c)
        },
        JoinFlow::AwaitStatus => if r is Done {
            s2 is AwaitCommit && c is Commit
        } else {
            s2 is Finished && is_unexpected(c)
        },
        JoinFlow::AwaitCommit => s2 is Finished && if r is Done {
            responds_with_result(c, 201)
        } else {
            is_unexpected(c)
        },
        JoinFlow::Finished => s2 is Finished && is_unexpected(c),
    }
}

/// One joining step.
pub open spec fn join_next(s: JoinFlow, r: Reply, s2: JoinFlow, c: Command) -> bool {
    if s is Finished {
        s2 is Finished && is_unexpected(c)
    } else if r is Failed {
        s2 is Finished && (r matches Reply::Failed(f) && fails_with_db_error(c, f))
    } else {
        join_advanced(s, r, s2, c)
    }
}

/// Starts a tester's request to join an application.
pub fn join_application(tester_id: u128, application_id: u128) -> (res: (JoinFlow, Command))
    ensures
        res.0 == (JoinFlow::AwaitBegin { application_id, tester_id }),
        (res.1 is Begin),
{
    (JoinFlow::AwaitBegin { application_id, tester_id }, Command::Begin)
}

/// Decides on the locked application.
fn decide_join(
    application_id: u128,
    tester_id: u128,
    developer_id: u128,
    required_testers: i32,
    active_testers: i32,
) -> (res: (JoinFlow, Command))
    ensures
        join_decided(
            application_id,
            tester_id,
            developer_id,
            required_testers,
            active_testers,
            res.0,
            res.1,
        ),
{
    if developer_id == tester_id {
        return (
            JoinFlow::Finished,
            Command::Fail(AppError::bad_request("developers cannot test their own app")),
        );
    }
    if active_testers >= required_testers {
        return (
            JoinFlow::Finished,
            Command::Fail(AppError::conflict("application already has enough testers")),
        );
    }
    (JoinFlow::AwaitAssignment { application_id }, Command::InsertAssignment { application_id, tester_id })
}

impl JoinFlow {
    /// Takes the reply to the last command and gives the next one.
    pub fn step(self, reply: Reply) -> (res: (JoinFlow, Command))
        ensures
            join_next(self, reply, res.0, res.1),
    {
        match (self, reply) {
            (JoinFlow::Finished, _) => (JoinFlow::Finished, unexpected()),
            (_, Reply::Failed(f)) => (JoinFlow::Finished, db_failed(f)),
            (JoinFlow::AwaitBegin { application_id, tester_id }, Reply::Done) => (
                JoinFlow::AwaitSlots { application_id, tester_id },
                Command::LockApplication { application_id },
            ),
            (JoinFlow::AwaitSlots { .. }, Reply::Missing) => (
                JoinFlow::Finished,
                Command::Fail(AppError::NotFound),
            ),
            (
                JoinFlow::AwaitSlots { application_id, tester_id },
                Reply::Slots { developer_id, required_testers, active_testers },
            ) => decide_join(
                application_id,
                tester_id,
                developer_id,
                required_testers,
                active_testers,
            ),
            (JoinFlow::AwaitAssignment { application_id }, Reply::Found) => (
                JoinFlow::AwaitStatus,
                Command::RefreshApplicationStatus { application_id },
            ),
            (JoinFlow::AwaitStatus, Reply::Done) => (JoinFlow::AwaitCommit, Command::Commit),
            (JoinFlow::AwaitCommit, Reply::Done) => (
                JoinFlow::Finished,
                Command::RespondWithResult { status: 201 },
            ),
            _ => (JoinFlow::Finished, unexpected()),
        }
    }
}

} // verus!
