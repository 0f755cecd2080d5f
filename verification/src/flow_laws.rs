//! What holds of every request, whichever route it is addressed to.
use vstd::prelude::*;
use crate::access::{spec_admits, spec_guard_of, spec_is_write, Guard, Role};
use crate::flow::{
    spec_added_notice, spec_awaits, spec_begin, spec_denial_notice, spec_follows_protocol,
    spec_query_writes, spec_reply_status, spec_route_of, spec_stage_wf, spec_stage_writes,
    spec_step, Action, Answer, Change, DbFailure, Query, Reply, Request, Stage, Table,
};
use crate::models::{Sub, Teacher};
use crate::notice::{HttpStatus, Notice};

verus! {

/// How far a stage is from its reply: the number of lookups that must
/// still come before the teachers of a class are being collected, or the
/// answers still awaited otherwise.
pub open spec fn spec_phase(s: Stage) -> nat {
    match s {
        Stage::Done => 0,
        Stage::AwaitInsert(_) | Stage::AwaitTeachers | Stage::AwaitTeacher | Stage::AwaitStudents
        | Stage::AwaitMaybeStudent | Stage::AwaitGrades | Stage::AwaitRows(_)
        | Stage::CollectTeachers { .. } => 1,
        Stage::AwaitSubsOfClass | Stage::AwaitSubOfClass | Stage::AwaitStudentForScore { .. }
        | Stage::AwaitGradeToRemove => 2,
        Stage::AwaitStudentForGrade { .. } => 3,
    }
}

/// The number of teachers still to be looked up while collecting them.
pub open spec fn spec_pending(s: Stage) -> nat {
    match s {
        Stage::CollectTeachers { subs, found } => (subs@.len() - found@.len()) as nat,
        _ => 0,
    }
}

/// A request that its route's guard turns away is answered at once with
/// status 401 and never reaches the database: without a token it is
/// rejected, with one it is refused with the route's message.
pub proof fn law_turned_away_requests_touch_nothing(req: Request, caller: Option<Role>)
    requires
        !spec_admits(spec_guard_of(spec_route_of(req)), caller),
    ensures
        spec_begin(req, caller).0 == Stage::Done,
        caller is None ==> spec_begin(req, caller).1 == Action::Respond(Reply::Rejected),
        caller is Some ==> spec_begin(req, caller).1 == Action::Respond(
            Reply::Unauthorized(spec_denial_notice(spec_route_of(req))),
        ),
        spec_begin(req, caller).1 matches Action::Respond(r) && spec_reply_status(r)
            == HttpStatus::Unauthorized,
{
}

/// A request that its route's guard admits is never refused at the start.
pub proof fn law_admitted_requests_are_served(req: Request, caller: Option<Role>)
    requires
        spec_admits(spec_guard_of(spec_route_of(req)), caller),
    ensures
        !(spec_begin(req, caller).1 matches Action::Respond(r) && spec_reply_status(r)
            == HttpStatus::Unauthorized),
{
}

/// A request to a public route is served alike for every caller.
pub proof fn law_public_requests_ignore_the_caller(
    req: Request,
    caller: Option<Role>,
    other: Option<Role>,
)
    requires
        spec_guard_of(spec_route_of(req)) == Guard::Public,
    ensures
        spec_begin(req, caller) == spec_begin(req, other),
{
}

/// Only a request to a write route, from the principal or a teacher whom
/// that route admits, starts a flow that changes the database.
pub proof fn law_only_admitted_staff_start_writes(req: Request, caller: Option<Role>)
    requires
        spec_stage_writes(spec_begin(req, caller).0) || (spec_begin(req, caller).1 matches Action::Run(
            q,
        ) && spec_query_writes(q)),
    ensures
        spec_is_write(spec_route_of(req)),
        spec_admits(spec_guard_of(spec_route_of(req)), caller),
        caller == Some(Role::Principal) || caller == Some(Role::Teacher),
{
}

/// A flow that only reads never turns into one that writes: from a stage
/// outside the write flows, a step neither issues a write nor enters a
/// write flow.
pub proof fn law_reads_never_write(stage: Stage, answer: Answer, next: Stage, action: Action)
    requires
        !spec_stage_writes(stage),
        spec_step(stage, answer, next, action),
    ensures
        !spec_stage_writes(next),
        !(action matches Action::Run(q) && spec_query_writes(q)),
{
}

/// An insert is answered 201 with the table's message exactly where it
/// wrote one row, and 401 with "not allowed" otherwise (also where it
/// failed).
pub proof fn law_insert_succeeds_iff_one_row(
    t: Table,
    res: Result<usize, DbFailure>,
    next: Stage,
    action: Action,
)
    requires
        spec_step(Stage::AwaitInsert(t), Answer::Inserted(res), next, action),
    ensures
        next == Stage::Done,
        res == Ok::<usize, DbFailure>(1) ==> action == Action::Respond(
            Reply::Created(spec_added_notice(t)),
        ),
        res != Ok::<usize, DbFailure>(1) ==> action == Action::Respond(
            Reply::Unauthorized(Notice::NotAllowed),
        ),
{
}

/// An update or delete succeeds (200 or 202) exactly where it touched one
/// row; otherwise it is answered 304 (updates) or 401 (deletes).
pub proof fn law_change_succeeds_iff_one_row(c: Change, rows: usize, next: Stage, action: Action)
    requires
        spec_step(Stage::AwaitRows(c), Answer::Rows(rows), next, action),
    ensures
        next == Stage::Done,
        action matches Action::Respond(r) && ((spec_reply_status(r) == HttpStatus::Success
            || spec_reply_status(r) == HttpStatus::Accepted) <==> rows == 1),
        action matches Action::Respond(r) && (rows != 1 ==> (spec_reply_status(r)
            == HttpStatus::NotModified || spec_reply_status(r) == HttpStatus::Unauthorized)),
{
}

/// Every start keeps the protocol: a reply ends the request, and a query is
/// followed by a stage that waits for the kind of answer it gets.
pub proof fn law_begin_follows_protocol(req: Request, caller: Option<Role>)
    ensures
        spec_follows_protocol(spec_begin(req, caller).0, spec_begin(req, caller).1),
{
}

/// Every step keeps the protocol.
pub proof fn law_step_follows_protocol(stage: Stage, answer: Answer, next: Stage, action: Action)
    requires
        spec_stage_wf(stage),
        spec_step(stage, answer, next, action),
    ensures
        spec_follows_protocol(next, action),
{
}

/// Every request ends: each step brings it strictly closer to its reply,
/// first by phase, then by the teachers still to be looked up.
pub proof fn law_every_step_progresses(stage: Stage, answer: Answer, next: Stage, action: Action)
    requires
        spec_stage_wf(stage),
        spec_step(stage, answer, next, action),
    ensures
        spec_phase(next) < spec_phase(stage) || (spec_phase(next) == spec_phase(stage)
            && spec_pending(next) < spec_pending(stage)),
{
}

/// The stages of a run of steps that collects teachers: before the `k`-th
/// answer the request holds the subjects and the first `k` answers.
proof fn lemma_collecting_prefix(
    subs: Vec<Sub>,
    answers: Seq<Teacher>,
    run: Seq<(Stage, Action)>,
    k: int,
)
    requires
        0 <= k < answers.len(),
        answers.len() == subs@.len(),
        run.len() == answers.len() + 1,
        run[0].0 matches Stage::CollectTeachers { subs: s, found: f } && s == subs && f@
            == Seq::<Teacher>::empty(),
        forall|i: int|
            0 <= i < answers.len() ==> #[trigger] spec_step(
                run[i].0,
                Answer::Teacher(answers[i]),
                run[i + 1].0,
                run[i + 1].1,
            ),
    ensures
        run[k].0 matches Stage::CollectTeachers { subs: s, found: f } && s == subs && f@
            == answers.take(k),
    decreases k,
{
    if k > 0 {
        lemma_collecting_prefix(subs, answers, run, k - 1);
        assert(spec_step(run[k - 1].0, Answer::Teacher(answers[k - 1]), run[k].0, run[k].1));
        assert(answers.take(k - 1).push(answers[k - 1]) =~= answers.take(k));
    } else {
        assert(answers.take(0) =~= Seq::<Teacher>::empty());
    }
}

/// The teachers of a class are looked up one per subject, in the order of
/// the subjects, and answered in that order: after the subjects came, the
/// `i`-th lookup asks for the teacher of the `i`-th subject, and the reply
/// lists the answers to the lookups as they came.
pub proof fn law_teachers_answered_in_subject_order(
    subs: Vec<Sub>,
    answers: Seq<Teacher>,
    run: Seq<(Stage, Action)>,
)
    requires
        subs@.len() > 0,
        answers.len() == subs@.len(),
        run.len() == answers.len() + 1,
        spec_step(Stage::AwaitSubsOfClass, Answer::Subs(subs), run[0].0, run[0].1),
        forall|i: int|
            0 <= i < answers.len() ==> #[trigger] spec_step(
                run[i].0,
                Answer::Teacher(answers[i]),
                run[i + 1].0,
                run[i + 1].1,
            ),
    ensures
        forall|i: int|
            0 <= i < answers.len() ==> #[trigger] run[i].1 == Action::Run(
                Query::FirstTeacherWithId(subs@[i].teacher_id),
            ),
        run[answers.len() as int].0 == Stage::Done,
        run[answers.len() as int].1 matches Action::Respond(Reply::Teachers(v)) && v@ == answers,
{
    let n = answers.len() as int;
    assert forall|i: int| 0 <= i < n implies #[trigger] run[i].1 == Action::Run(
        Query::FirstTeacherWithId(subs@[i].teacher_id),
    ) by {
        if i > 0 {
            lemma_collecting_prefix(subs, answers, run, i - 1);
            assert(spec_step(run[i - 1].0, Answer::Teacher(answers[i - 1]), run[i].0, run[i].1));
        }
    }
    lemma_collecting_prefix(subs, answers, run, n - 1);
    assert(spec_step(run[n - 1].0, Answer::Teacher(answers[n - 1]), run[n].0, run[n].1));
    assert(answers.take(n - 1).push(answers[n - 1]) =~= answers);
}

/// A finished request waits for nothing.
pub proof fn law_done_awaits_nothing()
    ensures
        spec_awaits(Stage::Done) is None,
        spec_phase(Stage::Done) == 0,
{
}

} // verus!
