//! What each route does with the data of its request and the database's
//! answers: which rows it reads or writes, and what it answers.
use vstd::prelude::*;
use crate::access::{spec_admits, spec_guard_of, Role};
use crate::flow::{
    spec_begin, spec_route_of, spec_step, Action, Answer, Change, DbFailure, Query, Reply,
    Request, Stage, Table,
};
use crate::models::{Grade, Student, Sub, Teacher};
use crate::notice::{HttpStatus, Notice};

verus! {

/// The home page greets every caller it admits with the welcome text.
pub proof fn law_home_page_welcomes(caller: Option<Role>)
    requires
        caller is Some,
    ensures
        spec_begin(Request::HomePage, caller) == (
            Stage::Done,
            Action::Respond(Reply::Text(Notice::Welcome)),
        ),
{
}

/// An admitted request to add a record inserts exactly the record that was
/// submitted, into the table of its kind, and then waits for the insert.
pub proof fn law_adds_insert_the_submitted_record(req: Request, caller: Option<Role>)
    requires
        spec_admits(spec_guard_of(spec_route_of(req)), caller),
    ensures
        req matches Request::AddSubject(s) ==> spec_begin(req, caller).1 == Action::Run(
            Query::InsertSub(s),
        ),
        req matches Request::AddStudent(s) ==> spec_begin(req, caller).1 == Action::Run(
            Query::InsertStudent(s),
        ),
        req matches Request::AddTeacher(t) ==> spec_begin(req, caller).1 == Action::Run(
            Query::InsertTeacher(t),
        ),
        req matches Request::AddGrade(g) ==> spec_begin(req, caller).1 == Action::Run(
            Query::InsertGrade(g),
        ),
{
}

/// An admitted single-statement change acts on the rows that the request
/// names, with the values it gives: a rename renames the students with the
/// old name to the new name, an email change sets the given address on the
/// teachers with the given name, and a removal deletes the given id.
pub proof fn law_changes_act_on_the_named_rows(req: Request, caller: Option<Role>)
    requires
        spec_admits(spec_guard_of(spec_route_of(req)), caller),
    ensures
        req matches Request::UpdateStudentName(from, to) ==> spec_begin(req, caller).1
            == Action::Run(Query::RenameStudent { from, to }),
        req matches Request::UpdateTeacherEmail(name, email) ==> spec_begin(req, caller).1
            == Action::Run(Query::SetTeacherEmail { teacher_name: name, email }),
        req matches Request::RemoveStudent(id) ==> spec_begin(req, caller).1 == Action::Run(
            Query::DeleteStudent(id),
        ),
        req matches Request::RemoveTeacher(id) ==> spec_begin(req, caller).1 == Action::Run(
            Query::DeleteTeacher(id),
        ),
{
}

/// An admitted read asks for exactly the rows its request names, and
/// answers exactly what the database loaded for it.
pub proof fn law_reads_answer_what_was_asked(
    req: Request,
    caller: Option<Role>,
    answer: Answer,
    next: Stage,
    action: Action,
)
    requires
        spec_admits(spec_guard_of(spec_route_of(req)), caller),
        spec_step(spec_begin(req, caller).0, answer, next, action),
    ensures
        req matches Request::AllTeachers ==> spec_begin(req, caller).1 == Action::Run(
            Query::LoadTeachers,
        ) && (answer matches Answer::Teachers(v) ==> action == Action::Respond(
            Reply::Teachers(v),
        )),
        req matches Request::AllStudents ==> spec_begin(req, caller).1 == Action::Run(
            Query::LoadStudents,
        ) && (answer matches Answer::Students(v) ==> action == Action::Respond(
            Reply::Students(v),
        )),
        req matches Request::StudentById(id) ==> spec_begin(req, caller).1 == Action::Run(
            Query::FirstStudentWithId(id),
        ) && (answer matches Answer::MaybeStudent(o) ==> action == Action::Respond(
            Reply::MaybeStudent(o),
        )),
        req matches Request::GradesOfStudent(id) ==> spec_begin(req, caller).1 == Action::Run(
            Query::LoadGradesOf(id),
        ) && (answer matches Answer::Grades(v) ==> action == Action::Respond(Reply::Grades(v))),
        req matches Request::TeachersOfClass(c) ==> spec_begin(req, caller).1 == Action::Run(
            Query::LoadSubsOfClass(c),
        ),
{
}

/// The teacher of a subject in a class is the teacher whose id the subject's
/// row names: the subject is looked up by the requested class and name, the
/// teacher by the `teacher_id` of the row found, and the reply is the teacher
/// found. Where the database answers truthfully, the teacher answered
/// teaches that subject.
pub proof fn law_subject_teacher_is_the_one_the_subject_names(
    class_id: i32,
    subject_name: String,
    caller: Option<Role>,
    s: Sub,
    t: Teacher,
    stage1: Stage,
    action1: Action,
    stage2: Stage,
    action2: Action,
)
    requires
        spec_step(
            spec_begin(Request::ClassSubTeacher(class_id, subject_name), caller).0,
            Answer::Sub(s),
            stage1,
            action1,
        ),
        spec_step(stage1, Answer::Teacher(t), stage2, action2),
    ensures
        spec_begin(Request::ClassSubTeacher(class_id, subject_name), caller).1 == Action::Run(
            Query::FirstSubOfClass(class_id, subject_name),
        ),
        action1 == Action::Run(Query::FirstTeacherWithId(s.teacher_id)),
        action2 == Action::Respond(Reply::Teacher(t)),
        stage2 == Stage::Done,
        action1 matches Action::Run(Query::FirstTeacherWithId(id)) && (t.teacher_id == id
            ==> t.teacher_id == s.teacher_id),
{
}

/// Removing a grade deletes a grade of the named student in the named
/// subject: the student is looked up by the requested name, the grade by
/// the subject and that student's `student_id`, and the grade deleted is the
/// one found, by its `grade_id`; one deleted row is answered 202, anything
/// else 401. Where the database answers truthfully, the deleted grade
/// belongs to the student of that name.
pub proof fn law_grade_removal_deletes_the_named_students_grade(
    student_name: String,
    subject_name: String,
    caller: Option<Role>,
    s: Student,
    g: Grade,
    rows: usize,
    stage1: Stage,
    action1: Action,
    stage2: Stage,
    action2: Action,
    stage3: Stage,
    action3: Action,
)
    requires
        caller == Some(Role::Principal) || caller == Some(Role::Teacher),
        spec_step(
            spec_begin(Request::RemoveGrade(student_name, subject_name), caller).0,
            Answer::Student(s),
            stage1,
            action1,
        ),
        spec_step(stage1, Answer::Grade(g), stage2, action2),
        spec_step(stage2, Answer::Rows(rows), stage3, action3),
    ensures
        spec_begin(Request::RemoveGrade(student_name, subject_name), caller).1 == Action::Run(
            Query::FirstStudentNamed(student_name),
        ),
        action1 == Action::Run(Query::FirstGradeOf { subject_name, student_id: s.student_id }),
        action2 == Action::Run(Query::DeleteGrade(g.grade_id)),
        stage3 == Stage::Done,
        rows == 1 ==> action3 == Action::Respond(Reply::Accepted(Notice::GradeRemoved)),
        rows != 1 ==> action3 == Action::Respond(Reply::Unauthorized(Notice::NotAllowed)),
        action1 matches Action::Run(Query::FirstGradeOf { student_id: sid, .. }) && (g.student_id
            == sid ==> g.student_id == s.student_id),
{
}

/// Updating an assignment score sets the score given on the grades of the
/// named student in the named subject: the student is looked up by the
/// requested name, and the update is keyed by that student's `student_id`,
/// the requested subject and the requested score; one touched row is
/// answered 200, anything else 304.
pub proof fn law_score_update_keys_on_the_named_student(
    student_name: String,
    subject_name: String,
    score: i32,
    caller: Option<Role>,
    s: Student,
    rows: usize,
    stage1: Stage,
    action1: Action,
    stage2: Stage,
    action2: Action,
)
    requires
        caller == Some(Role::Principal) || caller == Some(Role::Teacher),
        spec_step(
            spec_begin(Request::UpdateAssignmentScore(student_name, subject_name, score), caller).0,
            Answer::Student(s),
            stage1,
            action1,
        ),
        spec_step(stage1, Answer::Rows(rows), stage2, action2),
    ensures
        spec_begin(Request::UpdateAssignmentScore(student_name, subject_name, score), caller).1
            == Action::Run(Query::FirstStudentNamed(student_name)),
        action1 == Action::Run(
            Query::SetAssignmentScore { student_id: s.student_id, subject_name, score },
        ),
        stage2 == Stage::Done,
        rows == 1 ==> action2 == Action::Respond(
            Reply::Custom(HttpStatus::Success, Notice::AssignmentScoreUpdated),
        ),
        rows != 1 ==> action2 == Action::Respond(
            Reply::Custom(HttpStatus::NotModified, Notice::AssignmentScoreUnchanged),
        ),
{
}

/// A caller with a token whom a route turns away is told "You are not
/// authorized to do that" by the routes adding students and teachers, "You
/// are note allowed to do that" by the score update, and "You are not
/// allowed to do that" by every other route.
pub proof fn law_refusal_messages(req: Request, role: Role)
    requires
        !spec_admits(spec_guard_of(spec_route_of(req)), Some(role)),
    ensures
        (req is AddStudent || req is AddTeacher) ==> spec_begin(req, Some(role)).1
            == Action::Respond(Reply::Unauthorized(Notice::NotAuthorized)),
        req is UpdateAssignmentScore ==> spec_begin(req, Some(role)).1 == Action::Respond(
            Reply::Unauthorized(Notice::ScoreUpdateNotAllowed),
        ),
        !(req is AddStudent || req is AddTeacher || req is UpdateAssignmentScore) ==> spec_begin(
            req,
            Some(role),
        ).1 == Action::Respond(Reply::Unauthorized(Notice::NotAllowed)),
{
}

/// An insert that wrote one row is answered 201 with the message of its
/// table: subject, student, teacher or grade added.
pub proof fn law_insert_messages(t: Table, next: Stage, action: Action)
    requires
        spec_step(Stage::AwaitInsert(t), Answer::Inserted(Ok::<usize, DbFailure>(1)), next, action),
    ensures
        t == Table::Subs ==> action == Action::Respond(Reply::Created(Notice::SubjectAdded)),
        t == Table::Students ==> action == Action::Respond(Reply::Created(Notice::StudentAdded)),
        t == Table::Teachers ==> action == Action::Respond(Reply::Created(Notice::TeacherAdded)),
        t == Table::Grades ==> action == Action::Respond(Reply::Created(Notice::GradeAdded)),
{
}

/// An admitted add request waits for the insert into the table of its
/// record's kind.
pub proof fn law_adds_target_their_table(req: Request, caller: Option<Role>)
    requires
        spec_admits(spec_guard_of(spec_route_of(req)), caller),
    ensures
        req is AddSubject ==> spec_begin(req, caller).0 == Stage::AwaitInsert(Table::Subs),
        req is AddStudent ==> spec_begin(req, caller).0 == Stage::AwaitInsert(Table::Students),
        req is AddTeacher ==> spec_begin(req, caller).0 == Stage::AwaitInsert(Table::Teachers),
        req is AddGrade ==> spec_begin(req, caller).0 == Stage::AwaitInsert(Table::Grades),
{
}

/// The outcome of each change names what changed: for one touched row the
/// score, name or email is reported updated (200) or the student, teacher or
/// grade removed (202); otherwise the update is reported unchanged (304) or
/// the removal refused with "not allowed" (401).
pub proof fn law_change_messages(c: Change, rows: usize, next: Stage, action: Action)
    requires
        spec_step(Stage::AwaitRows(c), Answer::Rows(rows), next, action),
    ensures
        c == Change::AssignmentScore ==> action == Action::Respond(
            if rows == 1 {
                Reply::Custom(HttpStatus::Success, Notice::AssignmentScoreUpdated)
            } else {
                Reply::Custom(HttpStatus::NotModified, Notice::AssignmentScoreUnchanged)
            },
        ),
        c == Change::StudentName ==> action == Action::Respond(
            if rows == 1 {
                Reply::Custom(HttpStatus::Success, Notice::StudentNameUpdated)
            } else {
                Reply::Custom(HttpStatus::NotModified, Notice::StudentNameUnchanged)
            },
        ),
        c == Change::TeacherEmail ==> action == Action::Respond(
            if rows == 1 {
                Reply::Custom(HttpStatus::Success, Notice::TeacherEmailUpdated)
            } else {
                Reply::Custom(HttpStatus::NotModified, Notice::TeacherEmailUnchanged)
            },
        ),
        c == Change::StudentRemoval ==> action == Action::Respond(
            if rows == 1 {
                Reply::Accepted(Notice::StudentRemoved)
            } else {
                Reply::Unauthorized(Notice::NotAllowed)
            },
        ),
        c == Change::TeacherRemoval ==> action == Action::Respond(
            if rows == 1 {
                Reply::Accepted(Notice::TeacherRemoved)
            } else {
                Reply::Unauthorized(Notice::NotAllowed)
            },
        ),
        c == Change::GradeRemoval ==> action == Action::Respond(
            if rows == 1 {
                Reply::Accepted(Notice::GradeRemoved)
            } else {
                Reply::Unauthorized(Notice::NotAllowed)
            },
        ),
{
}

/// The changes that the update and removal routes wait for: an admitted
/// rename waits for renamed rows, an email change for changed emails, and a
/// student or teacher removal for deleted rows of that table.
pub proof fn law_changes_await_their_outcome(req: Request, caller: Option<Role>)
    requires
        spec_admits(spec_guard_of(spec_route_of(req)), caller),
    ensures
        req is UpdateStudentName ==> spec_begin(req, caller).0 == Stage::AwaitRows(
            Change::StudentName,
        ),
        req is UpdateTeacherEmail ==> spec_begin(req, caller).0 == Stage::AwaitRows(
            Change::TeacherEmail,
        ),
        req is RemoveStudent ==> spec_begin(req, caller).0 == Stage::AwaitRows(
            Change::StudentRemoval,
        ),
        req is RemoveTeacher ==> spec_begin(req, caller).0 == Stage::AwaitRows(
            Change::TeacherRemoval,
        ),
{
}

} // verus!
