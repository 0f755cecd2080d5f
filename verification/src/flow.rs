//! How each request is carried out.
//!
//! Serving a request alternates database work with decisions. The decisions
//! live here as a machine: `begin` takes the request and its caller and
//! yields a stage and an action; the caller of the machine performs the
//! action (a `Query` against the school database) and hands its `Answer` to
//! `step`, which yields the next stage and action, until the action is a
//! `Reply`.
use vstd::prelude::*;
use vstd::pervasive::unreached;
use crate::access::{admits, guard_of, role_of, spec_admits, spec_guard_of, spec_role_of, Role, Route};
use crate::models::{Claims, Grade, Student, Sub, Teacher};
use crate::notice::{HttpStatus, Notice};

verus! {

/// A request to one of the routes, with its parameters.
#[derive(Debug, PartialEq, Eq)]
pub enum Request {
    HomePage,
    AddSubject(Sub),
    AddStudent(Student),
    AddTeacher(Teacher),
    AddGrade(Grade),
    AllTeachers,
    /// The teachers of a class (by class id).
    TeachersOfClass(i32),
    /// The teacher of a subject in a class: class id and subject name.
    ClassSubTeacher(i32, String),
    AllStudents,
    StudentById(i32),
    /// The grades of a student (by student id); for the principal, the
    /// teachers and the students.
    GradesOfStudent(i32),
    /// Student name, subject name and the new assignment score.
    UpdateAssignmentScore(String, String, i32),
    /// Current and new student name.
    UpdateStudentName(String, String),
    /// Teacher name and new email address.
    UpdateTeacherEmail(String, String),
    RemoveStudent(i32),
    RemoveTeacher(i32),
    /// Student name and subject name of the grade to remove.
    RemoveGrade(String, String),
}

/// The route that a request is addressed to.
pub open spec fn spec_route_of(req: Request) -> Route {
    match req {
        Request::HomePage => Route::HomePage,
        Request::AddSubject(_) => Route::AddSubject,
        Request::AddStudent(_) => Route::AddStudent,
        Request::AddTeacher(_) => Route::AddTeacher,
        Request::AddGrade(_) => Route::AddGrade,
        Request::AllTeachers => Route::AllTeachers,
        Request::TeachersOfClass(_) => Route::TeachersOfClass,
        Request::ClassSubTeacher(_, _) => Route::ClassSubTeacher,
        Request::AllStudents => Route::AllStudents,
        Request::StudentById(_) => Route::StudentById,
        Request::GradesOfStudent(_) => Route::GradesOfStudent,
        Request::UpdateAssignmentScore(_, _, _) => Route::UpdateAssignmentScore,
        Request::UpdateStudentName(_, _) => Route::UpdateStudentName,
        Request::UpdateTeacherEmail(_, _) => Route::UpdateTeacherEmail,
        Request::RemoveStudent(_) => Route::RemoveStudent,
        Request::RemoveTeacher(_) => Route::RemoveTeacher,
        Request::RemoveGrade(_, _) => Route::RemoveGrade,
    }
}

impl Request {
    /// The route that this request is addressed to.
    pub fn route(&self) -> (r: Route)
        ensures
            r == spec_route_of(*self),
    {
        match self {
            Request::HomePage => Route::HomePage,
            Request::AddSubject(_) => Route::AddSubject,
            Request::AddStudent(_) => Route::AddStudent,
            Request::AddTeacher(_) => Route::AddTeacher,
            Request::AddGrade(_) => Route::AddGrade,
            Request::AllTeachers => Route::AllTeachers,
            Request::TeachersOfClass(_) => Route::TeachersOfClass,
            Request::ClassSubTeacher(_, _) => Route::ClassSubTeacher,
            Request::AllStudents => Route::AllStudents,
            Request::StudentById(_) => Route::StudentById,
            Request::GradesOfStudent(_) => Route::GradesOfStudent,
            Request::UpdateAssignmentScore(_, _, _) => Route::UpdateAssignmentScore,
            Request::UpdateStudentName(_, _) => Route::UpdateStudentName,
            Request::UpdateTeacherEmail(_, _) => Route::UpdateTeacherEmail,
            Request::RemoveStudent(_) => Route::RemoveStudent,
            Request::RemoveTeacher(_) => Route::RemoveTeacher,
            Request::RemoveGrade(_, _) => Route::RemoveGrade,
        }
    }
}

/// The four tables of the school database.
#[derive(Debug, Clone, Copy, PartialEq, Eq, Structural)]
pub enum Table {
    Subs,
    Students,
    Teachers,
    Grades,
}

/// The database work that a request asks for.
#[derive(Debug, PartialEq, Eq)]
pub enum Query {
    InsertSub(Sub),
    InsertStudent(Student),
    InsertTeacher(Teacher),
    InsertGrade(Grade),
    /// All teachers.
    LoadTeachers,
    /// All subjects of a class.
    LoadSubsOfClass(i32),
    /// The first teacher with this id (there must be one).
    FirstTeacherWithId(i32),
    /// The first subject of this class with this name (there must be one).
    FirstSubOfClass(i32, String),
    /// All students.
    LoadStudents,
    /// The first student with this id, if any.
    FirstStudentWithId(i32),
    /// All grades of a student.
    LoadGradesOf(i32),
    /// The first student with this name (there must be one).
    FirstStudentNamed(String),
    /// Set the assignment score of the grades of a student in a subject.
    SetAssignmentScore { student_id: i32, subject_name: String, score: i32 },
    /// Rename the students with a name.
    RenameStudent { from: String, to: String },
    /// Set the email address of the teachers with a name.
    SetTeacherEmail { teacher_name: String, email: String },
    DeleteStudent(i32),
    DeleteTeacher(i32),
    /// The first grade of a student in a subject (there must be one).
    FirstGradeOf { subject_name: String, student_id: i32 },
    DeleteGrade(i32),
}

/// Whether a query changes the database.
pub open spec fn spec_query_writes(q: Query) -> bool {
    match q {
        Query::InsertSub(_) | Query::InsertStudent(_) | Query::InsertTeacher(_)
        | Query::InsertGrade(_) | Query::SetAssignmentScore { .. } | Query::RenameStudent { .. }
        | Query::SetTeacherEmail { .. } | Query::DeleteStudent(_) | Query::DeleteTeacher(_)
        | Query::DeleteGrade(_) => true,
        _ => false,
    }
}

/// A failed database statement.
#[derive(Debug, Clone, Copy, PartialEq, Eq, Structural)]
pub struct DbFailure;

/// What the database answered to a query.
#[derive(Debug, PartialEq, Eq)]
pub enum Answer {
    /// The number of rows an insert wrote, or its failure.
    Inserted(Result<usize, DbFailure>),
    Teachers(Vec<Teacher>),
    Subs(Vec<Sub>),
    Teacher(Teacher),
    Sub(Sub),
    Students(Vec<Student>),
    MaybeStudent(Option<Student>),
    Student(Student),
    Grades(Vec<Grade>),
    Grade(Grade),
    /// The number of rows an update or delete touched.
    Rows(usize),
}

/// The kinds of answers.
#[derive(Debug, Clone, Copy, PartialEq, Eq, Structural)]
pub enum AnswerKind {
    Inserted,
    Teachers,
    Subs,
    Teacher,
    Sub,
    Students,
    MaybeStudent,
    Student,
    Grades,
    Grade,
    Rows,
}

/// The kind of an answer.
pub open spec fn spec_answer_kind(a: Answer) -> AnswerKind {
    match a {
        Answer::Inserted(_) => AnswerKind::Inserted,
        Answer::Teachers(_) => AnswerKind::Teachers,
        Answer::Subs(_) => AnswerKind::Subs,
        Answer::Teacher(_) => AnswerKind::Teacher,
        Answer::Sub(_) => AnswerKind::Sub,
        Answer::Students(_) => AnswerKind::Students,
        Answer::MaybeStudent(_) => AnswerKind::MaybeStudent,
        Answer::Student(_) => AnswerKind::Student,
        Answer::Grades(_) => AnswerKind::Grades,
        Answer::Grade(_) => AnswerKind::Grade,
        Answer::Rows(_) => AnswerKind::Rows,
    }
}

/// The kind of answer that a query gets.
pub open spec fn spec_answered_by(q: Query) -> AnswerKind {
    match q {
        Query::InsertSub(_) => AnswerKind::Inserted,
        Query::InsertStudent(_) => AnswerKind::Inserted,
        Query::InsertTeacher(_) => AnswerKind::Inserted,
        Query::InsertGrade(_) => AnswerKind::Inserted,
        Query::LoadTeachers => AnswerKind::Teachers,
        Query::LoadSubsOfClass(_) => AnswerKind::Subs,
        Query::FirstTeacherWithId(_) => AnswerKind::Teacher,
        Query::FirstSubOfClass(_, _) => AnswerKind::Sub,
        Query::LoadStudents => AnswerKind::Students,
        Query::FirstStudentWithId(_) => AnswerKind::MaybeStudent,
        Query::LoadGradesOf(_) => AnswerKind::Grades,
        Query::FirstStudentNamed(_) => AnswerKind::Student,
        Query::SetAssignmentScore { .. } => AnswerKind::Rows,
        Query::RenameStudent { .. } => AnswerKind::Rows,
        Query::SetTeacherEmail { .. } => AnswerKind::Rows,
        Query::DeleteStudent(_) => AnswerKind::Rows,
        Query::DeleteTeacher(_) => AnswerKind::Rows,
        Query::FirstGradeOf { .. } => AnswerKind::Grade,
        Query::DeleteGrade(_) => AnswerKind::Rows,
    }
}

impl Answer {
    /// The kind of this answer.
    pub fn kind(&self) -> (k: AnswerKind)
        ensures
            k == spec_answer_kind(*self),
    {
        match self {
            Answer::Inserted(_) => AnswerKind::Inserted,
            Answer::Teachers(_) => AnswerKind::Teachers,
            Answer::Subs(_) => AnswerKind::Subs,
            Answer::Teacher(_) => AnswerKind::Teacher,
            Answer::Sub(_) => AnswerKind::Sub,
            Answer::Students(_) => AnswerKind::Students,
            Answer::MaybeStudent(_) => AnswerKind::MaybeStudent,
            Answer::Student(_) => AnswerKind::Student,
            Answer::Grades(_) => AnswerKind::Grades,
            Answer::Grade(_) => AnswerKind::Grade,
            Answer::Rows(_) => AnswerKind::Rows,
        }
    }
}

impl Query {
    /// The kind of answer that this query gets.
    pub fn answered_by(&self) -> (k: AnswerKind)
        ensures
            k == spec_answered_by(*self),
    {
        match self {
            Query::InsertSub(_) => AnswerKind::Inserted,
            Query::InsertStudent(_) => AnswerKind::Inserted,
            Query::InsertTeacher(_) => AnswerKind::Inserted,
            Query::InsertGrade(_) => AnswerKind::Inserted,
            Query::LoadTeachers => AnswerKind::Teachers,
            Query::LoadSubsOfClass(_) => AnswerKind::Subs,
            Query::FirstTeacherWithId(_) => AnswerKind::Teacher,
            Query::FirstSubOfClass(_, _) => AnswerKind::Sub,
            Query::LoadStudents => AnswerKind::Students,
            Query::FirstStudentWithId(_) => AnswerKind::MaybeStudent,
            Query::LoadGradesOf(_) => AnswerKind::Grades,
            Query::FirstStudentNamed(_) => AnswerKind::Student,
            Query::SetAssignmentScore { .. } => AnswerKind::Rows,
            Query::RenameStudent { .. } => AnswerKind::Rows,
            Query::SetTeacherEmail { .. } => AnswerKind::Rows,
            Query::DeleteStudent(_) => AnswerKind::Rows,
            Query::DeleteTeacher(_) => AnswerKind::Rows,
            Query::FirstGradeOf { .. } => AnswerKind::Grade,
            Query::DeleteGrade(_) => AnswerKind::Rows,
        }
    }
}

/// The answer to a request.
#[derive(Debug, PartialEq, Eq)]
pub enum Reply {
    /// 401: the route needs a valid token and the request has none.
    Rejected,
    /// 200 with a text body.
    Text(Notice),
    /// 201; the notice is the location.
    Created(Notice),
    /// 202 with a message.
    Accepted(Notice),
    /// A status with a message.
    Custom(HttpStatus, Notice),
    /// 401 with a message.
    Unauthorized(Notice),
    /// 200 with the records as JSON.
    Teachers(Vec<Teacher>),
    Teacher(Teacher),
    Students(Vec<Student>),
    MaybeStudent(Option<Student>),
    Grades(Vec<Grade>),
}

/// The HTTP status of a reply.
pub open spec fn spec_reply_status(r: Reply) -> HttpStatus {
    match r {
        Reply::Rejected => HttpStatus::Unauthorized,
        Reply::Created(_) => HttpStatus::Created,
        Reply::Accepted(_) => HttpStatus::Accepted,
        Reply::Custom(s, _) => s,
        Reply::Unauthorized(_) => HttpStatus::Unauthorized,
        _ => HttpStatus::Success,
    }
}

impl Reply {
    /// The HTTP status of this reply.
    pub fn status(&self) -> (s: HttpStatus)
        ensures
            s == spec_reply_status(*self),
    {
        match self {
            Reply::Rejected => HttpStatus::Unauthorized,
            Reply::Created(_) => HttpStatus::Created,
            Reply::Accepted(_) => HttpStatus::Accepted,
            Reply::Custom(s, _) => *s,
            Reply::Unauthorized(_) => HttpStatus::Unauthorized,
            _ => HttpStatus::Success,
        }
    }
}

/// The changes whose outcome is judged by the number of rows they touched.
#[derive(Debug, Clone, Copy, PartialEq, Eq, Structural)]
pub enum Change {
    AssignmentScore,
    StudentName,
    TeacherEmail,
    StudentRemoval,
    TeacherRemoval,
    GradeRemoval,
}

/// Where a request stands: which answer it waits for, with what it keeps
/// until then.
#[derive(Debug, PartialEq, Eq)]
pub enum Stage {
    AwaitInsert(Table),
    AwaitTeachers,
    AwaitSubsOfClass,
    /// The teachers of the subjects of a class are looked up one by one;
    /// `found` holds those of the first `found.len()` subjects.
    CollectTeachers { subs: Vec<Sub>, found: Vec<Teacher> },
    AwaitSubOfClass,
    AwaitTeacher,
    AwaitStudents,
    AwaitMaybeStudent,
    AwaitGrades,
    AwaitStudentForScore { subject_name: String, score: i32 },
    AwaitStudentForGrade { subject_name: String },
    AwaitGradeToRemove,
    AwaitRows(Change),
    Done,
}

/// The next thing to do.
#[derive(Debug, PartialEq, Eq)]
pub enum Action {
    Run(Query),
    Respond(Reply),
}

/// The kind of answer a stage waits for; `None` for a finished request.
pub open spec fn spec_awaits(s: Stage) -> Option<AnswerKind> {
    match s {
        Stage::AwaitInsert(_) => Some(AnswerKind::Inserted),
        Stage::AwaitTeachers => Some(AnswerKind::Teachers),
        Stage::AwaitSubsOfClass => Some(AnswerKind::Subs),
        Stage::CollectTeachers { .. } => Some(AnswerKind::Teacher),
        Stage::AwaitSubOfClass => Some(AnswerKind::Sub),
        Stage::AwaitTeacher => Some(AnswerKind::Teacher),
        Stage::AwaitStudents => Some(AnswerKind::Students),
        Stage::AwaitMaybeStudent => Some(AnswerKind::MaybeStudent),
        Stage::AwaitGrades => Some(AnswerKind::Grades),
        Stage::AwaitStudentForScore { .. } => Some(AnswerKind::Student),
        Stage::AwaitStudentForGrade { .. } => Some(AnswerKind::Student),
        Stage::AwaitGradeToRemove => Some(AnswerKind::Grade),
        Stage::AwaitRows(_) => Some(AnswerKind::Rows),
        Stage::Done => None,
    }
}

/// A stage can be reached: while teachers are collected, some subject is
/// still without its teacher.
pub open spec fn spec_stage_wf(s: Stage) -> bool {
    match s {
        Stage::CollectTeachers { subs, found } => found@.len() < subs@.len(),
        _ => true,
    }
}

/// The stages of the flows that change the database.
pub open spec fn spec_stage_writes(s: Stage) -> bool {
    match s {
        Stage::AwaitInsert(_) | Stage::AwaitStudentForScore { .. }
        | Stage::AwaitStudentForGrade { .. } | Stage::AwaitGradeToRemove | Stage::AwaitRows(_) => true,
        _ => false,
    }
}

impl Stage {
    /// The kind of answer this stage waits for.
    pub fn awaits(&self) -> (k: Option<AnswerKind>)
        ensures
            k == spec_awaits(*self),
    {
        match self {
            Stage::AwaitInsert(_) => Some(AnswerKind::Inserted),
            Stage::AwaitTeachers => Some(AnswerKind::Teachers),
            Stage::AwaitSubsOfClass => Some(AnswerKind::Subs),
            Stage::CollectTeachers { .. } => Some(AnswerKind::Teacher),
            Stage::AwaitSubOfClass => Some(AnswerKind::Sub),
            Stage::AwaitTeacher => Some(AnswerKind::Teacher),
            Stage::AwaitStudents => Some(AnswerKind::Students),
            Stage::AwaitMaybeStudent => Some(AnswerKind::MaybeStudent),
            Stage::AwaitGrades => Some(AnswerKind::Grades),
            Stage::AwaitStudentForScore { .. } => Some(AnswerKind::Student),
            Stage::AwaitStudentForGrade { .. } => Some(AnswerKind::Student),
            Stage::AwaitGradeToRemove => Some(AnswerKind::Grade),
            Stage::AwaitRows(_) => Some(AnswerKind::Rows),
            Stage::Done => None,
        }
    }
}

/// The role of the caller, where the request has a valid token.
pub open spec fn spec_caller_role(caller: Option<&Claims>) -> Option<Role> {
    match caller {
        Some(c) => Some(spec_role_of(c.id)),
        None => None,
    }
}

/// The message with which a route turns away a caller it does not admit.
pub open spec fn spec_denial_notice(route: Route) -> Notice {
    match route {
        Route::AddStudent | Route::AddTeacher => Notice::NotAuthorized,
        Route::UpdateAssignmentScore => Notice::ScoreUpdateNotAllowed,
        _ => Notice::NotAllowed,
    }
}

/// The message of a successful insert into a table.
pub open spec fn spec_added_notice(t: Table) -> Notice {
    match t {
        Table::Subs => Notice::SubjectAdded,
        Table::Students => Notice::StudentAdded,
        Table::Teachers => Notice::TeacherAdded,
        Table::Grades => Notice::GradeAdded,
    }
}

/// The reply to a change that touched `rows` rows: it succeeded where it
/// touched exactly one.
pub open spec fn spec_rows_reply(c: Change, rows: usize) -> Reply {
    let one = rows == 1;
    match c {
        Change::AssignmentScore => if one {
            Reply::Custom(HttpStatus::Success, Notice::AssignmentScoreUpdated)
        } else {
            Reply::Custom(HttpStatus::NotModified, Notice::AssignmentScoreUnchanged)
        },
        Change::StudentName => if one {
            Reply::Custom(HttpStatus::Success, Notice::StudentNameUpdated)
        } else {
            Reply::Custom(HttpStatus::NotModified, Notice::StudentNameUnchanged)
        },
        Change::TeacherEmail => if one {
            Reply::Custom(HttpStatus::Success, Notice::TeacherEmailUpdated)
        } else {
            Reply::Custom(HttpStatus::NotModified, Notice::TeacherEmailUnchanged)
        },
        Change::StudentRemoval => if one {
            Reply::Accepted(Notice::StudentRemoved)
        } else {
            Reply::Unauthorized(Notice::NotAllowed)
        },
        Change::TeacherRemoval => if one {
            Reply::Accepted(Notice::TeacherRemoved)
        } else {
            Reply::Unauthorized(Notice::NotAllowed)
        },
        Change::GradeRemoval => if one {
            Reply::Accepted(Notice::GradeRemoved)
        } else {
            Reply::Unauthorized(Notice::NotAllowed)
        },
    }
}

/// How a request starts: a caller the route's guard turns away is answered
/// at once (without a token: rejected; with one: refused with the route's
/// message); otherwise the first query of the route is run.
pub open spec fn spec_begin(req: Request, caller: Option<Role>) -> (Stage, Action) {
    let route = spec_route_of(req);
    if !spec_admits(spec_guard_of(route), caller) {
        if caller is None {
            (Stage::Done, Action::Respond(Reply::Rejected))
        } else {
            (Stage::Done, Action::Respond(Reply::Unauthorized(spec_denial_notice(route))))
        }
    } else {
        match req {
            Request::HomePage => (Stage::Done, Action::Respond(Reply::Text(Notice::Welcome))),
            Request::AddSubject(s) => (
                Stage::AwaitInsert(Table::Subs),
                Action::Run(Query::InsertSub(s)),
            ),
            Request::AddStudent(s) => (
                Stage::AwaitInsert(Table::Students),
                Action::Run(Query::InsertStudent(s)),
            ),
            Request::AddTeacher(t) => (
                Stage::AwaitInsert(Table::Teachers),
                Action::Run(Query::InsertTeacher(t)),
            ),
            Request::AddGrade(g) => (
                Stage::AwaitInsert(Table::Grades),
                Action::Run(Query::InsertGrade(g)),
            ),
            Request::AllTeachers => (Stage::AwaitTeachers, Action::Run(Query::LoadTeachers)),
            Request::TeachersOfClass(c) => (
                Stage::AwaitSubsOfClass,
                Action::Run(Query::LoadSubsOfClass(c)),
            ),
            Request::ClassSubTeacher(c, n) => (
                Stage::AwaitSubOfClass,
                Action::Run(Query::FirstSubOfClass(c, n)),
            ),
            Request::AllStudents => (Stage::AwaitStudents, Action::Run(Query::LoadStudents)),
            Request::StudentById(id) => (
                Stage::AwaitMaybeStudent,
                Action::Run(Query::FirstStudentWithId(id)),
            ),
            Request::GradesOfStudent(id) => (
                Stage::AwaitGrades,
                Action::Run(Query::LoadGradesOf(id)),
            ),
            Request::UpdateAssignmentScore(student, subject, score) => (
                Stage::AwaitStudentForScore { subject_name: subject, score },
                Action::Run(Query::FirstStudentNamed(student)),
            ),
            Request::UpdateStudentName(from, to) => (
                Stage::AwaitRows(Change::StudentName),
                Action::Run(Query::RenameStudent { from, to }),
            ),
            Request::UpdateTeacherEmail(name, email) => (
                Stage::AwaitRows(Change::TeacherEmail),
                Action::Run(Query::SetTeacherEmail { teacher_name: name, email }),
            ),
            Request::RemoveStudent(id) => (
                Stage::AwaitRows(Change::StudentRemoval),
                Action::Run(Query::DeleteStudent(id)),
            ),
            Request::RemoveTeacher(id) => (
                Stage::AwaitRows(Change::TeacherRemoval),
                Action::Run(Query::DeleteTeacher(id)),
            ),
            Request::RemoveGrade(student, subject) => (
                Stage::AwaitStudentForGrade { subject_name: subject },
                Action::Run(Query::FirstStudentNamed(student)),
            ),
        }
    }
}

/// How a stage goes on with an answer of the kind it waits for.
pub open spec fn spec_step(stage: Stage, answer: Answer, next: Stage, action: Action) -> bool {
    match (stage, answer) {
        (Stage::AwaitInsert(t), Answer::Inserted(r)) => next == Stage::Done && action
            == Action::Respond(
            if r == Ok::<usize, DbFailure>(1) {
                Reply::Created(spec_added_notice(t))
            } else {
                Reply::Unauthorized(Notice::NotAllowed)
            },
        ),
        (Stage::AwaitTeachers, Answer::Teachers(v)) => next == Stage::Done && action
            == Action::Respond(Reply::Teachers(v)),
        (Stage::AwaitSubsOfClass, Answer::Subs(subs)) => if subs@.len() == 0 {
            &&& next == Stage::Done
            &&& action matches Action::Respond(Reply::Teachers(v))
            &&& v@ == Seq::<Teacher>::empty()
        } else {
            &&& next matches Stage::CollectTeachers { subs: s2, found: f2 }
            &&& s2 == subs
            &&& f2@ == Seq::<Teacher>::empty()
            &&& action == Action::Run(Query::FirstTeacherWithId(subs@[0].teacher_id))
        },
        (Stage::CollectTeachers { subs, found }, Answer::Teacher(t)) => {
            let found2 = found@.push(t);
            if found2.len() < subs@.len() {
                &&& next matches Stage::CollectTeachers { subs: s2, found: f2 }
                &&& s2 == subs
                &&& f2@ == found2
                &&& action == Action::Run(
                    Query::FirstTeacherWithId(subs@[found2.len() as int].teacher_id),
                )
            } else {
                &&& next == Stage::Done
                &&& action matches Action::Respond(Reply::Teachers(v))
                &&& v@ == found2
            }
        },
        (Stage::AwaitSubOfClass, Answer::Sub(s)) => next == Stage::AwaitTeacher && action
            == Action::Run(Query::FirstTeacherWithId(s.teacher_id)),
        (Stage::AwaitTeacher, Answer::Teacher(t)) => next == Stage::Done && action
            == Action::Respond(Reply::Teacher(t)),
        (Stage::AwaitStudents, Answer::Students(v)) => next == Stage::Done && action
            == Action::Respond(Reply::Students(v)),
        (Stage::AwaitMaybeStudent, Answer::MaybeStudent(o)) => next == Stage::Done && action
            == Action::Respond(Reply::MaybeStudent(o)),
        (Stage::AwaitGrades, Answer::Grades(v)) => next == Stage::Done && action
            == Action::Respond(Reply::Grades(v)),
        (Stage::AwaitStudentForScore { subject_name, score }, Answer::Student(s)) => next
            == Stage::AwaitRows(Change::AssignmentScore) && action == Action::Run(
            Query::SetAssignmentScore { student_id: s.student_id, subject_name, score },
        ),
        (Stage::AwaitStudentForGrade { subject_name }, Answer::Student(s)) => next
            == Stage::AwaitGradeToRemove && action == Action::Run(
            Query::FirstGradeOf { subject_name, student_id: s.student_id },
        ),
        (Stage::AwaitGradeToRemove, Answer::Grade(g)) => next == Stage::AwaitRows(
            Change::GradeRemoval,
        ) && action == Action::Run(Query::DeleteGrade(g.grade_id)),
        (Stage::AwaitRows(c), Answer::Rows(n)) => next == Stage::Done && action
            == Action::Respond(spec_rows_reply(c, n)),
        _ => false,
    }
}

/// What every step keeps: a reply ends the request; a query is followed by a
/// stage that waits for exactly the kind of answer that query gets.
pub open spec fn spec_follows_protocol(next: Stage, action: Action) -> bool {
    &&& spec_stage_wf(next)
    &&& action is Respond ==> next == Stage::Done
    &&& action matches Action::Run(q) ==> spec_awaits(next) == Some(spec_answered_by(q))
}

/// The message with which `route` turns away a caller it does not admit.
pub fn denial_notice(route: Route) -> (n: Notice)
    ensures
        n == spec_denial_notice(route),
{
    match route {
        Route::AddStudent | Route::AddTeacher => Notice::NotAuthorized,
        Route::UpdateAssignmentScore => Notice::ScoreUpdateNotAllowed,
        _ => Notice::NotAllowed,
    }
}

/// The message of a successful insert into `t`.
pub fn added_notice(t: Table) -> (n: Notice)
    ensures
        n == spec_added_notice(t),
{
    match t {
        Table::Subs => Notice::SubjectAdded,
        Table::Students => Notice::StudentAdded,
        Table::Teachers => Notice::TeacherAdded,
        Table::Grades => Notice::GradeAdded,
    }
}

/// The reply to a change `c` that touched `rows` rows.
pub fn rows_reply(c: Change, rows: usize) -> (r: Reply)
    ensures
        r == spec_rows_reply(c, rows),
{
    let one = rows == 1;
    match c {
        Change::AssignmentScore => if one {
            Reply::Custom(HttpStatus::Success, Notice::AssignmentScoreUpdated)
        } else {
            Reply::Custom(HttpStatus::NotModified, Notice::AssignmentScoreUnchanged)
        },
        Change::StudentName => if one {
            Reply::Custom(HttpStatus::Success, Notice::StudentNameUpdated)
        } else {
            Reply::Custom(HttpStatus::NotModified, Notice::StudentNameUnchanged)
        },
        Change::TeacherEmail => if one {
            Reply::Custom(HttpStatus::Success, Notice::TeacherEmailUpdated)
        } else {
            Reply::Custom(HttpStatus::NotModified, Notice::TeacherEmailUnchanged)
        },
        Change::StudentRemoval => if one {
            Reply::Accepted(Notice::StudentRemoved)
        } else {
            Reply::Unauthorized(Notice::NotAllowed)
        },
        Change::TeacherRemoval => if one {
            Reply::Accepted(Notice::TeacherRemoved)
        } else {
            Reply::Unauthorized(Notice::NotAllowed)
        },
        Change::GradeRemoval => if one {
            Reply::Accepted(Notice::GradeRemoved)
        } else {
            Reply::Unauthorized(Notice::NotAllowed)
        },
    }
}

/// Starts serving `req` for `caller` (`None`: the request has no valid token).
pub fn begin(req: Request, caller: Option<&Claims>) -> (r: (Stage, Action))
    ensures
        r == spec_begin(req, spec_caller_role(caller)),
        spec_follows_protocol(r.0, r.1),
{
    let route = req.route();
    let role = match caller {
        Some(c) => Some(role_of(c.id)),
        None => None,
    };
    if !admits(guard_of(route), role) {
        if role.is_none() {
            return (Stage::Done, Action::Respond(Reply::Rejected));
        } else {
            return (Stage::Done, Action::Respond(Reply::Unauthorized(denial_notice(route))));
        }
    }
    match req {
        Request::HomePage => (Stage::Done, Action::Respond(Reply::Text(Notice::Welcome))),
        Request::AddSubject(s) => (Stage::AwaitInsert(Table::Subs), Action::Run(Query::InsertSub(s))),
        Request::AddStudent(s) => (
            Stage::AwaitInsert(Table::Students),
            Action::Run(Query::InsertStudent(s)),
        ),
        Request::AddTeacher(t) => (
            Stage::AwaitInsert(Table::Teachers),
            Action::Run(Query::InsertTeacher(t)),
        ),
        Request::AddGrade(g) => (Stage::AwaitInsert(Table::Grades), Action::Run(Query::InsertGrade(g))),
        Request::AllTeachers => (Stage::AwaitTeachers, Action::Run(Query::LoadTeachers)),
        Request::TeachersOfClass(c) => (Stage::AwaitSubsOfClass, Action::Run(Query::LoadSubsOfClass(c))),
        Request::ClassSubTeacher(c, n) => (
            Stage::AwaitSubOfClass,
            Action::Run(Query::FirstSubOfClass(c, n)),
        ),
        Request::AllStudents => (Stage::AwaitStudents, Action::Run(Query::LoadStudents)),
        Request::StudentById(id) => (
            Stage::AwaitMaybeStudent,
            Action::Run(Query::FirstStudentWithId(id)),
        ),
        Request::GradesOfStudent(id) => (Stage::AwaitGrades, Action::Run(Query::LoadGradesOf(id))),
        Request::UpdateAssignmentScore(student, subject, score) => (
            Stage::AwaitStudentForScore { subject_name: subject, score },
            Action::Run(Query::FirstStudentNamed(student)),
        ),
        Request::UpdateStudentName(from, to) => (
            Stage::AwaitRows(Change::StudentName),
            Action::Run(Query::RenameStudent { from, to }),
        ),
        Request::UpdateTeacherEmail(name, email) => (
            Stage::AwaitRows(Change::TeacherEmail),
            Action::Run(Query::SetTeacherEmail { teacher_name: name, email }),
        ),
        Request::RemoveStudent(id) => (
            Stage::AwaitRows(Change::StudentRemoval),
            Action::Run(Query::DeleteStudent(id)),
        ),
        Request::RemoveTeacher(id) => (
            Stage::AwaitRows(Change::TeacherRemoval),
            Action::Run(Query::DeleteTeacher(id)),
        ),
        Request::RemoveGrade(student, subject) => (
            Stage::AwaitStudentForGrade { subject_name: subject },
            Action::Run(Query::FirstStudentNamed(student)),
        ),
    }
}

/// Goes on from `stage` with the database's `answer` to the query of the
/// previous action.
pub fn step(stage: Stage, answer: Answer) -> (r: (Stage, Action))
    requires
        spec_stage_wf(stage),
        spec_awaits(stage) == Some(spec_answer_kind(answer)),
    ensures
        spec_step(stage, answer, r.0, r.1),
        spec_follows_protocol(r.0, r.1),
{
    match stage {
        Stage::AwaitInsert(t) => match answer {
            Answer::Inserted(res) => {
                let ok = match res {
                    Ok(n) => n == 1,
                    Err(_) => false,
                };
                let reply = if ok {
                    Reply::Created(added_notice(t))
                } else {
                    Reply::Unauthorized(Notice::NotAllowed)
                };
                (Stage::Done, Action::Respond(reply))
            },
            _ => unreached(),
        },
        Stage::AwaitTeachers => match answer {
            Answer::Teachers(v) => (Stage::Done, Action::Respond(Reply::Teachers(v))),
            _ => unreached(),
        },
        Stage::AwaitSubsOfClass => match answer {
            Answer::Subs(subs) => {
                if subs.len() == 0 {
                    (Stage::Done, Action::Respond(Reply::Teachers(Vec::new())))
                } else {
                    let first = subs[0].teacher_id;
                    (
                        Stage::CollectTeachers { subs, found: Vec::new() },
                        Action::Run(Query::FirstTeacherWithId(first)),
                    )
                }
            },
            _ => unreached(),
        },
        Stage::CollectTeachers { subs, found } => match answer {
            Answer::Teacher(t) => {
                let mut found = found;
                found.push(t);
                if found.len() < subs.len() {
                    let next_id = subs[found.len()].teacher_id;
                    (
                        Stage::CollectTeachers { subs, found },
                        Action::Run(Query::FirstTeacherWithId(next_id)),
                    )
                } else {
                    (Stage::Done, Action::Respond(Reply::Teachers(found)))
                }
            },
            _ => unreached(),
        },
        Stage::AwaitSubOfClass => match answer {
            Answer::Sub(s) => (Stage::AwaitTeacher, Action::Run(Query::FirstTeacherWithId(s.teacher_id))),
            _ => unreached(),
        },
        Stage::AwaitTeacher => match answer {
            Answer::Teacher(t) => (Stage::Done, Action::Respond(Reply::Teacher(t))),
            _ => unreached(),
        },
        Stage::AwaitStudents => match answer {
            Answer::Students(v) => (Stage::Done, Action::Respond(Reply::Students(v))),
            _ => unreached(),
        },
        Stage::AwaitMaybeStudent => match answer {
            Answer::MaybeStudent(o) => (Stage::Done, Action::Respond(Reply::MaybeStudent(o))),
            _ => unreached(),
        },
        Stage::AwaitGrades => match answer {
            Answer::Grades(v) => (Stage::Done, Action::Respond(Reply::Grades(v))),
            _ => unreached(),
        },
        Stage::AwaitStudentForScore { subject_name, score } => match answer {
            Answer::Student(s) => (
                Stage::AwaitRows(Change::AssignmentScore),
                Action::Run(
                    Query::SetAssignmentScore { student_id: s.student_id, subject_name, score },
                ),
            ),
            _ => unreached(),
        },
        Stage::AwaitStudentForGrade { subject_name } => match answer {
            Answer::Student(s) => (
                Stage::AwaitGradeToRemove,
                Action::Run(Query::FirstGradeOf { subject_name, student_id: s.student_id }),
            ),
            _ => unreached(),
        },
        Stage::AwaitGradeToRemove => match answer {
            Answer::Grade(g) => (
                Stage::AwaitRows(Change::GradeRemoval),
                Action::Run(Query::DeleteGrade(g.grade_id)),
            ),
            _ => unreached(),
        },
        Stage::AwaitRows(c) => match answer {
            Answer::Rows(n) => (Stage::Done, Action::Respond(rows_reply(c, n))),
            _ => unreached(),
        },
        Stage::Done => unreached(),
    }
}

} // verus!
