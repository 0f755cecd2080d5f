//! Roles, routes and the access rule that guards each route.
use vstd::prelude::*;

verus! {

/// The role of the bearer of an access token.
#[derive(Debug, Clone, Copy, PartialEq, Eq, Structural)]
pub enum Role {
    Principal,
    Teacher,
    Student,
    Guest,
}

/// The role that a claims `id` stands for: 3 the principal, 2 a teacher,
/// 1 a student, any other value everyone else.
pub open spec fn spec_role_of(id: u8) -> Role {
    if id == 3 {
        Role::Principal
    } else if id == 2 {
        Role::Teacher
    } else if id == 1 {
        Role::Student
    } else {
        Role::Guest
    }
}

/// The role that a claims `id` stands for.
pub fn role_of(id: u8) -> (r: Role)
    ensures
        r == spec_role_of(id),
{
    match id {
        3 => Role::Principal,
        2 => Role::Teacher,
        1 => Role::Student,
        _ => Role::Guest,
    }
}

/// The routes that the service offers.
#[derive(Debug, Clone, Copy, PartialEq, Eq, Structural)]
pub enum Route {
    HomePage,
    AddSubject,
    AddStudent,
    AddTeacher,
    AddGrade,
    AllTeachers,
    TeachersOfClass,
    ClassSubTeacher,
    AllStudents,
    StudentById,
    GradesOfStudent,
    UpdateAssignmentScore,
    UpdateStudentName,
    UpdateTeacherEmail,
    RemoveStudent,
    RemoveTeacher,
    RemoveGrade,
}

/// Who may call a route.
#[derive(Debug, Clone, Copy, PartialEq, Eq, Structural)]
pub enum Guard {
    /// Anyone, with or without a token.
    Public,
    /// Anyone who presents a valid token.
    AnyUser,
    /// The principal and the teachers.
    Staff,
    /// The principal, the teachers and the students.
    Members,
    /// The principal alone.
    PrincipalOnly,
}

/// The guard of each route.
pub open spec fn spec_guard_of(route: Route) -> Guard {
    match route {
        Route::HomePage => Guard::AnyUser,
        Route::AddSubject => Guard::Staff,
        Route::AddStudent => Guard::Staff,
        Route::AddTeacher => Guard::PrincipalOnly,
        Route::AddGrade => Guard::Staff,
        Route::AllTeachers => Guard::Public,
        Route::TeachersOfClass => Guard::Public,
        Route::ClassSubTeacher => Guard::Public,
        Route::AllStudents => Guard::Staff,
        Route::StudentById => Guard::Public,
        Route::GradesOfStudent => Guard::Members,
        Route::UpdateAssignmentScore => Guard::Staff,
        Route::UpdateStudentName => Guard::Staff,
        Route::UpdateTeacherEmail => Guard::PrincipalOnly,
        Route::RemoveStudent => Guard::PrincipalOnly,
        Route::RemoveTeacher => Guard::PrincipalOnly,
        Route::RemoveGrade => Guard::Staff,
    }
}

/// The guard of `route`.
pub fn guard_of(route: Route) -> (g: Guard)
    ensures
        g == spec_guard_of(route),
{
    match route {
        Route::HomePage => Guard::AnyUser,
        Route::AddSubject => Guard::Staff,
        Route::AddStudent => Guard::Staff,
        Route::AddTeacher => Guard::PrincipalOnly,
        Route::AddGrade => Guard::Staff,
        Route::AllTeachers => Guard::Public,
        Route::TeachersOfClass => Guard::Public,
        Route::ClassSubTeacher => Guard::Public,
        Route::AllStudents => Guard::Staff,
        Route::StudentById => Guard::Public,
        Route::GradesOfStudent => Guard::Members,
        Route::UpdateAssignmentScore => Guard::Staff,
        Route::UpdateStudentName => Guard::Staff,
        Route::UpdateTeacherEmail => Guard::PrincipalOnly,
        Route::RemoveStudent => Guard::PrincipalOnly,
        Route::RemoveTeacher => Guard::PrincipalOnly,
        Route::RemoveGrade => Guard::Staff,
    }
}

/// Whether a guard lets a caller through; `None` is a caller without a
/// valid token.
pub open spec fn spec_admits(guard: Guard, caller: Option<Role>) -> bool {
    match guard {
        Guard::Public => true,
        Guard::AnyUser => caller is Some,
        Guard::Staff => caller == Some(Role::Principal) || caller == Some(Role::Teacher),
        Guard::Members => caller == Some(Role::Principal) || caller == Some(Role::Teacher)
            || caller == Some(Role::Student),
        Guard::PrincipalOnly => caller == Some(Role::Principal),
    }
}

/// Whether `guard` lets `caller` through.
pub fn admits(guard: Guard, caller: Option<Role>) -> (b: bool)
    ensures
        b == spec_admits(guard, caller),
{
    match guard {
        Guard::Public => true,
        Guard::AnyUser => caller.is_some(),
        Guard::Staff => match caller {
            Some(Role::Principal) => true,
            Some(Role::Teacher) => true,
            _ => false,
        },
        Guard::Members => match caller {
            Some(Role::Principal) => true,
            Some(Role::Teacher) => true,
            Some(Role::Student) => true,
            _ => false,
        },
        Guard::PrincipalOnly => match caller {
            Some(Role::Principal) => true,
            _ => false,
        },
    }
}

/// Whether a route changes the school database.
pub open spec fn spec_is_write(route: Route) -> bool {
    match route {
        Route::AddSubject | Route::AddStudent | Route::AddTeacher | Route::AddGrade
        | Route::UpdateAssignmentScore | Route::UpdateStudentName | Route::UpdateTeacherEmail
        | Route::RemoveStudent | Route::RemoveTeacher | Route::RemoveGrade => true,
        _ => false,
    }
}

/// The principal may call every route that any caller may call.
pub proof fn law_principal_may_do_anything_anyone_may(route: Route, caller: Option<Role>)
    ensures
        spec_admits(spec_guard_of(route), caller) ==> spec_admits(
            spec_guard_of(route),
            Some(Role::Principal),
        ),
{
}

/// A teacher may call every route that a student or a guest may call.
pub proof fn law_teacher_may_do_anything_a_student_may(route: Route)
    ensures
        spec_admits(spec_guard_of(route), Some(Role::Student)) ==> spec_admits(
            spec_guard_of(route),
            Some(Role::Teacher),
        ),
        spec_admits(spec_guard_of(route), Some(Role::Guest)) ==> spec_admits(
            spec_guard_of(route),
            Some(Role::Teacher),
        ),
{
}

/// Only the principal and the teachers may change the database: no write
/// route admits a student, a guest, or a caller without a valid token.
pub proof fn law_only_staff_write(route: Route, caller: Option<Role>)
    requires
        spec_is_write(route),
        caller != Some(Role::Principal),
        caller != Some(Role::Teacher),
    ensures
        !spec_admits(spec_guard_of(route), caller),
{
}

/// The routes that read the school's public records (teachers, subjects and
/// the record of one student) admit everyone alike.
pub proof fn law_public_routes_admit_everyone(route: Route, caller: Option<Role>)
    requires
        spec_guard_of(route) == Guard::Public,
    ensures
        spec_admits(spec_guard_of(route), caller),
        !spec_is_write(route),
{
}

/// Every route but the public ones turns away a caller without a valid token.
pub proof fn law_guarded_routes_need_a_token(route: Route)
    requires
        spec_guard_of(route) != Guard::Public,
    ensures
        !spec_admits(spec_guard_of(route), None),
{
}

/// Only id 3 is the principal, only id 2 a teacher, only id 1 a student;
/// every other id is everyone else.
pub proof fn law_roles_of_ids(id: u8)
    ensures
        spec_role_of(id) == Role::Principal <==> id == 3,
        spec_role_of(id) == Role::Teacher <==> id == 2,
        spec_role_of(id) == Role::Student <==> id == 1,
        spec_role_of(id) == Role::Guest <==> (id != 1 && id != 2 && id != 3),
{
}

/// Who may call what: adding a teacher, changing a teacher's email and
/// removing students or teachers are for the principal alone; adding
/// subjects, students and grades, listing the students, updating scores and
/// names and removing grades for the principal and the teachers; the grades
/// also for students; the home page for every caller with a token; the
/// teachers, the subjects' teachers and a single student's record for
/// everyone.
pub proof fn law_route_access(route: Route, role: Role)
    ensures
        (route == Route::AddTeacher || route == Route::UpdateTeacherEmail || route
            == Route::RemoveStudent || route == Route::RemoveTeacher) ==> (spec_admits(
            spec_guard_of(route),
            Some(role),
        ) <==> role == Role::Principal),
        (route == Route::AddSubject || route == Route::AddStudent || route == Route::AddGrade
            || route == Route::AllStudents || route == Route::UpdateAssignmentScore || route
            == Route::UpdateStudentName || route == Route::RemoveGrade) ==> (spec_admits(
            spec_guard_of(route),
            Some(role),
        ) <==> (role == Role::Principal || role == Role::Teacher)),
        route == Route::GradesOfStudent ==> (spec_admits(spec_guard_of(route), Some(role))
            <==> role != Role::Guest),
        route == Route::HomePage ==> spec_admits(spec_guard_of(route), Some(role))
            && !spec_admits(spec_guard_of(route), None),
        (route == Route::AllTeachers || route == Route::TeachersOfClass || route
            == Route::ClassSubTeacher || route == Route::StudentById) ==> spec_admits(
            spec_guard_of(route),
            Some(role),
        ) && spec_admits(spec_guard_of(route), None),
{
}

/// The grades of a student are shown to the principal, the teachers and
/// the students, a student's own grades among them; a caller without a
/// valid token, or with a token of no school role, is refused.
pub proof fn law_grades_for_staff_and_students(caller: Option<Role>)
    ensures
        spec_admits(spec_guard_of(Route::GradesOfStudent), caller) <==> (caller == Some(
            Role::Principal,
        ) || caller == Some(Role::Teacher) || caller == Some(Role::Student)),
{
}

} // verus!
