//! The records of the school: the claims carried by an access token and the
//! rows of the four tables (students, teachers, subjects and grades).
use vstd::prelude::*;

verus! {

/// What an access token asserts about its bearer.
///
/// `id` is the bearer's role: 3 is the principal, 2 a teacher, 1 a student
/// and anything else everyone else (see `access::role_of`).
#[derive(Debug, Clone, PartialEq, Eq)]
pub struct Claims {
    pub iat: u128,
    pub id: u8,
    pub aud: String,
    pub sub: String,
    pub exp: u128,
}

/// A row of the `grades` table.
#[derive(Debug, Clone, PartialEq, Eq)]
pub struct Grade {
    pub grade_id: i32,
    pub student_id: i32,
    pub subject_name: String,
    pub assignment_score: i32,
    pub test_score: i32,
}

/// A row of the `students` table.
#[derive(Debug, Clone, PartialEq, Eq)]
pub struct Student {
    pub student_id: i32,
    pub student_name: String,
    pub class_id: i32,
    pub contact_info: String,
    pub email: String,
}

/// A row of the `subs` table: the subject `subject_name` is taught in class
/// `class_id` by the teacher `teacher_id`.
#[derive(Debug, Clone, PartialEq, Eq)]
pub struct Sub {
    pub class_id: i32,
    pub subject_name: String,
    pub teacher_id: i32,
}

/// A row of the `teachers` table.
#[derive(Debug, Clone, PartialEq, Eq)]
pub struct Teacher {
    pub teacher_id: i32,
    pub teacher_name: String,
    pub subject_name: String,
    pub email: String,
}

/// An error body: a message and a numeric code.
#[derive(Debug, Clone, PartialEq, Eq)]
pub struct TBSError {
    err: String,
    code: i32,
}

} // verus!
