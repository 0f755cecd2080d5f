//! The messages and HTTP statuses with which requests are answered.
use vstd::prelude::*;

verus! {

/// The HTTP statuses that the service answers with.
#[derive(Debug, Clone, Copy, PartialEq, Eq, Structural)]
pub enum HttpStatus {
    Success,
    Created,
    Accepted,
    NotModified,
    Unauthorized,
}

/// The numeric code of a status.
pub open spec fn spec_status_code(s: HttpStatus) -> u16 {
    match s {
        HttpStatus::Success => 200,
        HttpStatus::Created => 201,
        HttpStatus::Accepted => 202,
        HttpStatus::NotModified => 304,
        HttpStatus::Unauthorized => 401,
    }
}

impl HttpStatus {
    /// The numeric code of this status.
    pub fn code(&self) -> (c: u16)
        ensures
            c == spec_status_code(*self),
    {
        match self {
            HttpStatus::Success => 200,
            HttpStatus::Created => 201,
            HttpStatus::Accepted => 202,
            HttpStatus::NotModified => 304,
            HttpStatus::Unauthorized => 401,
        }
    }
}

/// The fixed messages of the service.
#[derive(Debug, Clone, Copy, PartialEq, Eq, Structural)]
pub enum Notice {
    Welcome,
    SubjectAdded,
    StudentAdded,
    TeacherAdded,
    GradeAdded,
    NotAllowed,
    NotAuthorized,
    ScoreUpdateNotAllowed,
    AssignmentScoreUpdated,
    AssignmentScoreUnchanged,
    StudentNameUpdated,
    StudentNameUnchanged,
    TeacherEmailUpdated,
    TeacherEmailUnchanged,
    StudentRemoved,
    TeacherRemoved,
    GradeRemoved,
}

/// The text of each message.
pub open spec fn spec_notice_text(n: Notice) -> Seq<char> {
    match n {
        Notice::Welcome => "Welcome To The Boring School"@,
        Notice::SubjectAdded => "Subject added successfully"@,
        Notice::StudentAdded => "Student successfully added to the School"@,
        Notice::TeacherAdded => "Teacher added Successfully"@,
        Notice::GradeAdded => "Grade added successfully"@,
        Notice::NotAllowed => "You are not allowed to do that"@,
        Notice::NotAuthorized => "You are not authorized to do that"@,
        Notice::ScoreUpdateNotAllowed => "You are note allowed to do that"@,
        Notice::AssignmentScoreUpdated => "Assignment score updated successfully"@,
        Notice::AssignmentScoreUnchanged => "Something went wrong and the assignment score is unchanged"@,
        Notice::StudentNameUpdated => "Student name updated successfully"@,
        Notice::StudentNameUnchanged => "Something went wrong and we have not updated the student name"@,
        Notice::TeacherEmailUpdated => "Teacher's email id was successfully updated"@,
        Notice::TeacherEmailUnchanged => "Something went wrong and the teacher's email was not changed"@,
        Notice::StudentRemoved => "Student removed from the records"@,
        Notice::TeacherRemoved => "Teacher was removed from the records"@,
        Notice::GradeRemoved => "Grade record was removed"@,
    }
}

impl Notice {
    /// The text of this message.
    pub fn text(&self) -> (s: &'static str)
        ensures
            s@ == spec_notice_text(*self),
    {
        match self {
            Notice::Welcome => "Welcome To The Boring School",
            Notice::SubjectAdded => "Subject added successfully",
            Notice::StudentAdded => "Student successfully added to the School",
            Notice::TeacherAdded => "Teacher added Successfully",
            Notice::GradeAdded => "Grade added successfully",
            Notice::NotAllowed => "You are not allowed to do that",
            Notice::NotAuthorized => "You are not authorized to do that",
            Notice::ScoreUpdateNotAllowed => "You are note allowed to do that",
            Notice::AssignmentScoreUpdated => "Assignment score updated successfully",
            Notice::AssignmentScoreUnchanged => "Something went wrong and the assignment score is unchanged",
            Notice::StudentNameUpdated => "Student name updated successfully",
            Notice::StudentNameUnchanged => "Something went wrong and we have not updated the student name",
            Notice::TeacherEmailUpdated => "Teacher's email id was successfully updated",
            Notice::TeacherEmailUnchanged => "Something went wrong and the teacher's email was not changed",
            Notice::StudentRemoved => "Student removed from the records",
            Notice::TeacherRemoved => "Teacher was removed from the records",
            Notice::GradeRemoved => "Grade record was removed",
        }
    }
}

} // verus!
