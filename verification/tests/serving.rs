use std::time::{SystemTime, UNIX_EPOCH};

use boring_school::flow::{
    begin, step, Action, Answer, Change, DbFailure, Query, Reply, Request, Stage, Table,
};
use boring_school::models::{Claims, Grade, Student, Sub, Teacher};
use boring_school::notice::{HttpStatus, Notice};

/// A stand-in for the school database, answering queries as the SQL
/// statements of the service would.
#[derive(Clone, Debug, PartialEq)]
struct Db {
    students: Vec<Student>,
    teachers: Vec<Teacher>,
    subs: Vec<Sub>,
    grades: Vec<Grade>,
    queries: usize,
}

fn student(id: i32, name: &str, contact: &str, email: &str) -> Student {
    Student {
        student_id: id,
        student_name: name.to_string(),
        class_id: 1,
        contact_info: contact.to_string(),
        email: email.to_string(),
    }
}

fn teacher(id: i32, name: &str, subject: &str, email: &str) -> Teacher {
    Teacher {
        teacher_id: id,
        teacher_name: name.to_string(),
        subject_name: subject.to_string(),
        email: email.to_string(),
    }
}

fn grade(id: i32, student_id: i32, subject: &str, assignment: i32, test: i32) -> Grade {
    Grade {
        grade_id: id,
        student_id,
        subject_name: subject.to_string(),
        assignment_score: assignment,
        test_score: test,
    }
}

fn school() -> Db {
    Db {
        students: vec![
            student(1, "Harry Potter", "8770207535", "harry_potter@hogwarts.com"),
            student(2, "Ronald Weasley", "9770207535", "ronald_weasley@hogwarts.com"),
            student(3, "Hermione Granger", "9770207536", "hermione_granger@hogwarts.com"),
        ],
        teachers: vec![
            teacher(1, "Severous Snape", "Potions", "halfbloodprince@hogwarts.com"),
            teacher(2, "Rolanda Hooch", "Fly Broom", "rolandahooch@hogwarts.com"),
        ],
        subs: vec![
            Sub { class_id: 1, subject_name: "Potions".to_string(), teacher_id: 1 },
            Sub { class_id: 1, subject_name: "Fly Broom".to_string(), teacher_id: 2 },
        ],
        grades: vec![grade(1, 1, "Potions", 10, 100), grade(2, 1, "Fly Broom", 10, 100)],
        queries: 0,
    }
}

impl Db {
    fn run(&mut self, q: Query) -> Answer {
        self.queries += 1;
        match q {
            Query::InsertSub(s) => {
                if self.subs.iter().any(|x| x.subject_name == s.subject_name) {
                    Answer::Inserted(Err(DbFailure))
                } else {
                    self.subs.push(s);
                    Answer::Inserted(Ok(1))
                }
            }
            Query::InsertStudent(s) => {
                if self.students.iter().any(|x| x.student_id == s.student_id) {
                    Answer::Inserted(Err(DbFailure))
                } else {
                    self.students.push(s);
                    Answer::Inserted(Ok(1))
                }
            }
            Query::InsertTeacher(t) => {
                if self.teachers.iter().any(|x| x.teacher_id == t.teacher_id) {
                    Answer::Inserted(Err(DbFailure))
                } else {
                    self.teachers.push(t);
                    Answer::Inserted(Ok(1))
                }
            }
            Query::InsertGrade(g) => {
                if self.grades.iter().any(|x| x.grade_id == g.grade_id) {
                    Answer::Inserted(Err(DbFailure))
                } else {
                    self.grades.push(g);
                    Answer::Inserted(Ok(1))
                }
            }
            Query::LoadTeachers => Answer::Teachers(self.teachers.clone()),
            Query::LoadSubsOfClass(c) => {
                Answer::Subs(self.subs.iter().filter(|s| s.class_id == c).cloned().collect())
            }
            Query::FirstTeacherWithId(id) => Answer::Teacher(
                self.teachers.iter().find(|t| t.teacher_id == id).cloned().unwrap(),
            ),
            Query::FirstSubOfClass(c, name) => Answer::Sub(
                self.subs
                    .iter()
                    .find(|s| s.class_id == c && s.subject_name == name)
                    .cloned()
                    .unwrap(),
            ),
            Query::LoadStudents => Answer::Students(self.students.clone()),
            Query::FirstStudentWithId(id) => Answer::MaybeStudent(
                self.students.iter().find(|s| s.student_id == id).cloned(),
            ),
            Query::LoadGradesOf(id) => {
                Answer::Grades(self.grades.iter().filter(|g| g.student_id == id).cloned().collect())
            }
            Query::FirstStudentNamed(name) => Answer::Student(
                self.students.iter().find(|s| s.student_name == name).cloned().unwrap(),
            ),
            Query::SetAssignmentScore { student_id, subject_name, score } => {
                let mut n = 0;
                for g in self.grades.iter_mut() {
                    if g.student_id == student_id && g.subject_name == subject_name {
                        g.assignment_score = score;
                        n += 1;
                    }
                }
                Answer::Rows(n)
            }
            Query::RenameStudent { from, to } => {
                let mut n = 0;
                for s in self.students.iter_mut() {
                    if s.student_name == from {
                        s.student_name = to.clone();
                        n += 1;
                    }
                }
                Answer::Rows(n)
            }
            Query::SetTeacherEmail { teacher_name, email } => {
                let mut n = 0;
                for t in self.teachers.iter_mut() {
                    if t.teacher_name == teacher_name {
                        t.email = email.clone();
                        n += 1;
                    }
                }
                Answer::Rows(n)
            }
            Query::DeleteStudent(id) => {
                let before = self.students.len();
                self.students.retain(|s| s.student_id != id);
                Answer::Rows(before - self.students.len())
            }
            Query::DeleteTeacher(id) => {
                let before = self.teachers.len();
                self.teachers.retain(|t| t.teacher_id != id);
                Answer::Rows(before - self.teachers.len())
            }
            Query::FirstGradeOf { subject_name, student_id } => Answer::Grade(
                self.grades
                    .iter()
                    .find(|g| g.subject_name == subject_name && g.student_id == student_id)
                    .cloned()
                    .unwrap(),
            ),
            Query::DeleteGrade(id) => {
                let before = self.grades.len();
                self.grades.retain(|g| g.grade_id != id);
                Answer::Rows(before - self.grades.len())
            }
        }
    }

    fn serve(&mut self, req: Request, caller: Option<&Claims>) -> Reply {
        let (mut stage, mut action) = begin(req, caller);
        loop {
            match action {
                Action::Respond(r) => {
                    assert_eq!(stage, Stage::Done);
                    return r;
                }
                Action::Run(q) => {
                    let answer = self.run(q);
                    let (s, a) = step(stage, answer);
                    stage = s;
                    action = a;
                }
            }
        }
    }

    fn student_names(&self) -> Vec<String> {
        self.students.iter().map(|s| s.student_name.clone()).collect()
    }
}

fn current_time() -> u128 {
    SystemTime::now().duration_since(UNIX_EPOCH).unwrap().as_millis()
}

fn claims(id: u8) -> Claims {
    Claims {
        id,
        iat: current_time(),
        aud: String::from("TBS"),
        sub: String::from("TBSUSER"),
        exp: current_time() + 2000,
    }
}

#[test]
fn test_homepage() {
    let tbsuser = claims(3);
    let mut db = school();
    let res = db.serve(Request::HomePage, Some(&tbsuser));
    assert_eq!(res, Reply::Text(Notice::Welcome));
    assert_eq!(res.status(), HttpStatus::Success);
    assert_eq!(db.queries, 0);
}

#[test]
fn homepage_needs_a_token_but_no_role() {
    let mut db = school();
    assert_eq!(db.serve(Request::HomePage, None), Reply::Rejected);
    assert_eq!(db.serve(Request::HomePage, Some(&claims(0))), Reply::Text(Notice::Welcome));
    assert_eq!(db.serve(Request::HomePage, Some(&claims(1))), Reply::Text(Notice::Welcome));
}

#[test]
fn test_add_student() {
    let rancho = Student {
        student_id: 1000,
        student_name: String::from("Rancho"),
        class_id: 1,
        contact_info: String::from("8770207535"),
        email: String::from("rancho@hogwarts.com"),
    };
    let c = school();
    let mut t = c.clone();
    let res = t.serve(Request::AddStudent(rancho), Some(&claims(3)));
    assert_eq!(res, Reply::Created(Notice::StudentAdded));
    assert_eq!(
        vec!["Harry Potter", "Ronald Weasley", "Hermione Granger", "Rancho"],
        t.student_names()
    );
    assert_eq!(vec!["Harry Potter", "Ronald Weasley", "Hermione Granger"], c.student_names());
}

#[test]
fn test_add_subject() {
    let c = school();
    let new_subject = Sub { class_id: 1, subject_name: String::from("Curses"), teacher_id: 1 };
    let mut t = c.clone();
    let res = t.serve(Request::AddSubject(new_subject), Some(&claims(2)));
    assert_eq!(res, Reply::Created(Notice::SubjectAdded));
    let mut names: Vec<String> = t.subs.iter().map(|s| s.subject_name.clone()).collect();
    names.sort();
    assert_eq!(vec!["Curses", "Fly Broom", "Potions"], names);
    let mut all_subs: Vec<String> = c.subs.iter().map(|s| s.subject_name.clone()).collect();
    all_subs.sort();
    assert_eq!(vec!["Fly Broom", "Potions"], all_subs);
}

#[test]
fn test_add_teacher() {
    let c = school();
    let new_teacher = Teacher {
        teacher_id: 3,
        teacher_name: String::from("Rancho"),
        subject_name: String::from("Macines"),
        email: String::from("rancho@hogwarts.com"),
    };
    let mut t = c.clone();
    let res = t.serve(Request::AddTeacher(new_teacher), Some(&claims(3)));
    assert_eq!(res, Reply::Created(Notice::TeacherAdded));
    let names: Vec<String> = t.teachers.iter().map(|x| x.teacher_name.clone()).collect();
    assert_eq!(vec!["Severous Snape", "Rolanda Hooch", "Rancho"], names);
    let all_teachers: Vec<String> = c.teachers.iter().map(|x| x.teacher_name.clone()).collect();
    assert_eq!(vec!["Severous Snape", "Rolanda Hooch"], all_teachers);
}

#[test]
fn test_add_grade() {
    let c = school();
    let rancho_grade = Grade {
        grade_id: 10,
        student_id: 1000,
        subject_name: String::from("Machines"),
        assignment_score: 10,
        test_score: 100,
    };
    let mut t = c.clone();
    let res = t.serve(Request::AddGrade(rancho_grade), Some(&claims(2)));
    assert_eq!(res, Reply::Created(Notice::GradeAdded));
    let rancho: Vec<String> =
        t.grades.iter().filter(|g| g.student_id == 1000).map(|g| g.subject_name.clone()).collect();
    assert_eq!(vec![String::from("Machines")], rancho);
    let all_sub_test_scores: Vec<String> =
        c.grades.iter().filter(|g| g.student_id == 1).map(|g| g.subject_name.clone()).collect();
    assert_eq!(vec![String::from("Potions"), String::from("Fly Broom")], all_sub_test_scores);
}

#[test]
fn failed_insert_is_answered_not_allowed() {
    let mut db = school();
    let dup = teacher(1, "Other", "Potions", "x@hogwarts.com");
    let res = db.serve(Request::AddTeacher(dup), Some(&claims(3)));
    assert_eq!(res, Reply::Unauthorized(Notice::NotAllowed));
    assert_eq!(res.status(), HttpStatus::Unauthorized);
    let (_, a) = step(Stage::AwaitInsert(Table::Grades), Answer::Inserted(Ok(2)));
    assert_eq!(a, Action::Respond(Reply::Unauthorized(Notice::NotAllowed)));
    let (_, a) = step(Stage::AwaitInsert(Table::Grades), Answer::Inserted(Ok(0)));
    assert_eq!(a, Action::Respond(Reply::Unauthorized(Notice::NotAllowed)));
}

#[test]
fn refused_writes_touch_nothing() {
    let original = school();
    let mut db = school();
    let s = student(7, "Neville", "1", "n@hogwarts.com");
    assert_eq!(
        db.serve(Request::AddStudent(s.clone()), Some(&claims(1))),
        Reply::Unauthorized(Notice::NotAuthorized)
    );
    assert_eq!(
        db.serve(Request::AddTeacher(teacher(9, "X", "Y", "Z")), Some(&claims(2))),
        Reply::Unauthorized(Notice::NotAuthorized)
    );
    assert_eq!(
        db.serve(
            Request::AddSubject(Sub { class_id: 1, subject_name: "Curses".into(), teacher_id: 1 }),
            Some(&claims(1))
        ),
        Reply::Unauthorized(Notice::NotAllowed)
    );
    assert_eq!(
        db.serve(Request::AddGrade(grade(11, 1, "Charms", 1, 1)), Some(&claims(0))),
        Reply::Unauthorized(Notice::NotAllowed)
    );
    assert_eq!(
        db.serve(
            Request::UpdateAssignmentScore("Harry Potter".into(), "Potions".into(), 5),
            Some(&claims(1))
        ),
        Reply::Unauthorized(Notice::ScoreUpdateNotAllowed)
    );
    assert_eq!(
        db.serve(Request::UpdateStudentName("Harry Potter".into(), "H".into()), Some(&claims(4))),
        Reply::Unauthorized(Notice::NotAllowed)
    );
    assert_eq!(
        db.serve(Request::UpdateTeacherEmail("Severous Snape".into(), "e".into()), Some(&claims(2))),
        Reply::Unauthorized(Notice::NotAllowed)
    );
    assert_eq!(db.serve(Request::RemoveStudent(1), Some(&claims(2))), Reply::Unauthorized(Notice::NotAllowed));
    assert_eq!(db.serve(Request::RemoveTeacher(1), Some(&claims(2))), Reply::Unauthorized(Notice::NotAllowed));
    assert_eq!(
        db.serve(Request::RemoveGrade("Harry Potter".into(), "Potions".into()), Some(&claims(1))),
        Reply::Unauthorized(Notice::NotAllowed)
    );
    assert_eq!(db.serve(Request::AllStudents, Some(&claims(1))), Reply::Unauthorized(Notice::NotAllowed));
    assert_eq!(db.serve(Request::AddStudent(s), None), Reply::Rejected);
    assert_eq!(db.queries, 0);
    assert_eq!(db, original);
}

#[test]
fn test_get_all_students() {
    let mut c = school();
    let auth_user = claims(3);
    let expected_response = vec![
        student(1, "Harry Potter", "8770207535", "harry_potter@hogwarts.com"),
        student(2, "Ronald Weasley", "9770207535", "ronald_weasley@hogwarts.com"),
        student(3, "Hermione Granger", "9770207536", "hermione_granger@hogwarts.com"),
    ];
    let res = c.serve(Request::AllStudents, Some(&auth_user));
    assert_eq!(Reply::Students(expected_response), res);
}

#[test]
fn test_get_all_teachers() {
    let mut c = school();
    let expected_result = vec![
        teacher(1, "Severous Snape", "Potions", "halfbloodprince@hogwarts.com"),
        teacher(2, "Rolanda Hooch", "Fly Broom", "rolandahooch@hogwarts.com"),
    ];
    let res = c.serve(Request::AllTeachers, Some(&claims(3)));
    assert_eq!(Reply::Teachers(expected_result), res);
    assert_eq!(c.serve(Request::AllTeachers, None), c.serve(Request::AllTeachers, Some(&claims(1))));
}

#[test]
fn test_get_grades_for_harry() {
    let mut c = school();
    let expected_result = vec![grade(1, 1, "Potions", 10, 100), grade(2, 1, "Fly Broom", 10, 100)];
    let res = c.serve(Request::GradesOfStudent(1), Some(&claims(3)));
    assert_eq!(Reply::Grades(expected_result), res);
}

#[test]
fn grades_are_served_to_students_and_refused_to_anonymous_callers() {
    let mut c = school();
    let harry = vec![grade(1, 1, "Potions", 10, 100), grade(2, 1, "Fly Broom", 10, 100)];
    assert_eq!(c.serve(Request::GradesOfStudent(1), None), Reply::Rejected);
    assert_eq!(
        c.serve(Request::GradesOfStudent(1), Some(&claims(0))),
        Reply::Unauthorized(Notice::NotAllowed)
    );
    assert_eq!(c.queries, 0);
    assert_eq!(c.serve(Request::GradesOfStudent(1), Some(&claims(1))), Reply::Grades(harry.clone()));
    assert_eq!(c.serve(Request::GradesOfStudent(1), Some(&claims(2))), Reply::Grades(harry));
    assert_eq!(c.serve(Request::GradesOfStudent(3), Some(&claims(1))), Reply::Grades(vec![]));
}

#[test]
fn test_class_sub_teacher() {
    let mut c = school();
    let res = c.serve(Request::ClassSubTeacher(1, "Potions".into()), Some(&claims(3)));
    let expected_response =
        teacher(1, "Severous Snape", "Potions", "halfbloodprince@hogwarts.com");
    assert_eq!(Reply::Teacher(expected_response), res);
}

#[test]
fn test_teachers_of_class_id() {
    let mut c = school();
    let res = c.serve(Request::TeachersOfClass(1), Some(&claims(3)));
    let expected_response = vec![
        teacher(1, "Severous Snape", "Potions", "halfbloodprince@hogwarts.com"),
        teacher(2, "Rolanda Hooch", "Fly Broom", "rolandahooch@hogwarts.com"),
    ];
    assert_eq!(Reply::Teachers(expected_response), res);
    // one lookup of the subjects, then one per subject
    assert_eq!(c.queries, 3);
}

#[test]
fn teachers_of_a_class_without_subjects() {
    let mut c = school();
    assert_eq!(c.serve(Request::TeachersOfClass(7), None), Reply::Teachers(vec![]));
    assert_eq!(c.queries, 1);
}

#[test]
fn teachers_of_class_are_looked_up_in_order() {
    let subs = vec![
        Sub { class_id: 2, subject_name: "A".into(), teacher_id: 5 },
        Sub { class_id: 2, subject_name: "B".into(), teacher_id: 9 },
        Sub { class_id: 2, subject_name: "C".into(), teacher_id: 5 },
    ];
    let (s, a) = step(Stage::AwaitSubsOfClass, Answer::Subs(subs));
    assert_eq!(a, Action::Run(Query::FirstTeacherWithId(5)));
    let (s, a) = step(s, Answer::Teacher(teacher(5, "T5", "A", "e5")));
    assert_eq!(a, Action::Run(Query::FirstTeacherWithId(9)));
    let (s, a) = step(s, Answer::Teacher(teacher(9, "T9", "B", "e9")));
    assert_eq!(a, Action::Run(Query::FirstTeacherWithId(5)));
    let (s, a) = step(s, Answer::Teacher(teacher(5, "T5", "A", "e5")));
    assert_eq!(s, Stage::Done);
    assert_eq!(
        a,
        Action::Respond(Reply::Teachers(vec![
            teacher(5, "T5", "A", "e5"),
            teacher(9, "T9", "B", "e9"),
            teacher(5, "T5", "A", "e5"),
        ]))
    );
}

#[test]
fn test_get_student_hermione() {
    let mut c = school();
    let expected_result = student(3, "Hermione Granger", "9770207536", "hermione_granger@hogwarts.com");
    let res = c.serve(Request::StudentById(3), Some(&claims(3)));
    assert_eq!(Reply::MaybeStudent(Some(expected_result)), res);
    assert_eq!(c.serve(Request::StudentById(42), None), Reply::MaybeStudent(None));
}

#[test]
fn update_assignment_score() {
    let mut c = school();
    let res = c.serve(
        Request::UpdateAssignmentScore("Harry Potter".into(), "Potions".into(), 42),
        Some(&claims(2)),
    );
    assert_eq!(res, Reply::Custom(HttpStatus::Success, Notice::AssignmentScoreUpdated));
    assert_eq!(c.grades[0].assignment_score, 42);
    assert_eq!(c.grades[1].assignment_score, 10);
    let res = c.serve(
        Request::UpdateAssignmentScore("Ronald Weasley".into(), "Potions".into(), 42),
        Some(&claims(3)),
    );
    assert_eq!(res, Reply::Custom(HttpStatus::NotModified, Notice::AssignmentScoreUnchanged));
    assert_eq!(res.status().code(), 304);
}

#[test]
fn update_student_name() {
    let mut c = school();
    let res = c.serve(
        Request::UpdateStudentName("Ronald Weasley".into(), "Ron Weasley".into()),
        Some(&claims(3)),
    );
    assert_eq!(res, Reply::Custom(HttpStatus::Success, Notice::StudentNameUpdated));
    assert_eq!(c.students[1].student_name, "Ron Weasley");
    let res = c.serve(
        Request::UpdateStudentName("Nobody".into(), "Somebody".into()),
        Some(&claims(2)),
    );
    assert_eq!(res, Reply::Custom(HttpStatus::NotModified, Notice::StudentNameUnchanged));
}

#[test]
fn update_teacher_email() {
    let mut c = school();
    let res = c.serve(
        Request::UpdateTeacherEmail("Rolanda Hooch".into(), "hooch@hogwarts.com".into()),
        Some(&claims(3)),
    );
    assert_eq!(res, Reply::Custom(HttpStatus::Success, Notice::TeacherEmailUpdated));
    assert_eq!(c.teachers[1].email, "hooch@hogwarts.com");
    let (_, a) = step(Stage::AwaitRows(Change::TeacherEmail), Answer::Rows(2));
    assert_eq!(
        a,
        Action::Respond(Reply::Custom(HttpStatus::NotModified, Notice::TeacherEmailUnchanged))
    );
}

#[test]
fn remove_records() {
    let mut c = school();
    assert_eq!(
        c.serve(Request::RemoveStudent(2), Some(&claims(3))),
        Reply::Accepted(Notice::StudentRemoved)
    );
    assert_eq!(c.student_names(), vec!["Harry Potter", "Hermione Granger"]);
    assert_eq!(
        c.serve(Request::RemoveStudent(2), Some(&claims(3))),
        Reply::Unauthorized(Notice::NotAllowed)
    );
    assert_eq!(
        c.serve(Request::RemoveTeacher(2), Some(&claims(3))),
        Reply::Accepted(Notice::TeacherRemoved)
    );
    assert_eq!(
        c.serve(Request::RemoveTeacher(2), Some(&claims(3))),
        Reply::Unauthorized(Notice::NotAllowed)
    );
}

#[test]
fn remove_grade() {
    let mut c = school();
    let res = c.serve(Request::RemoveGrade("Harry Potter".into(), "Fly Broom".into()), Some(&claims(2)));
    assert_eq!(res, Reply::Accepted(Notice::GradeRemoved));
    assert_eq!(res.status().code(), 202);
    assert_eq!(c.grades, vec![grade(1, 1, "Potions", 10, 100)]);
    // student by name, grade by subject and student, delete
    assert_eq!(c.queries, 3);
}

#[test]
fn remove_grade_steps() {
    let (s, a) = begin(Request::RemoveGrade("Harry Potter".into(), "Potions".into()), Some(&claims(3)));
    assert_eq!(a, Action::Run(Query::FirstStudentNamed("Harry Potter".into())));
    let (s, a) = step(s, Answer::Student(student(1, "Harry Potter", "", "")));
    assert_eq!(a, Action::Run(Query::FirstGradeOf { subject_name: "Potions".into(), student_id: 1 }));
    let (s, a) = step(s, Answer::Grade(grade(1, 1, "Potions", 10, 100)));
    assert_eq!(a, Action::Run(Query::DeleteGrade(1)));
    assert_eq!(s, Stage::AwaitRows(Change::GradeRemoval));
    let (s, a) = step(s, Answer::Rows(0));
    assert_eq!(s, Stage::Done);
    assert_eq!(a, Action::Respond(Reply::Unauthorized(Notice::NotAllowed)));
}
