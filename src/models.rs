use vstd::prelude::*;

verus! {

/// A user account. `password` holds the salted hash, never the plaintext.
#[derive(Debug, Clone)]
pub struct User {
    pub id: i64,
    pub username: String,
    pub password: String,
    pub role: String,
}

/// A course; `instructor_id` is `None` for an unassigned course.
#[derive(Debug, Clone)]
pub struct Course {
    pub id: i64,
    pub name: String,
    pub instructor_id: Option<i64>,
}

/// One feedback entry; the store assigns `id` and `created_at`.
#[derive(Debug, Clone)]
pub struct Feedback {
    pub id: i64,
    pub course_id: i64,
    pub student_id: i64,
    pub content: String,
    pub created_at: String,
}

/// Credentials sent by a client that logs in.
#[derive(Debug, Clone)]
pub struct LoginRequest {
    pub username: String,
    pub password: String,
}

/// Feedback sent by a client; the student id comes from the session.
#[derive(Debug, Clone)]
pub struct FeedbackSubmission {
    pub course_id: i64,
    pub content: String,
}

} // verus!
