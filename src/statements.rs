use vstd::prelude::*;

verus! {

/// A value bound to a `?` placeholder of a statement.
#[derive(Debug, Clone, PartialEq, Eq)]
pub enum SqlValue {
    Integer(i64),
    Text(String),
}

/// The statements this layer sends to the store, one per operation, each
/// with the values it binds.
#[derive(Debug, Clone)]
pub enum Query {
    /// Adds a user row; the store assigns the id.
    InsertUser { username: String, password_hash: String, role: String },
    /// Reads the user row with this username.
    UserByName { username: String },
    /// Adds a feedback row; the store assigns the id and the creation time.
    InsertFeedback { course_id: i64, student_id: i64, content: String },
    /// Reads the feedback rows of a course, oldest first.
    FeedbackForCourse { course_id: i64 },
    /// Removes the feedback row with this id.
    DeleteFeedback { feedback_id: i64 },
    /// Reads the courses taught by an instructor, in insertion order.
    CoursesForInstructor { instructor_id: i64 },
}


impl Query {
    pub open spec fn sql_text(&self) -> Seq<char> {
        match self {
            Query::InsertUser { .. } => "INSERT INTO users (username, password, role) VALUES (?, ?, ?)"@,
            Query::UserByName { .. } => "SELECT * FROM users WHERE username = ?"@,
            Query::InsertFeedback { .. } => "INSERT INTO feedback (course_id, student_id, content) VALUES (?, ?, ?)"@,
            Query::FeedbackForCourse { .. } => "SELECT * FROM feedback WHERE course_id = ? ORDER BY id"@,
            Query::DeleteFeedback { .. } => "DELETE FROM feedback WHERE id = ?"@,
            Query::CoursesForInstructor { .. } => "SELECT * FROM courses WHERE instructor_id = ? ORDER BY id"@,
        }
    }

    /// The values bound to the placeholders, in the order they appear.
    pub open spec fn bound(&self) -> Seq<SqlValue> {
        match self {
            Query::InsertUser { username, password_hash, role } =>
                seq![SqlValue::Text(*username), SqlValue::Text(*password_hash), SqlValue::Text(*role)],
            Query::UserByName { username } => seq![SqlValue::Text(*username)],
            Query::InsertFeedback { course_id, student_id, content } =>
                seq![SqlValue::Integer(*course_id), SqlValue::Integer(*student_id), SqlValue::Text(*content)],
            Query::FeedbackForCourse { course_id } => seq![SqlValue::Integer(*course_id)],
            Query::DeleteFeedback { feedback_id } => seq![SqlValue::Integer(*feedback_id)],
            Query::CoursesForInstructor { instructor_id } => seq![SqlValue::Integer(*instructor_id)],
        }
    }

    /// The SQL text of the statement.
    pub fn sql(&self) -> (r: &'static str)
        ensures
            r@ == self.sql_text(),
    {
        match self {
            Query::InsertUser { .. } => "INSERT INTO users (username, password, role) VALUES (?, ?, ?)",
            Query::UserByName { .. } => "SELECT * FROM users WHERE username = ?",
            Query::InsertFeedback { .. } => "INSERT INTO feedback (course_id, student_id, content) VALUES (?, ?, ?)",
            Query::FeedbackForCourse { .. } => "SELECT * FROM feedback WHERE course_id = ? ORDER BY id",
            Query::DeleteFeedback { .. } => "DELETE FROM feedback WHERE id = ?",
            Query::CoursesForInstructor { .. } => "SELECT * FROM courses WHERE instructor_id = ? ORDER BY id",
        }
    }

    /// The values to bind, in placeholder order.
    pub fn params(&self) -> (r: Vec<SqlValue>)
        ensures
            r@ == self.bound(),
    {
        match self {
            Query::InsertUser { username, password_hash, role } =>
                vec![SqlValue::Text(username.clone()), SqlValue::Text(password_hash.clone()), SqlValue::Text(role.clone())],
            Query::UserByName { username } => vec![SqlValue::Text(username.clone())],
            Query::InsertFeedback { course_id, student_id, content } =>
                vec![SqlValue::Integer(*course_id), SqlValue::Integer(*student_id), SqlValue::Text(content.clone())],
            Query::FeedbackForCourse { course_id } => vec![SqlValue::Integer(*course_id)],
            Query::DeleteFeedback { feedback_id } => vec![SqlValue::Integer(*feedback_id)],
            Query::CoursesForInstructor { instructor_id } => vec![SqlValue::Integer(*instructor_id)],
        }
    }
}

} // verus!
