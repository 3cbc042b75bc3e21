use course_feedback::statements::{Query, SqlValue};

#[test]
fn insert_user_binds_in_column_order() {
    let q = Query::InsertUser {
        username: "alice".to_string(),
        password_hash: "$argon2id$x".to_string(),
        role: "student".to_string(),
    };
    assert_eq!(q.sql(), "INSERT INTO users (username, password, role) VALUES (?, ?, ?)");
    assert_eq!(
        q.params(),
        vec![
            SqlValue::Text("alice".to_string()),
            SqlValue::Text("$argon2id$x".to_string()),
            SqlValue::Text("student".to_string()),
        ]
    );
}

#[test]
fn insert_feedback_binds_ids_then_content() {
    let q = Query::InsertFeedback { course_id: 7, student_id: 3, content: "Great class".to_string() };
    assert_eq!(q.sql(), "INSERT INTO feedback (course_id, student_id, content) VALUES (?, ?, ?)");
    assert_eq!(
        q.params(),
        vec![SqlValue::Integer(7), SqlValue::Integer(3), SqlValue::Text("Great class".to_string())]
    );
}

#[test]
fn lookups_bind_one_value() {
    let q = Query::UserByName { username: "bob".to_string() };
    assert_eq!(q.sql(), "SELECT * FROM users WHERE username = ?");
    assert_eq!(q.params(), vec![SqlValue::Text("bob".to_string())]);
    let q = Query::FeedbackForCourse { course_id: -1 };
    assert_eq!(q.sql(), "SELECT * FROM feedback WHERE course_id = ? ORDER BY id");
    assert_eq!(q.params(), vec![SqlValue::Integer(-1)]);
    let q = Query::DeleteFeedback { feedback_id: i64::MAX };
    assert_eq!(q.sql(), "DELETE FROM feedback WHERE id = ?");
    assert_eq!(q.params(), vec![SqlValue::Integer(i64::MAX)]);
    let q = Query::CoursesForInstructor { instructor_id: 5 };
    assert_eq!(q.sql(), "SELECT * FROM courses WHERE instructor_id = ? ORDER BY id");
    assert_eq!(q.params(), vec![SqlValue::Integer(5)]);
}
