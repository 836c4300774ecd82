use post_service::statements::delete_statement;
use post_service::statements::insert_statement;
use post_service::statements::list_statement;
use post_service::statements::update_statement;
use post_service::CreatePostSchema;
use post_service::UpdatePostSchema;

fn update(message: Option<&str>, username: Option<&str>, day: Option<&str>) -> UpdatePostSchema {
    UpdatePostSchema {
        message: message.map(|s| s.to_string()),
        username: username.map(|s| s.to_string()),
        day: day.map(|s| s.to_string()),
    }
}

#[test]
fn list_statement_text() {
    assert_eq!(list_statement(), "SELECT * FROM posts");
}

#[test]
fn delete_statement_text() {
    assert_eq!(delete_statement(), "DELETE FROM posts WHERE id = $1");
}

#[test]
fn insert_statement_text_and_binds() {
    let c = CreatePostSchema {
        message: "hi".to_string(),
        username: "bob".to_string(),
        day: "mon".to_string(),
    };
    let (q, binds) = insert_statement(&c);
    assert_eq!(
        q,
        "INSERT INTO posts (message, username, day) VALUES ($1, $2, $3) RETURNING *"
    );
    assert_eq!(binds, vec!["hi".to_string(), "bob".to_string(), "mon".to_string()]);
}

#[test]
fn update_no_fields_is_self_assignment() {
    let (q, binds) = update_statement(&update(None, None, None));
    assert_eq!(q, "UPDATE posts SET id = $1 WHERE id = $1");
    assert!(binds.is_empty());
}

#[test]
fn update_message_only() {
    let (q, binds) = update_statement(&update(Some("m"), None, None));
    assert_eq!(q, "UPDATE posts SET id = $1, message = $2 WHERE id = $1");
    assert_eq!(binds, vec!["m".to_string()]);
}

#[test]
fn update_username_only() {
    let (q, binds) = update_statement(&update(None, Some("u"), None));
    assert_eq!(q, "UPDATE posts SET id = $1, username = $2 WHERE id = $1");
    assert_eq!(binds, vec!["u".to_string()]);
}

#[test]
fn update_day_only() {
    let (q, binds) = update_statement(&update(None, None, Some("d")));
    assert_eq!(q, "UPDATE posts SET id = $1, day = $2 WHERE id = $1");
    assert_eq!(binds, vec!["d".to_string()]);
}

#[test]
fn update_message_and_username() {
    let (q, binds) = update_statement(&update(Some("m"), Some("u"), None));
    assert_eq!(
        q,
        "UPDATE posts SET id = $1, message = $2, username = $3 WHERE id = $1"
    );
    assert_eq!(binds, vec!["m".to_string(), "u".to_string()]);
}

#[test]
fn update_message_and_day() {
    let (q, binds) = update_statement(&update(Some("m"), None, Some("d")));
    assert_eq!(q, "UPDATE posts SET id = $1, message = $2, day = $3 WHERE id = $1");
    assert_eq!(binds, vec!["m".to_string(), "d".to_string()]);
}

#[test]
fn update_username_and_day() {
    let (q, binds) = update_statement(&update(None, Some("u"), Some("d")));
    assert_eq!(
        q,
        "UPDATE posts SET id = $1, username = $2, day = $3 WHERE id = $1"
    );
    assert_eq!(binds, vec!["u".to_string(), "d".to_string()]);
}

#[test]
fn update_all_fields() {
    let (q, binds) = update_statement(&update(Some("m"), Some("u"), Some("d")));
    assert_eq!(
        q,
        "UPDATE posts SET id = $1, message = $2, username = $3, day = $4 WHERE id = $1"
    );
    assert_eq!(binds, vec!["m".to_string(), "u".to_string(), "d".to_string()]);
}

#[test]
fn update_values_travel_as_binds_not_text() {
    // A hostile value never appears in the statement text itself.
    let (q, binds) = update_statement(&update(Some("'; DROP TABLE posts; --"), None, None));
    assert_eq!(q, "UPDATE posts SET id = $1, message = $2 WHERE id = $1");
    assert_eq!(binds, vec!["'; DROP TABLE posts; --".to_string()]);
}
