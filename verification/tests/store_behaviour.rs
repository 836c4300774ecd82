use post_service::handlers::create_post_response;
use post_service::handlers::delete_post_response;
use post_service::handlers::get_posts_response;
use post_service::handlers::update_post_response;
use post_service::json::uuid_string;
use post_service::store::PostStore;
use post_service::CreatePostSchema;
use post_service::UpdatePostSchema;

fn create(message: &str, username: &str, day: &str) -> CreatePostSchema {
    CreatePostSchema {
        message: message.to_string(),
        username: username.to_string(),
        day: day.to_string(),
    }
}

fn update(message: Option<&str>, username: Option<&str>, day: Option<&str>) -> UpdatePostSchema {
    UpdatePostSchema {
        message: message.map(|s| s.to_string()),
        username: username.map(|s| s.to_string()),
        day: day.map(|s| s.to_string()),
    }
}

#[test]
fn insert_returns_submitted_values_with_fresh_unique_ids() {
    let mut store = PostStore::new();
    let first = store.insert(&create("hi", "bob", "mon"));
    assert_eq!(first.message, "hi");
    assert_eq!(first.username, "bob");
    assert_eq!(first.day, "mon");
    assert!(first.created_at.is_none());
    assert!(first.updated_at.is_none());
    let second = store.insert(&create("hi", "bob", "mon"));
    assert_ne!(first.id, second.id);
    let third = store.insert(&create("other", "eve", "tue"));
    assert_ne!(first.id, third.id);
    assert_ne!(second.id, third.id);
}

#[test]
fn delete_of_absent_id_reports_success_and_changes_nothing() {
    let mut store = PostStore::new();
    store.insert(&create("hi", "bob", "mon"));
    let before = store.list_all();
    store.delete(0xdeadbeef);
    assert_eq!(store.list_all(), before);
    let (status, body) = delete_post_response(Ok(()));
    assert_eq!(status, 200);
    assert_eq!(body, "{\"success\":true}");
}

#[test]
fn update_of_absent_id_reports_success_and_changes_nothing() {
    let mut store = PostStore::new();
    store.insert(&create("hi", "bob", "mon"));
    let before = store.list_all();
    store.partial_update(0xdeadbeef, &update(Some("x"), Some("y"), Some("z")));
    assert_eq!(store.list_all(), before);
    let (status, body) = update_post_response(Ok(()));
    assert_eq!(status, 200);
    assert_eq!(body, "{\"success\":true}");
}

#[test]
fn update_with_no_fields_alters_nothing() {
    let mut store = PostStore::new();
    let post = store.insert(&create("hi", "bob", "mon"));
    let before = store.list_all();
    store.partial_update(post.id, &update(None, None, None));
    assert_eq!(store.list_all(), before);
}

#[test]
fn update_touches_only_named_columns() {
    let mut store = PostStore::new();
    let post = store.insert(&create("a", "u", "mon"));
    store.partial_update(post.id, &update(None, None, Some("tue")));
    let rows = store.list_all();
    assert_eq!(rows.len(), 1);
    assert_eq!(rows[0].message, "a");
    assert_eq!(rows[0].username, "u");
    assert_eq!(rows[0].day, "tue");
    assert_eq!(rows[0].id, post.id);
}

#[test]
fn updates_with_disjoint_subsets_do_not_corrupt_unrelated_columns() {
    let mut store = PostStore::new();
    let post = store.insert(&create("a", "u", "mon"));
    store.partial_update(post.id, &update(Some("b"), None, None));
    store.partial_update(post.id, &update(None, None, Some("tue")));
    let rows = store.list_all();
    assert_eq!(rows[0].message, "b");
    assert_eq!(rows[0].username, "u");
    assert_eq!(rows[0].day, "tue");

    // The same two updates in the other order give the same row.
    let mut other = PostStore::new();
    let post = other.insert(&create("a", "u", "mon"));
    other.partial_update(post.id, &update(None, None, Some("tue")));
    other.partial_update(post.id, &update(Some("b"), None, None));
    assert_eq!(other.list_all(), rows);
}

#[test]
fn end_to_end_create_update_list_delete() {
    let mut store = PostStore::new();

    // POST /posts {"message":"hi","username":"bob","day":"mon"} -> 201 with the id.
    let post = store.insert(&create("hi", "bob", "mon"));
    let id = post.id;
    let id_text = uuid_string(id);
    let (status, body) = create_post_response(Ok(post));
    assert_eq!(status, 201);
    assert!(body.contains(&id_text));
    let v: serde_json::Value = serde_json::from_str(&body).unwrap();
    assert_eq!(v["data"]["id"].as_str().unwrap(), id_text);

    // PUT /posts/{id} {"day":"tue"} -> 200 {"success":true}.
    store.partial_update(id, &update(None, None, Some("tue")));
    let (status, body) = update_post_response(Ok(()));
    assert_eq!(status, 200);
    assert_eq!(body, "{\"success\":true}");

    // GET /posts includes the row with the updated day.
    let (status, body) = get_posts_response(Ok(store.list_all()));
    assert_eq!(status, 200);
    let v: serde_json::Value = serde_json::from_str(&body).unwrap();
    let data = v["data"].as_array().unwrap();
    let entry = data
        .iter()
        .find(|e| e["id"].as_str() == Some(id_text.as_str()))
        .unwrap();
    assert_eq!(entry["message"].as_str().unwrap(), "hi");
    assert_eq!(entry["day"].as_str().unwrap(), "tue");

    // DELETE /posts/{id} -> 200; a later GET no longer contains the id.
    store.delete(id);
    let (status, body) = delete_post_response(Ok(()));
    assert_eq!(status, 200);
    assert_eq!(body, "{\"success\":true}");
    let (_, body) = get_posts_response(Ok(store.list_all()));
    let v: serde_json::Value = serde_json::from_str(&body).unwrap();
    assert!(v["data"]
        .as_array()
        .unwrap()
        .iter()
        .all(|e| e["id"].as_str() != Some(id_text.as_str())));
}
