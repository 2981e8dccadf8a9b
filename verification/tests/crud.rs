//! End-to-end scenarios over the table model and the handler decision
//! functions: each one drives the verified library exactly as the HTTP
//! routes would.

use posts_backend::handlers::{create_post, delete_post, get_post, get_posts, update_post};
use posts_backend::handlers::StorageError;
use posts_backend::{CreatePost, PostTable};

fn req(title: &str, content: &str) -> CreatePost {
    CreatePost { title: title.to_string(), content: content.to_string() }
}

#[test]
fn create_returns_201_with_assigned_id() {
    let mut table = PostTable::new();
    let input = req("A", "B");
    let post = table.insert(req("A", "B"));
    assert!(post.id > 0);
    assert_eq!(post.id, 1);
    assert_eq!(post.title, "A");
    assert_eq!(post.content, "B");
    let resp = create_post(input, Ok(post.id));
    assert_eq!(resp.status, 201);
    assert_eq!(resp.body, "{\"id\":1,\"title\":\"A\",\"content\":\"B\"}");
}

#[test]
fn listing_returns_newest_first() {
    let mut table = PostTable::new();
    let first = table.insert(req("one", "1"));
    let second = table.insert(req("two", "2"));
    let third = table.insert(req("three", "3"));
    assert_eq!(first.id, 1);
    assert_eq!(second.id, 2);
    assert_eq!(third.id, 3);
    let listed = table.list_desc();
    let ids: Vec<i64> = listed.iter().map(|p| p.id).collect();
    assert_eq!(ids, vec![3, 2, 1]);
    let resp = get_posts(Ok(listed));
    assert_eq!(resp.status, 200);
    assert_eq!(
        resp.body,
        "[{\"id\":3,\"title\":\"three\",\"content\":\"3\"},\
         {\"id\":2,\"title\":\"two\",\"content\":\"2\"},\
         {\"id\":1,\"title\":\"one\",\"content\":\"1\"}]"
    );
}

#[test]
fn listing_empty_table_gives_empty_array() {
    let table = PostTable::new();
    let resp = get_posts(Ok(table.list_desc()));
    assert_eq!(resp.status, 200);
    assert_eq!(resp.body, "[]");
}

#[test]
fn listing_storage_failure_gives_500() {
    let resp = get_posts(Err(StorageError::Other));
    assert_eq!(resp.status, 500);
    assert_eq!(resp.body, "");
}

#[test]
fn fetch_just_created_post_returns_it() {
    let mut table = PostTable::new();
    let created = table.insert(req("hello", "world"));
    let fetched = table.get(created.id).expect("created row must be found");
    assert_eq!(fetched.id, created.id);
    assert_eq!(fetched.title, "hello");
    assert_eq!(fetched.content, "world");
    let resp = get_post(Ok(fetched));
    assert_eq!(resp.status, 200);
    assert_eq!(resp.body, "{\"id\":1,\"title\":\"hello\",\"content\":\"world\"}");
}

#[test]
fn fetch_missing_id_returns_404() {
    let mut table = PostTable::new();
    table.insert(req("a", "b"));
    assert!(table.get(999999).is_none());
    let resp = get_post(Err(StorageError::NotFound));
    assert_eq!(resp.status, 404);
    assert_eq!(resp.body, "");
}

#[test]
fn fetch_storage_failure_returns_500() {
    let resp = get_post(Err(StorageError::Other));
    assert_eq!(resp.status, 500);
    assert_eq!(resp.body, "");
}

#[test]
fn update_existing_post_is_visible() {
    let mut table = PostTable::new();
    let created = table.insert(req("old title", "old content"));
    let modified = table.update(created.id, &req("new title", "new content"));
    assert!(modified);
    let resp = update_post(Ok(1));
    assert_eq!(resp.status, 200);
    assert_eq!(resp.body, "");
    let fetched = table.get(created.id).expect("updated row must still exist");
    assert_eq!(fetched.id, created.id);
    assert_eq!(fetched.title, "new title");
    assert_eq!(fetched.content, "new content");
}

#[test]
fn update_missing_id_returns_404_and_adds_no_row() {
    let mut table = PostTable::new();
    table.insert(req("a", "b"));
    let modified = table.update(42, &req("x", "y"));
    assert!(!modified);
    let resp = update_post(Ok(0));
    assert_eq!(resp.status, 404);
    assert_eq!(resp.body, "");
    assert_eq!(table.list_desc().len(), 1);
    let untouched = table.get(1).expect("existing row must survive");
    assert_eq!(untouched.title, "a");
    assert_eq!(untouched.content, "b");
}

#[test]
fn update_storage_failure_returns_500() {
    let resp = update_post(Err(StorageError::Other));
    assert_eq!(resp.status, 500);
}

#[test]
fn delete_existing_post_then_fetch_404s() {
    let mut table = PostTable::new();
    let created = table.insert(req("gone", "soon"));
    let removed = table.delete(created.id);
    assert!(removed);
    let resp = delete_post(Ok(1));
    assert_eq!(resp.status, 204);
    assert_eq!(resp.body, "");
    assert!(table.get(created.id).is_none());
    let after = get_post(Err(StorageError::NotFound));
    assert_eq!(after.status, 404);
}

#[test]
fn delete_missing_id_returns_404() {
    let mut table = PostTable::new();
    table.insert(req("a", "b"));
    assert!(!table.delete(999999));
    let resp = delete_post(Ok(0));
    assert_eq!(resp.status, 404);
}

#[test]
fn delete_twice_is_204_then_404() {
    let mut table = PostTable::new();
    let created = table.insert(req("once", "only"));
    assert!(table.delete(created.id));
    let first = delete_post(Ok(1));
    assert_eq!(first.status, 204);
    assert!(!table.delete(created.id));
    let second = delete_post(Ok(0));
    assert_eq!(second.status, 404);
}

#[test]
fn delete_storage_failure_returns_500() {
    let resp = delete_post(Err(StorageError::Other));
    assert_eq!(resp.status, 500);
}

#[test]
fn deleted_id_is_never_reused() {
    let mut table = PostTable::new();
    let a = table.insert(req("a", "a"));
    assert_eq!(a.id, 1);
    assert!(table.delete(a.id));
    let b = table.insert(req("b", "b"));
    assert_eq!(b.id, 2);
}

#[test]
fn round_trip_keeps_title_and_content() {
    let pairs: Vec<(&str, &str)> = vec![
        ("A", "B"),
        ("", ""),
        ("spaces and tabs\t", "line\nbreak"),
        ("quotes \"inside\"", "back\\slash"),
        ("unicode \u{e9}\u{4e16}\u{754c}", "emoji-free but wide"),
    ];
    let mut table = PostTable::new();
    for (title, content) in pairs {
        let created = table.insert(req(title, content));
        let fetched = table.get(created.id).expect("round trip must find the row");
        assert_eq!(fetched.title, title);
        assert_eq!(fetched.content, content);
    }
}

#[test]
fn update_changes_only_the_addressed_row() {
    let mut table = PostTable::new();
    table.insert(req("first", "1"));
    table.insert(req("second", "2"));
    assert!(table.update(2, &req("second revised", "2r")));
    let first = table.get(1).expect("row 1 must remain");
    assert_eq!(first.title, "first");
    assert_eq!(first.content, "1");
    let second = table.get(2).expect("row 2 must remain");
    assert_eq!(second.title, "second revised");
    assert_eq!(second.content, "2r");
}
