//! The JSON text the library produces, checked against exact expected
//! strings, including the escaping rules and the integer rendering.

use posts_backend::json::{post_json_string, posts_json_string};
use posts_backend::Post;

fn post(id: i64, title: &str, content: &str) -> Post {
    Post { id, title: title.to_string(), content: content.to_string() }
}

#[test]
fn plain_post_object() {
    let s = post_json_string(&post(7, "Title", "Body"));
    assert_eq!(s, "{\"id\":7,\"title\":\"Title\",\"content\":\"Body\"}");
}

#[test]
fn empty_strings_are_empty_literals() {
    let s = post_json_string(&post(1, "", ""));
    assert_eq!(s, "{\"id\":1,\"title\":\"\",\"content\":\"\"}");
}

#[test]
fn id_zero_and_large_ids() {
    let s = post_json_string(&post(0, "t", "c"));
    assert_eq!(s, "{\"id\":0,\"title\":\"t\",\"content\":\"c\"}");
    let s = post_json_string(&post(i64::MAX, "t", "c"));
    assert_eq!(s, "{\"id\":9223372036854775807,\"title\":\"t\",\"content\":\"c\"}");
}

#[test]
fn negative_ids_carry_a_sign() {
    let s = post_json_string(&post(-42, "t", "c"));
    assert_eq!(s, "{\"id\":-42,\"title\":\"t\",\"content\":\"c\"}");
    let s = post_json_string(&post(i64::MIN, "t", "c"));
    assert_eq!(s, "{\"id\":-9223372036854775808,\"title\":\"t\",\"content\":\"c\"}");
}

#[test]
fn quotes_and_backslashes_are_escaped() {
    let s = post_json_string(&post(1, "say \"hi\"", "a\\b"));
    assert_eq!(s, "{\"id\":1,\"title\":\"say \\\"hi\\\"\",\"content\":\"a\\\\b\"}");
}

#[test]
fn common_control_characters_get_short_escapes() {
    let s = post_json_string(&post(1, "a\nb", "c\rd\te"));
    assert_eq!(s, "{\"id\":1,\"title\":\"a\\nb\",\"content\":\"c\\rd\\te\"}");
}

#[test]
fn rare_control_characters_get_unicode_escapes() {
    let s = post_json_string(&post(1, "a\u{1}b", "c\u{1f}d"));
    assert_eq!(s, "{\"id\":1,\"title\":\"a\\u0001b\",\"content\":\"c\\u001fd\"}");
}

#[test]
fn non_ascii_text_passes_through_unescaped() {
    let s = post_json_string(&post(1, "caf\u{e9}", "\u{4e16}\u{754c}"));
    assert_eq!(s, "{\"id\":1,\"title\":\"caf\u{e9}\",\"content\":\"\u{4e16}\u{754c}\"}");
}

#[test]
fn array_of_posts_joins_with_commas() {
    let posts = vec![post(2, "b", "2"), post(1, "a", "1")];
    let s = posts_json_string(&posts);
    assert_eq!(
        s,
        "[{\"id\":2,\"title\":\"b\",\"content\":\"2\"},{\"id\":1,\"title\":\"a\",\"content\":\"1\"}]"
    );
}

#[test]
fn array_of_one_post_has_no_comma() {
    let posts = vec![post(5, "solo", "x")];
    let s = posts_json_string(&posts);
    assert_eq!(s, "[{\"id\":5,\"title\":\"solo\",\"content\":\"x\"}]");
}

#[test]
fn empty_array_is_two_brackets() {
    let posts: Vec<Post> = Vec::new();
    assert_eq!(posts_json_string(&posts), "[]");
}
