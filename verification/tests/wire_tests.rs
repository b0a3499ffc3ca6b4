use twits::html::render_index;
use twits::json::post_to_json;
use twits::post::Post;

fn post(id: Option<i64>, user: &str, content: &str, created_at: Option<i64>) -> Post {
    Post {
        id,
        user: user.to_string(),
        content: content.to_string(),
        created_at,
    }
}

#[test]
fn post_json_exact() {
    let p = post(Some(7), "alice", "Hello", Some(123));
    assert_eq!(
        post_to_json(&p),
        "{\"id\":7,\"user\":\"alice\",\"content\":\"Hello\",\"created_at\":123}"
    );
}

#[test]
fn post_json_null_fields() {
    let p = post(None, "alice", "x", None);
    assert_eq!(
        post_to_json(&p),
        "{\"id\":null,\"user\":\"alice\",\"content\":\"x\",\"created_at\":null}"
    );
}

#[test]
fn post_json_negative_numbers() {
    let p = post(Some(-5), "u", "c", Some(-9223372036854775808));
    assert_eq!(
        post_to_json(&p),
        "{\"id\":-5,\"user\":\"u\",\"content\":\"c\",\"created_at\":-9223372036854775808}"
    );
}

#[test]
fn post_json_escapes_strings() {
    let p = post(Some(1), "a\"b\\c", "line\nbreak\ttab\r", Some(0));
    assert_eq!(
        post_to_json(&p),
        "{\"id\":1,\"user\":\"a\\\"b\\\\c\",\"content\":\"line\\nbreak\\ttab\\r\",\"created_at\":0}"
    );
}

#[test]
fn post_json_escapes_control_characters() {
    let p = post(Some(1), "u", "a\u{08}b\u{0c}c\u{1f}d", Some(0));
    assert_eq!(
        post_to_json(&p),
        "{\"id\":1,\"user\":\"u\",\"content\":\"a\\bb\\fc\\u001fd\",\"created_at\":0}"
    );
}

#[test]
fn post_json_keeps_unicode() {
    let p = post(Some(1), "u", "héllo ☃", Some(0));
    assert_eq!(
        post_to_json(&p),
        "{\"id\":1,\"user\":\"u\",\"content\":\"héllo ☃\",\"created_at\":0}"
    );
}

#[test]
fn index_page_exact() {
    assert_eq!(
        render_index("Test"),
        "<html><head><title>Test</title></head><body><h1>Test</h1></body></html>"
    );
}

#[test]
fn index_page_escapes_title() {
    assert_eq!(
        render_index("<b>&'\"x"),
        "<html><head><title>&lt;b&gt;&amp;&#x27;&quot;x</title></head><body><h1>&lt;b&gt;&amp;&#x27;&quot;x</h1></body></html>"
    );
}
