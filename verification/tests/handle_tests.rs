use twits::handle::{handle, BodyKind, Response};
use twits::router::Method;
use twits::store::Store;

fn fresh() -> Store {
    Store::open_seeded().ok().expect("store should open")
}

fn count(hay: &str, needle: &str) -> usize {
    hay.matches(needle).count()
}

#[test]
fn get_twits_on_fresh_instance_returns_seed_only() {
    let mut store = fresh();
    let resp = handle(&mut store, Method::Get, "/twits", None, None);
    assert_eq!(resp.status, 200);
    assert!(matches!(resp.kind, BodyKind::Json));
    assert!(resp
        .body
        .starts_with("[{\"id\":1,\"user\":\"Bob\",\"content\":\"First twit\",\"created_at\":"));
    assert!(resp.body.ends_with("}]"));
    assert_eq!(count(&resp.body, "\"id\":"), 1);
    assert_eq!(count(&resp.body, "\"created_at\":null"), 0);
}

#[test]
fn post_twits_creates_and_returns_the_post() {
    let mut store = fresh();
    let resp = handle(
        &mut store,
        Method::Post,
        "/twits",
        Some("127.0.0.1"),
        Some("Hello"),
    );
    assert_eq!(resp.status, 200);
    assert!(matches!(resp.kind, BodyKind::Json));
    assert!(resp
        .body
        .starts_with("{\"id\":2,\"user\":\"127.0.0.1\",\"content\":\"Hello\",\"created_at\":"));
    assert!(resp.body.ends_with("}"));
    assert_eq!(count(&resp.body, "\"id\":null"), 0);
    assert_eq!(count(&resp.body, "\"created_at\":null"), 0);
}

#[test]
fn post_twits_without_content_is_client_error_and_creates_no_row() {
    let mut store = fresh();
    let resp = handle(&mut store, Method::Post, "/twits", Some("127.0.0.1"), None);
    assert_eq!(resp.status, 400);
    let listing = handle(&mut store, Method::Get, "/twits", None, None);
    assert_eq!(listing.status, 200);
    assert_eq!(count(&listing.body, "\"id\":"), 1);
}

#[test]
fn post_twits_without_caller_address_is_client_error() {
    let mut store = fresh();
    let resp = handle(&mut store, Method::Post, "/twits", None, Some("Hello"));
    assert_eq!(resp.status, 400);
    let listing = handle(&mut store, Method::Get, "/twits", None, None);
    assert_eq!(count(&listing.body, "\"id\":"), 1);
}

#[test]
fn html_and_json_listings_reflect_the_same_data() {
    let mut store = fresh();
    handle(
        &mut store,
        Method::Post,
        "/twits",
        Some("10.0.0.1"),
        Some("alpha"),
    );
    handle(
        &mut store,
        Method::Post,
        "/twits",
        Some("10.0.0.2"),
        Some("beta"),
    );
    let json = handle(&mut store, Method::Get, "/twits", None, None);
    let html = handle(&mut store, Method::Get, "/twits_html", None, None);
    assert_eq!(json.status, 200);
    assert_eq!(html.status, 200);
    assert!(matches!(html.kind, BodyKind::Html));
    assert_eq!(count(&json.body, "\"id\":"), count(&html.body, "<li>"));
    for content in ["First twit", "alpha", "beta"] {
        assert_eq!(
            count(&json.body, &format!("\"content\":\"{}\"", content)),
            1
        );
        assert_eq!(count(&html.body, &format!("</b>: {}</li>", content)), 1);
    }
}

#[test]
fn twits_html_renders_list_items_in_order() {
    let mut store = fresh();
    handle(
        &mut store,
        Method::Post,
        "/twits",
        Some("10.0.0.1"),
        Some("alpha"),
    );
    let html = handle(&mut store, Method::Get, "/twits_html", None, None);
    assert_eq!(html.status, 200);
    assert!(html.body.starts_with("<html><body><ul>"));
    assert!(html.body.ends_with("</ul></body></html>"));
    let bob = html.body.find("<li><b>Bob</b>: First twit</li>").unwrap();
    let alpha = html.body.find("<li><b>10.0.0.1</b>: alpha</li>").unwrap();
    assert!(bob < alpha, "seed row must come first");
}

#[test]
fn index_page_is_served_at_root() {
    let mut store = fresh();
    let resp = handle(&mut store, Method::Get, "/", None, None);
    assert_eq!(resp.status, 200);
    assert!(matches!(resp.kind, BodyKind::Html));
    assert_eq!(
        resp.body,
        "<html><head><title>Test</title></head><body><h1>Test</h1></body></html>"
    );
}

#[test]
fn unregistered_routes_are_not_found_not_server_errors() {
    let mut store = fresh();
    let cases: Vec<Response> = vec![
        handle(&mut store, Method::Get, "/missing", None, None),
        handle(&mut store, Method::Post, "/", None, Some("x")),
        handle(&mut store, Method::Post, "/twits_html", Some("a"), Some("x")),
        handle(&mut store, Method::Get, "/twits/", None, None),
    ];
    for resp in cases {
        assert_eq!(resp.status, 404);
        assert_eq!(resp.body, "Not Found");
    }
    let listing = handle(&mut store, Method::Get, "/twits", None, None);
    assert_eq!(count(&listing.body, "\"id\":"), 1);
}

#[test]
fn content_with_nul_byte_is_client_error_and_creates_no_row() {
    let mut store = fresh();
    let resp = handle(
        &mut store,
        Method::Post,
        "/twits",
        Some("127.0.0.1"),
        Some("bad\0content"),
    );
    assert_eq!(resp.status, 400);
    assert_eq!(resp.body, "Bad Request");
    let listing = handle(&mut store, Method::Get, "/twits", None, None);
    assert_eq!(count(&listing.body, "\"id\":"), 1);
}

#[test]
fn created_content_is_escaped_in_both_representations() {
    let mut store = fresh();
    let resp = handle(
        &mut store,
        Method::Post,
        "/twits",
        Some("127.0.0.1"),
        Some("a<b>&\"quote\""),
    );
    assert_eq!(resp.status, 200);
    assert_eq!(count(&resp.body, "\"content\":\"a<b>&\\\"quote\\\"\""), 1);
    let html = handle(&mut store, Method::Get, "/twits_html", None, None);
    assert_eq!(
        count(&html.body, "</b>: a&lt;b&gt;&amp;&quot;quote&quot;</li>"),
        1
    );
}
