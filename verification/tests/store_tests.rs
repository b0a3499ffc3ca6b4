use twits::store::Store;

#[test]
fn fresh_store_has_seed_row() {
    let mut store = Store::open_seeded().ok().expect("store should open");
    let posts = store.list_posts().ok().expect("list should succeed");
    assert_eq!(posts.len(), 1);
    assert_eq!(posts[0].id, Some(1));
    assert_eq!(posts[0].user, "Bob");
    assert_eq!(posts[0].content, "First twit");
    assert!(posts[0].created_at.is_some());
}

#[test]
fn insert_returns_fully_populated_post() {
    let mut store = Store::open_seeded().ok().expect("store should open");
    let p = store
        .insert_post("10.0.0.1", "Hello")
        .ok()
        .expect("insert should succeed");
    assert_eq!(p.user, "10.0.0.1");
    assert_eq!(p.content, "Hello");
    assert_eq!(p.id, Some(2));
    assert!(p.created_at.is_some());
}

#[test]
fn list_returns_all_inserts_in_order() {
    let mut store = Store::open_seeded().ok().expect("store should open");
    store.insert_post("a", "one").ok().expect("insert");
    store.insert_post("b", "two").ok().expect("insert");
    store.insert_post("c", "three").ok().expect("insert");
    let posts = store.list_posts().ok().expect("list");
    assert_eq!(posts.len(), 4);
    let contents: Vec<&str> = posts.iter().map(|p| p.content.as_str()).collect();
    assert_eq!(contents, vec!["First twit", "one", "two", "three"]);
    let users: Vec<&str> = posts.iter().map(|p| p.user.as_str()).collect();
    assert_eq!(users, vec!["Bob", "a", "b", "c"]);
}

#[test]
fn ids_are_unique_and_strictly_increasing() {
    let mut store = Store::open_seeded().ok().expect("store should open");
    for i in 0..5 {
        let content = format!("post {}", i);
        store.insert_post("u", &content).ok().expect("insert");
    }
    let posts = store.list_posts().ok().expect("list");
    assert_eq!(posts.len(), 6);
    let ids: Vec<i64> = posts.iter().map(|p| p.id.expect("persisted id")).collect();
    for w in ids.windows(2) {
        assert!(w[0] < w[1], "ids must strictly increase: {:?}", ids);
    }
}

#[test]
fn reads_do_not_change_the_feed() {
    let mut store = Store::open_seeded().ok().expect("store should open");
    store.insert_post("a", "one").ok().expect("insert");
    let first = store.list_posts().ok().expect("list");
    let second = store.list_posts().ok().expect("list");
    assert_eq!(first.len(), second.len());
    for (p, q) in first.iter().zip(second.iter()) {
        assert_eq!(p.id, q.id);
        assert_eq!(p.user, q.user);
        assert_eq!(p.content, q.content);
        assert_eq!(p.created_at, q.created_at);
    }
}
