use rust_otel_auto::demo_store::DataStore;

#[test]
fn seeded_store_contents() {
    let store = DataStore::default();
    let users = store.users();
    assert_eq!(users.len(), 3);
    assert_eq!(users[0].name, "Alice");
    assert_eq!(users[2].email, None);
    assert_eq!(store.posts().len(), 3);
}

#[test]
fn lookups_by_id_and_author() {
    let store = DataStore::default();
    assert_eq!(store.user(2).unwrap().name, "Bob");
    assert!(store.user(9).is_none());
    assert!(store.user(-1).is_none());
    let by_alice = store.posts_by_user(1);
    assert_eq!(by_alice.len(), 2);
    assert_eq!(by_alice[1].title, "OpenTelemetry Best Practices");
    assert!(store.posts_by_user(3).is_empty());
}

#[test]
fn search_is_case_insensitive_substring() {
    let store = DataStore::default();
    let found = store.search_users("LI");
    let names: Vec<&str> = found.iter().map(|u| u.name.as_str()).collect();
    assert_eq!(names, vec!["Alice", "Charlie"]);
    assert_eq!(store.search_users("").len(), 3);
    assert!(store.search_users("zed").is_empty());
}

#[test]
fn create_and_delete() {
    let mut store = DataStore::default();
    let u = store.create_user("Dave".to_string(), Some("dave@example.com".to_string()));
    assert_eq!(u.id, "4");
    assert_eq!(store.user(4).unwrap().name, "Dave");
    let p = store.create_post("T".to_string(), "C".to_string(), 4);
    assert_eq!(p.id, "4");
    assert_eq!(p.author_id, "4");
    assert!(store.delete_user(2));
    assert!(!store.delete_user(2));
    assert!(store.user(2).is_none());
    assert_eq!(store.users().len(), 3);
}
