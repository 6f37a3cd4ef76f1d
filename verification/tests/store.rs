use rusty_api::store::Store;
use rusty_api::user::User;

fn names(users: &[User]) -> Vec<String> {
    users.iter().map(|u| u.username.clone()).collect()
}

fn ids(users: &[User]) -> Vec<u64> {
    users.iter().map(|u| u.user_id).collect()
}

#[test]
fn new_store_is_empty_and_starts_at_one() {
    let store = Store::new();
    assert_eq!(store.len(), 0);
    assert_eq!(store.next_id(), 1);
    assert!(store.list().is_empty());
    assert_eq!(store.get(1), None);
}

#[test]
fn create_returns_the_record_it_stored() {
    let mut store = Store::new();
    let user = store.create("alice".to_string());
    assert_eq!(
        user,
        User {
            user_id: 1,
            username: "alice".to_string(),
            message: "User 1 created successfully!".to_string(),
        }
    );
    assert_eq!(store.list(), vec![user]);
    assert_eq!(store.next_id(), 2);
}

#[test]
fn ids_are_distinct_and_strictly_increasing() {
    let mut store = Store::new();
    let mut issued: Vec<u64> = Vec::new();
    for k in 0..50u64 {
        let user = store.create(format!("user{}", k));
        issued.push(user.user_id);
    }
    let expected: Vec<u64> = (1..=50).collect();
    assert_eq!(issued, expected);
    for pair in issued.windows(2) {
        assert!(pair[0] < pair[1]);
    }
}

#[test]
fn ids_are_never_reused_after_a_delete() {
    let mut store = Store::new();
    assert_eq!(store.create("a".to_string()).user_id, 1);
    assert_eq!(store.create("b".to_string()).user_id, 2);
    assert!(store.delete(2));
    assert!(store.delete(1));
    assert_eq!(store.len(), 0);
    assert_eq!(store.create("c".to_string()).user_id, 3);
    assert_eq!(store.next_id(), 4);
}

#[test]
fn create_then_get_finds_the_username() {
    let mut store = Store::new();
    store.create("zed".to_string());
    let k = store.create("alice".to_string()).user_id;
    store.create("yan".to_string());
    let found = store.get(k).unwrap();
    assert_eq!(found.user_id, k);
    assert_eq!(found.username, "alice");
    assert_eq!(found.message, "User 2 created successfully!");
}

#[test]
fn get_of_an_unknown_id_is_absent() {
    let mut store = Store::new();
    store.create("alice".to_string());
    assert_eq!(store.get(0), None);
    assert_eq!(store.get(2), None);
    assert_eq!(store.get(u64::MAX), None);
}

#[test]
fn delete_removes_exactly_one() {
    let mut store = Store::new();
    store.create("a".to_string());
    let k = store.create("b".to_string()).user_id;
    store.create("c".to_string());
    assert!(store.delete(k));
    assert!(!store.delete(k));
    assert_eq!(store.get(k), None);
    assert_eq!(ids(&store.list()), vec![1, 3]);
    assert_eq!(names(&store.list()), vec!["a".to_string(), "c".to_string()]);
    assert_eq!(store.get(1).unwrap().username, "a");
    assert_eq!(store.get(3).unwrap().username, "c");
}

#[test]
fn delete_of_an_unknown_id_changes_nothing() {
    let mut store = Store::new();
    store.create("a".to_string());
    let before = store.list();
    assert!(!store.delete(9));
    assert_eq!(store.list(), before);
    assert_eq!(store.next_id(), 2);
}

#[test]
fn list_length_is_creates_minus_successful_deletes() {
    let mut store = Store::new();
    let mut creates = 0usize;
    let mut removed = 0usize;
    for k in 0..20u64 {
        store.create(format!("u{}", k));
        creates += 1;
        assert_eq!(store.list().len(), creates - removed);
    }
    for id in [3u64, 3, 40, 7, 1, 20, 20, 0] {
        if store.delete(id) {
            removed += 1;
        }
        assert_eq!(store.list().len(), creates - removed);
    }
    assert_eq!(removed, 4);
    assert_eq!(store.list().len(), 16);
    assert_eq!(store.len(), 16);
}

#[test]
fn list_keeps_insertion_order() {
    let mut store = Store::new();
    for name in ["d", "a", "c", "b"] {
        store.create(name.to_string());
    }
    store.delete(2);
    store.create("e".to_string());
    assert_eq!(
        names(&store.list()),
        vec!["d".to_string(), "c".to_string(), "b".to_string(), "e".to_string()]
    );
    assert_eq!(ids(&store.list()), vec![1, 3, 4, 5]);
}

#[test]
fn returned_records_are_independent_copies() {
    let mut store = Store::new();
    let mut user = store.create("alice".to_string());
    user.username.push_str("-changed");
    let mut all = store.list();
    all[0].message.clear();
    all.clear();
    assert_eq!(store.get(1).unwrap().username, "alice");
    assert_eq!(store.get(1).unwrap().message, "User 1 created successfully!");
    assert_eq!(store.list().len(), 1);
}

#[test]
fn empty_and_repeated_usernames_are_accepted() {
    let mut store = Store::new();
    let a = store.create(String::new());
    let b = store.create("same".to_string());
    let c = store.create("same".to_string());
    assert_eq!(a.username, "");
    assert_eq!(a.message, "User 1 created successfully!");
    assert_eq!((b.user_id, c.user_id), (2, 3));
    assert_eq!(store.len(), 3);
}

#[test]
fn clone_of_a_record_equals_it() {
    let mut store = Store::new();
    let user = store.create("alice".to_string());
    assert_eq!(user.clone(), user);
}
