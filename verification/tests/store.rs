use user_registry::store::{UserStore, CAPACITY};
use user_registry::user::{User, UserRecord};

fn user(name: &str) -> User {
    User { name: String::from(name) }
}

#[test]
fn new_store_is_empty() {
    let store = UserStore::new();
    assert_eq!(store.len(), 0);
    assert_eq!(store.highest_id(), 0);
    assert!(!store.is_full());
    assert_eq!(store.get(0), None);
    assert_eq!(store.get(1), None);
}

#[test]
fn first_create_returns_id_one() {
    let mut store = UserStore::new();
    let record = store.create(user("Alice"));
    assert_eq!(record, UserRecord { id: 1, name: String::from("Alice") });
    assert_eq!(store.len(), 1);
    assert_eq!(store.highest_id(), 1);
}

#[test]
fn creates_return_one_to_n_in_call_order() {
    let mut store = UserStore::new();
    let mut ids: Vec<u32> = Vec::new();
    for i in 0..200u32 {
        let record = store.create(user(&format!("user-{i}")));
        assert_eq!(record.name, format!("user-{i}"));
        ids.push(record.id);
    }
    let expected: Vec<u32> = (1..=200).collect();
    assert_eq!(ids, expected);
    assert_eq!(store.len(), 200);
    assert_eq!(store.highest_id(), 200);
}

#[test]
fn get_returns_the_name_given_at_creation() {
    let mut store = UserStore::new();
    let names = ["Alice", "Bob", "Carol", "Dave"];
    for name in names {
        store.create(user(name));
    }
    for (i, name) in names.iter().enumerate() {
        let id = (i + 1) as u32;
        assert_eq!(store.get(id), Some(&user(name)));
    }
}

#[test]
fn get_finds_nothing_under_an_id_never_handed_out() {
    let mut store = UserStore::new();
    store.create(user("Alice"));
    store.create(user("Bob"));
    assert_eq!(store.get(0), None);
    assert_eq!(store.get(3), None);
    assert_eq!(store.get(999), None);
    assert_eq!(store.get(u32::MAX), None);
}

#[test]
fn get_is_repeatable_and_changes_nothing() {
    let mut store = UserStore::new();
    store.create(user("Alice"));
    store.create(user("Bob"));
    for _ in 0..10 {
        assert_eq!(store.get(1), Some(&user("Alice")));
        assert_eq!(store.get(2), Some(&user("Bob")));
        assert_eq!(store.get(3), None);
    }
    assert_eq!(store.len(), 2);
    assert_eq!(store.highest_id(), 2);
    let next = store.create(user("Carol"));
    assert_eq!(next.id, 3);
}

#[test]
fn equal_names_get_distinct_ids() {
    let mut store = UserStore::new();
    let first = store.create(user("Alice"));
    let second = store.create(user("Alice"));
    assert_eq!(first.id, 1);
    assert_eq!(second.id, 2);
    assert_eq!(store.get(1), Some(&user("Alice")));
    assert_eq!(store.get(2), Some(&user("Alice")));
}

#[test]
fn create_leaves_earlier_users_alone() {
    let mut store = UserStore::new();
    store.create(user("Alice"));
    store.create(user("Bob"));
    assert_eq!(store.get(1), Some(&user("Alice")));
    store.create(user("Carol"));
    assert_eq!(store.get(1), Some(&user("Alice")));
    assert_eq!(store.get(2), Some(&user("Bob")));
    assert_eq!(store.get(3), Some(&user("Carol")));
}

#[test]
fn empty_and_unusual_names_are_kept_as_given() {
    let mut store = UserStore::new();
    let a = store.create(user(""));
    let b = store.create(user("Zoë \"Z\" O'Neil\n"));
    assert_eq!(a, UserRecord { id: 1, name: String::new() });
    assert_eq!(b.id, 2);
    assert_eq!(store.get(1), Some(&user("")));
    assert_eq!(store.get(2), Some(&user("Zoë \"Z\" O'Neil\n")));
}

#[test]
fn capacity_is_the_number_of_nonzero_identifiers() {
    assert_eq!(CAPACITY, u32::MAX);
}

#[test]
fn clones_are_equal_to_their_source() {
    let alice = user("Alice");
    assert_eq!(alice.clone(), alice);
    let record = UserRecord { id: 7, name: String::from("Bob") };
    assert_eq!(record.clone(), record);
}
