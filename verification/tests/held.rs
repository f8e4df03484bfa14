use user_registry::service::Reply;
use user_registry::shared::{create_user_held, get_user_held, StoreError};
use user_registry::store::UserStore;
use user_registry::user::{User, UserRecord};

fn user(name: &str) -> User {
    User { name: String::from(name) }
}

#[test]
fn creation_without_a_store_is_unavailable() {
    assert_eq!(create_user_held(None, user("Alice")), Err(StoreError::Unavailable));
}

#[test]
fn lookup_without_a_store_is_unavailable() {
    assert_eq!(get_user_held(None, 1), Err(StoreError::Unavailable));
    assert_eq!(get_user_held(None, 0), Err(StoreError::Unavailable));
}

#[test]
fn creation_on_a_held_store_stores_and_replies() {
    let mut store = UserStore::new();
    let first = create_user_held(Some(&mut store), user("Alice"));
    assert_eq!(first, Ok(Reply::Created(UserRecord { id: 1, name: String::from("Alice") })));
    let second = create_user_held(Some(&mut store), user("Bob"));
    assert_eq!(second, Ok(Reply::Created(UserRecord { id: 2, name: String::from("Bob") })));
    assert_eq!(store.len(), 2);
    assert_eq!(store.get(1), Some(&user("Alice")));
    assert_eq!(store.get(2), Some(&user("Bob")));
}

#[test]
fn lookup_on_a_held_store_finds_what_is_there() {
    let mut store = UserStore::new();
    store.create(user("Alice"));
    assert_eq!(get_user_held(Some(&store), 1), Ok(Reply::Found(user("Alice"))));
    assert_eq!(get_user_held(Some(&store), 2), Ok(Reply::NotFound));
    assert_eq!(get_user_held(Some(&store), 0), Ok(Reply::NotFound));
    assert_eq!(store.len(), 1);
}
