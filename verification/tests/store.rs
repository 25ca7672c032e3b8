use record_sync::record::User;
use record_sync::store::{Store, StoreError};

fn user(id: &str, username: &str) -> User {
    User {
        id: id.to_string(),
        username: username.to_string(),
        password: "secret".to_string(),
        profile_image: "avatar.png".to_string(),
        joined_date: "2024-01-01".to_string(),
    }
}

#[test]
fn store_insert_appends_in_order() {
    let mut store = Store::new();
    assert!(store.insert(user("1", "alice")).is_ok());
    assert!(store.insert(user("2", "bob")).is_ok());
    assert!(store.insert(user("3", "carol")).is_ok());
    let listed = store.list();
    assert_eq!(listed.len(), 3);
    assert_eq!(listed[0].id, "1");
    assert_eq!(listed[1].id, "2");
    assert_eq!(listed[2].id, "3");
}

#[test]
fn store_insert_duplicate_fails_and_keeps_store() {
    let mut store = Store::new();
    assert!(store.insert(user("1", "alice")).is_ok());
    let before = store.list();
    let r = store.insert(user("1", "impostor"));
    assert_eq!(r, Err(StoreError::DuplicateId));
    let after = store.list();
    assert_eq!(before, after);
    assert_eq!(after.len(), 1);
    assert_eq!(after[0].username, "alice");
}

#[test]
fn store_replace_keeps_stored_id_and_slot() {
    let mut store = Store::new();
    assert!(store.insert(user("1", "alice")).is_ok());
    assert!(store.insert(user("2", "bob")).is_ok());
    let r = store.replace(&"1".to_string(), user("x", "new"));
    assert!(r.is_ok());
    let listed = store.list();
    assert_eq!(listed.len(), 2);
    assert_eq!(listed[0].id, "1");
    assert_eq!(listed[0].username, "new");
    assert_eq!(listed[1].id, "2");
    assert_eq!(listed[1].username, "bob");
}

#[test]
fn store_replace_missing_fails_and_keeps_store() {
    let mut store = Store::new();
    assert!(store.insert(user("1", "alice")).is_ok());
    let before = store.list();
    let r = store.replace(&"9".to_string(), user("9", "ghost"));
    assert_eq!(r, Err(StoreError::NotFound));
    assert_eq!(store.list(), before);
}

#[test]
fn store_delete_removes_one_slot() {
    let mut store = Store::new();
    assert!(store.insert(user("1", "alice")).is_ok());
    assert!(store.insert(user("2", "bob")).is_ok());
    assert!(store.insert(user("3", "carol")).is_ok());
    assert!(store.delete(&"2".to_string()).is_ok());
    let listed = store.list();
    assert_eq!(listed.len(), 2);
    assert_eq!(listed[0].id, "1");
    assert_eq!(listed[1].id, "3");
}

#[test]
fn store_delete_missing_fails_and_keeps_store() {
    let mut store = Store::new();
    assert!(store.insert(user("1", "alice")).is_ok());
    let before = store.list();
    let r = store.delete(&"9".to_string());
    assert_eq!(r, Err(StoreError::NotFound));
    assert_eq!(store.list(), before);
    assert_eq!(store.len(), 1);
}
