use user_service::{RequestError, User, UserId, UserStore};

fn candidate(name: &str, email: &str, age: i32) -> User {
    User { id: None, name: name.to_string(), email: email.to_string(), age }
}

#[test]
fn create_assigns_fresh_id_and_lists_it() {
    let mut store = UserStore::new();
    let id = store.create_user(candidate("Alice", "alice@example.com", 30)).unwrap();
    let docs = store.get_users();
    assert_eq!(docs.len(), 1);
    assert_eq!(docs[0].id, id);
    assert_eq!(docs[0].name, "Alice");
    assert_eq!(docs[0].email, "alice@example.com");
    assert_eq!(docs[0].age, 30);
}

#[test]
fn client_supplied_id_is_discarded() {
    let mut store = UserStore::new();
    let mut user = candidate("Alice", "alice@example.com", 30);
    user.id = Some(UserId { value: 77 });
    let id = store.create_user(user).unwrap();
    assert_ne!(id.value, 77);
    let docs = store.get_users();
    assert_eq!(docs.len(), 1);
    assert_eq!(docs[0].id, id);
}

#[test]
fn create_rejects_invalid_body_without_writing() {
    let mut store = UserStore::new();
    let r = store.create_user(candidate("Al", "a@b.com", 30));
    match r {
        Err(RequestError::Validation(v)) => {
            assert_eq!(v.name, Some("Name must be at least 3 characters".to_string()));
            assert_eq!(v.email, None);
            assert_eq!(v.age, None);
        },
        _ => panic!("expected a validation failure"),
    }
    assert_eq!(store.get_users().len(), 0);
}

#[test]
fn assigned_ids_are_distinct() {
    let mut store = UserStore::new();
    let a = store.create_user(candidate("Alice", "alice@example.com", 30)).unwrap();
    let b = store.create_user(candidate("Bobby", "bob@example.com", 40)).unwrap();
    let c = store.create_user(candidate("Carol", "carol@example.com", 50)).unwrap();
    assert_ne!(a, b);
    assert_ne!(b, c);
    assert_ne!(a, c);
    assert_eq!(store.get_users().len(), 3);
}

#[test]
fn round_trip_create_update_delete() {
    let mut store = UserStore::new();
    let id = store.create_user(candidate("Alice", "alice@example.com", 30)).unwrap();

    let listed = store.get_users();
    assert!(listed.iter().any(|d| d.id == id
        && d.name == "Alice" && d.email == "alice@example.com" && d.age == 30));

    let r = store.update_user(&id.to_hex(), candidate("Alicia", "alicia@example.com", 31));
    assert!(r.is_ok());
    let listed = store.get_users();
    let doc = listed.iter().find(|d| d.id == id).unwrap();
    assert_eq!(doc.name, "Alicia");
    assert_eq!(doc.email, "alicia@example.com");
    assert_eq!(doc.age, 31);

    let r = store.delete_user(&id.to_hex());
    assert!(r.is_ok());
    assert!(!store.get_users().iter().any(|d| d.id == id));
}

#[test]
fn update_with_malformed_id_is_bad_request() {
    let mut store = UserStore::new();
    store.create_user(candidate("Alice", "alice@example.com", 30)).unwrap();
    let r = store.update_user("not-an-id", candidate("Alicia", "alicia@example.com", 31));
    assert!(matches!(r, Err(RequestError::InvalidId)));
    assert_eq!(store.get_users()[0].name, "Alice");
}

#[test]
fn update_validates_body_before_the_id() {
    let mut store = UserStore::new();
    let r = store.update_user("not-an-id", candidate("Al", "a@b.com", 30));
    assert!(matches!(r, Err(RequestError::Validation(_))));
}

#[test]
fn update_of_missing_well_formed_id_is_not_found() {
    let mut store = UserStore::new();
    let r = store.update_user(
        "000000000000000000000000",
        candidate("Alice", "alice@example.com", 30),
    );
    assert!(matches!(r, Err(RequestError::NotFound)));
}

#[test]
fn delete_with_malformed_id_is_bad_request() {
    let mut store = UserStore::new();
    store.create_user(candidate("Alice", "alice@example.com", 30)).unwrap();
    let r = store.delete_user("not-an-id");
    assert!(matches!(r, Err(RequestError::InvalidId)));
    assert_eq!(store.get_users().len(), 1);
}

#[test]
fn delete_of_missing_well_formed_id_is_not_found() {
    let mut store = UserStore::new();
    let r = store.delete_user("000000000000000000000000");
    assert!(matches!(r, Err(RequestError::NotFound)));
}

#[test]
fn delete_keeps_the_other_documents_in_order() {
    let mut store = UserStore::new();
    let a = store.create_user(candidate("Alice", "alice@example.com", 30)).unwrap();
    let b = store.create_user(candidate("Bobby", "bob@example.com", 40)).unwrap();
    let c = store.create_user(candidate("Carol", "carol@example.com", 50)).unwrap();
    store.delete_user(&b.to_hex()).unwrap();
    let docs = store.get_users();
    assert_eq!(docs.len(), 2);
    assert_eq!(docs[0].id, a);
    assert_eq!(docs[1].id, c);
}

#[test]
fn update_leaves_other_documents_alone() {
    let mut store = UserStore::new();
    let a = store.create_user(candidate("Alice", "alice@example.com", 30)).unwrap();
    let b = store.create_user(candidate("Bobby", "bob@example.com", 40)).unwrap();
    store.update_user(&a.to_hex(), candidate("Alicia", "alicia@example.com", 31)).unwrap();
    let docs = store.get_users();
    let other = docs.iter().find(|d| d.id == b).unwrap();
    assert_eq!(other.name, "Bobby");
    assert_eq!(other.email, "bob@example.com");
    assert_eq!(other.age, 40);
}

#[test]
fn update_rejects_invalid_body_without_writing() {
    let mut store = UserStore::new();
    let id = store.create_user(candidate("Alice", "alice@example.com", 30)).unwrap();
    let r = store.update_user(&id.to_hex(), candidate("Alicia", "alicia@example.com", 0));
    match r {
        Err(RequestError::Validation(v)) => {
            assert_eq!(v.age, Some("Age must be between 1 and 120".to_string()));
        },
        _ => panic!("expected a validation failure"),
    }
    assert_eq!(store.get_users()[0].age, 30);
}
