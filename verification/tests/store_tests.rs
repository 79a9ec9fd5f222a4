use user_service::errors::AppError;
use user_service::models::NewUser;
use user_service::models::UpdateUser;
use user_service::store::UpdateOutcome;
use user_service::store::UserTable;

fn new_user(name: &str, email: &str) -> NewUser {
    NewUser { name: name.to_string(), email: email.to_string() }
}

#[test]
fn create_then_fetch_round_trip() {
    let mut t = UserTable::new();
    let created = t.create_user(&new_user("Alice", "a@x.com"));
    let fetched = t.get_user_by_id(created.id).unwrap();
    assert_eq!(fetched.id, created.id);
    assert_eq!(fetched.name, "Alice");
    assert_eq!(fetched.email, "a@x.com");
}

#[test]
fn fetch_missing_id_is_not_found() {
    let mut t = UserTable::new();
    match t.get_user_by_id(42) {
        Err(AppError::NotFound) => {}
        _ => panic!("expected NotFound"),
    }
    t.create_user(&new_user("Bob", "b@x.com"));
    let err = t.get_user_by_id(999).unwrap_err();
    assert!(matches!(err, AppError::NotFound));
    assert_eq!(err.status_code(), 404);
}

#[test]
fn list_after_creates_returns_each_row() {
    let mut t = UserTable::new();
    let a = t.create_user(&new_user("Alice", "a@x.com"));
    let b = t.create_user(&new_user("Bob", "b@x.com"));
    let c = t.create_user(&new_user("Carol", "c@x.com"));
    let all = t.get_users();
    assert!(all.len() >= 3);
    for id in [a.id, b.id, c.id] {
        assert!(t.get_user_by_id(id).is_ok());
    }
    assert_eq!(all[0].name, "Alice");
    assert_eq!(all[1].name, "Bob");
    assert_eq!(all[2].name, "Carol");
}

#[test]
fn update_with_no_fields_is_rejected_and_changes_nothing() {
    let mut t = UserTable::new();
    let u = t.create_user(&new_user("Alice", "a@x.com"));
    let outcome = t.update_user(u.id, &UpdateUser { name: None, email: None });
    assert!(matches!(outcome, UpdateOutcome::NoFields));
    assert_eq!(outcome.status_code(), 400);
    let after = t.get_user_by_id(u.id).unwrap();
    assert_eq!(after.name, "Alice");
    assert_eq!(after.email, "a@x.com");
}

#[test]
fn update_name_only_keeps_email() {
    let mut t = UserTable::new();
    let u = t.create_user(&new_user("Alice", "a@x.com"));
    let outcome = t.update_user(
        u.id,
        &UpdateUser { name: Some("Alicia".to_string()), email: None },
    );
    match outcome {
        UpdateOutcome::Updated(w) => {
            assert_eq!(w.id, u.id);
            assert_eq!(w.name, "Alicia");
            assert_eq!(w.email, "a@x.com");
        }
        _ => panic!("expected Updated"),
    }
    let after = t.get_user_by_id(u.id).unwrap();
    assert_eq!(after.name, "Alicia");
    assert_eq!(after.email, "a@x.com");
}

#[test]
fn update_missing_id_is_not_found() {
    let mut t = UserTable::new();
    t.create_user(&new_user("Alice", "a@x.com"));
    let outcome = t.update_user(
        17,
        &UpdateUser { name: Some("Nobody".to_string()), email: None },
    );
    assert!(matches!(outcome, UpdateOutcome::NotFound));
    assert_eq!(outcome.status_code(), 404);
    let after = t.get_user_by_id(1).unwrap();
    assert_eq!(after.name, "Alice");
}

#[test]
fn delete_is_idempotent_and_removes_the_row() {
    let mut t = UserTable::new();
    let u = t.create_user(&new_user("Alice", "a@x.com"));
    t.delete_user(999);
    assert_eq!(t.get_users().len(), 1);
    t.delete_user(u.id);
    assert!(matches!(t.get_user_by_id(u.id), Err(AppError::NotFound)));
    t.delete_user(u.id);
    assert_eq!(t.get_users().len(), 0);
}

#[test]
fn crud_scenario() {
    let mut t = UserTable::new();
    let created = t.create_user(&new_user("Alice", "a@x.com"));
    assert_eq!(created.id, 1);
    assert_eq!(created.name, "Alice");
    assert_eq!(created.email, "a@x.com");

    let outcome = t.update_user(
        1,
        &UpdateUser { name: None, email: Some("b@x.com".to_string()) },
    );
    match outcome {
        UpdateOutcome::Updated(w) => {
            assert_eq!(w.id, 1);
            assert_eq!(w.name, "Alice");
            assert_eq!(w.email, "b@x.com");
        }
        _ => panic!("expected Updated"),
    }

    t.delete_user(1);
    let err = t.get_user_by_id(1).unwrap_err();
    assert_eq!(err.status_code(), 404);
}

#[test]
fn create_assigns_fresh_ids_in_order() {
    let mut t = UserTable::new();
    let a = t.create_user(&new_user("A", "a@x.com"));
    let b = t.create_user(&new_user("B", "b@x.com"));
    assert_eq!(a.id, 1);
    assert_eq!(b.id, 2);
    t.delete_user(a.id);
    let c = t.create_user(&new_user("C", "c@x.com"));
    assert_eq!(c.id, 3);
}

#[test]
fn empty_strings_are_accepted() {
    let mut t = UserTable::new();
    let u = t.create_user(&new_user("", ""));
    let fetched = t.get_user_by_id(u.id).unwrap();
    assert_eq!(fetched.name, "");
    assert_eq!(fetched.email, "");
}
