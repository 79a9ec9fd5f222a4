use user_service::models::UpdateUser;
use user_service::query::build_update_query;
use user_service::query::delete_statement;
use user_service::query::insert_statement;
use user_service::query::select_all_statement;
use user_service::query::select_by_id_statement;

#[test]
fn fixed_statements() {
    assert_eq!(insert_statement(), "INSERT INTO users (name, email) VALUES (?, ?)");
    assert_eq!(select_by_id_statement(), "SELECT id, name, email FROM users WHERE id = ?");
    assert_eq!(select_all_statement(), "SELECT id, name, email FROM users");
    assert_eq!(delete_statement(), "DELETE FROM users WHERE id = ?");
}

#[test]
fn update_query_with_no_fields_is_none() {
    let upd = UpdateUser { name: None, email: None };
    assert!(build_update_query(&upd).is_none());
}

#[test]
fn update_query_name_only() {
    let upd = UpdateUser { name: Some("Alice".to_string()), email: None };
    let (stmt, params) = build_update_query(&upd).unwrap();
    assert_eq!(stmt, "UPDATE users SET name = ? WHERE id = ?");
    assert_eq!(params, vec!["Alice".to_string()]);
}

#[test]
fn update_query_email_only() {
    let upd = UpdateUser { name: None, email: Some("a@x.com".to_string()) };
    let (stmt, params) = build_update_query(&upd).unwrap();
    assert_eq!(stmt, "UPDATE users SET email = ? WHERE id = ?");
    assert_eq!(params, vec!["a@x.com".to_string()]);
}

#[test]
fn update_query_binds_name_before_email() {
    let upd = UpdateUser {
        name: Some("Alice".to_string()),
        email: Some("a@x.com".to_string()),
    };
    let (stmt, params) = build_update_query(&upd).unwrap();
    assert_eq!(stmt, "UPDATE users SET name = ?, email = ? WHERE id = ?");
    assert_eq!(params, vec!["Alice".to_string(), "a@x.com".to_string()]);
}
