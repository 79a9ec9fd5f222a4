//! The SQL statements the service issues, every value bound as a parameter.
//!
//! Four operations use a fixed statement; the partial update builds its
//! statement and its parameter list together, in one ordered pass, so the two
//! stay in lockstep: `name` before `email`, and the id always bound last.

use vstd::prelude::*;

use crate::models::UpdateUser;

verus! {

/// Statement that inserts a new row; binds name then email.
pub fn insert_statement() -> (r: &'static str)
    ensures
        r@ == "INSERT INTO users (name, email) VALUES (?, ?)"@,
{
    "INSERT INTO users (name, email) VALUES (?, ?)"
}

/// Statement that reads one row; binds the id.
pub fn select_by_id_statement() -> (r: &'static str)
    ensures
        r@ == "SELECT id, name, email FROM users WHERE id = ?"@,
{
    "SELECT id, name, email FROM users WHERE id = ?"
}

/// Statement that reads every row; binds nothing.
pub fn select_all_statement() -> (r: &'static str)
    ensures
        r@ == "SELECT id, name, email FROM users"@,
{
    "SELECT id, name, email FROM users"
}

/// Statement that deletes one row; binds the id.
pub fn delete_statement() -> (r: &'static str)
    ensures
        r@ == "DELETE FROM users WHERE id = ?"@,
{
    "DELETE FROM users WHERE id = ?"
}

/// Builds the partial-update statement together with its ordered parameter
/// list, or nothing when no field was supplied (the request is then rejected
/// before any storage access).
///
/// The statement lists `name = ?` before `email = ?` whenever both fields are
/// present, and the parameters follow the identical order; the final `?` is
/// for the id, which the caller binds last, after every returned parameter.
pub fn build_update_query(u: &UpdateUser) -> (r: Option<(String, Vec<String>)>)
    ensures
        r is None <==> !u.spec_has_fields(),
        r matches Some((stmt, params)) ==> match (u@.name, u@.email) {
            (Some(n), Some(e)) => {
                &&& stmt@ == "UPDATE users SET name = ?, email = ? WHERE id = ?"@
                &&& params@.len() == 2
                &&& params@[0]@ == n
                &&& params@[1]@ == e
            },
            (Some(n), None) => {
                &&& stmt@ == "UPDATE users SET name = ? WHERE id = ?"@
                &&& params@.len() == 1
                &&& params@[0]@ == n
            },
            (None, Some(e)) => {
                &&& stmt@ == "UPDATE users SET email = ? WHERE id = ?"@
                &&& params@.len() == 1
                &&& params@[0]@ == e
            },
            (None, None) => false,
        },
{
    if !u.has_fields() {
        return None;
    }
    let mut stmt: String = "UPDATE users SET ".to_owned();
    let mut params: Vec<String> = Vec::new();
    let mut first: bool = true;
    if let Some(name) = &u.name {
        stmt.append("name = ?");
        params.push(name.clone());
        first = false;
    }
    if let Some(email) = &u.email {
        if !first {
            stmt.append(", ");
        }
        stmt.append("email = ?");
        params.push(email.clone());
    }
    stmt.append(" WHERE id = ?");
    proof {
        reveal_strlit("UPDATE users SET ");
        reveal_strlit("name = ?");
        reveal_strlit(", ");
        reveal_strlit("email = ?");
        reveal_strlit(" WHERE id = ?");
        reveal_strlit("UPDATE users SET name = ?, email = ? WHERE id = ?");
        reveal_strlit("UPDATE users SET name = ? WHERE id = ?");
        reveal_strlit("UPDATE users SET email = ? WHERE id = ?");
        if u@.name is Some && u@.email is Some {
            assert(stmt@ =~= "UPDATE users SET name = ?, email = ? WHERE id = ?"@);
        } else if u@.name is Some {
            assert(stmt@ =~= "UPDATE users SET name = ? WHERE id = ?"@);
        } else {
            assert(stmt@ =~= "UPDATE users SET email = ? WHERE id = ?"@);
        }
    }
    Some((stmt, params))
}

} // verus!
