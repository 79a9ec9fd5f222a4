//! The user data model: the persisted row and the two request shapes.

use vstd::prelude::*;

verus! {

/// A persisted user row: a server-assigned id plus a name and an email.
#[derive(Debug)]
pub struct User {
    pub id: i32,
    pub name: String,
    pub email: String,
}

/// Mathematical value of a [`User`].
pub struct UserView {
    pub id: int,
    pub name: Seq<char>,
    pub email: Seq<char>,
}

impl View for User {
    type V = UserView;

    open spec fn view(&self) -> UserView {
        UserView { id: self.id as int, name: self.name@, email: self.email@ }
    }
}

impl User {
    /// An explicit copy with the same mathematical value.
    pub fn duplicate(&self) -> (r: User)
        ensures
            r@ == self@,
    {
        User { id: self.id, name: self.name.clone(), email: self.email.clone() }
    }
}

/// Input for the create operation: both fields are required.
#[derive(Debug)]
pub struct NewUser {
    pub name: String,
    pub email: String,
}

/// Mathematical value of a [`NewUser`].
pub struct NewUserView {
    pub name: Seq<char>,
    pub email: Seq<char>,
}

impl View for NewUser {
    type V = NewUserView;

    open spec fn view(&self) -> NewUserView {
        NewUserView { name: self.name@, email: self.email@ }
    }
}

/// Input for the partial-update operation: each field is optional, and an
/// absent field leaves the stored value unchanged.
#[derive(Debug)]
pub struct UpdateUser {
    pub name: Option<String>,
    pub email: Option<String>,
}

/// Mathematical value of an [`UpdateUser`].
pub struct UpdateUserView {
    pub name: Option<Seq<char>>,
    pub email: Option<Seq<char>>,
}

impl View for UpdateUser {
    type V = UpdateUserView;

    open spec fn view(&self) -> UpdateUserView {
        UpdateUserView {
            name: match self.name {
                Option::Some(s) => Option::Some(s@),
                Option::None => Option::None,
            },
            email: match self.email {
                Option::Some(s) => Option::Some(s@),
                Option::None => Option::None,
            },
        }
    }
}

impl UpdateUser {
    /// True when at least one field was supplied, the condition under which
    /// the partial update is allowed to touch storage.
    pub open spec fn spec_has_fields(&self) -> bool {
        self@.name is Some || self@.email is Some
    }

    /// Checks whether at least one field was supplied.
    pub fn has_fields(&self) -> (r: bool)
        ensures
            r == self.spec_has_fields(),
    {
        self.name.is_some() || self.email.is_some()
    }
}

} // verus!
