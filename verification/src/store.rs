//! A verified model of the users table and the five operations over it.
//!
//! The table is the sequence of committed rows plus the next id the server
//! will assign. Each operation's contract states exactly which rows exist
//! afterwards and what the caller is handed back, so the request handlers can
//! be held to the behaviour promised here.

use vstd::prelude::*;

use crate::errors::AppError;
use crate::models::NewUser;
use crate::models::UpdateUser;
use crate::models::UpdateUserView;
use crate::models::User;
use crate::models::UserView;

verus! {

/// Mathematical value of a sequence of rows.
pub open spec fn users_view(rows: Seq<User>) -> Seq<UserView> {
    rows.map_values(|u: User| u@)
}

/// True when some row in `rows` carries the id.
pub open spec fn contains_id(rows: Seq<UserView>, id: int) -> bool {
    exists|i: int| 0 <= i < rows.len() && #[trigger] rows[i].id == id
}

/// The row as it stands after a partial update: a supplied field takes the
/// supplied value, an absent field keeps the stored one; the id never changes.
pub open spec fn apply_update(row: UserView, upd: UpdateUserView) -> UserView {
    UserView {
        id: row.id,
        name: match upd.name {
            Option::Some(n) => n,
            Option::None => row.name,
        },
        email: match upd.email {
            Option::Some(e) => e,
            Option::None => row.email,
        },
    }
}

/// Outcome of the partial-update operation.
#[derive(Debug)]
pub enum UpdateOutcome {
    /// The row exists and now carries the supplied fields; holds the row as
    /// re-read after the update.
    Updated(User),
    /// No field was supplied; storage was never touched.
    NoFields,
    /// At least one field was supplied but no row carries the id.
    NotFound,
}

impl UpdateOutcome {
    /// The HTTP status this outcome maps to: success for an updated row, a
    /// client error when nothing was supplied, "not found" for a missing id.
    pub fn status_code(&self) -> (r: u16)
        ensures
            self is Updated ==> r == crate::errors::STATUS_OK,
            self is NoFields ==> r == crate::errors::STATUS_BAD_REQUEST,
            self is NotFound ==> r == crate::errors::STATUS_NOT_FOUND,
    {
        match self {
            UpdateOutcome::Updated(_) => crate::errors::STATUS_OK,
            UpdateOutcome::NoFields => crate::errors::STATUS_BAD_REQUEST,
            UpdateOutcome::NotFound => crate::errors::STATUS_NOT_FOUND,
        }
    }
}

/// The users table: the committed rows and the next id the server assigns.
#[derive(Debug)]
pub struct UserTable {
    pub rows: Vec<User>,
    pub next_id: i32,
}

impl UserTable {
    /// Mathematical value of the committed rows.
    pub open spec fn rows_view(self) -> Seq<UserView> {
        users_view(self.rows@)
    }

    /// Well-formedness: ids are positive, unique, and below the next id to
    /// be assigned.
    pub open spec fn wf(self) -> bool {
        let rows = self.rows_view();
        &&& 1 <= self.next_id
        &&& forall|i: int| 0 <= i < rows.len() ==> 1 <= (#[trigger] rows[i]).id < self.next_id
        &&& forall|i: int, j: int|
            0 <= i < j < rows.len() ==> (#[trigger] rows[i]).id != (#[trigger] rows[j]).id
    }

    /// An empty table; the first assigned id is 1.
    pub fn new() -> (t: UserTable)
        ensures
            t.wf(),
            t.rows_view().len() == 0,
            t.next_id == 1,
    {
        UserTable { rows: Vec::new(), next_id: 1 }
    }

    /// Create: appends one row carrying the supplied name and email under a
    /// freshly assigned id, and returns the row exactly as persisted.
    pub fn create_user(&mut self, new_user: &NewUser) -> (u: User)
        requires
            old(self).wf(),
            old(self).next_id < i32::MAX,
        ensures
            final(self).wf(),
            final(self).next_id == old(self).next_id + 1,
            u@.id == old(self).next_id as int,
            u@.name == new_user@.name,
            u@.email == new_user@.email,
            final(self).rows_view() == old(self).rows_view().push(u@),
    {
        let row = User {
            id: self.next_id,
            name: new_user.name.clone(),
            email: new_user.email.clone(),
        };
        let result = row.duplicate();
        self.rows.push(row);
        self.next_id = self.next_id + 1;
        proof {
            assert(self.rows_view() =~= old(self).rows_view().push(result@));
        }
        result
    }

    /// Read one row: the row carrying the id when it exists, else `NotFound`;
    /// a missing row is never surfaced as a storage error.
    #[verifier::loop_isolation(false)]
    pub fn get_user_by_id(&self, id: i32) -> (r: Result<User, AppError>)
        requires
            self.wf(),
        ensures
            r is Ok <==> contains_id(self.rows_view(), id as int),
            r matches Ok(u) ==> {
                &&& u@.id == id as int
                &&& forall|i: int|
                    0 <= i < self.rows_view().len() && (#[trigger] self.rows_view()[i]).id
                        == id as int ==> self.rows_view()[i] == u@
            },
            r matches Err(e) ==> e is NotFound,
    {
        let n = self.rows.len();
        let mut i: usize = 0;
        while i < n
            invariant
                i <= n,
                forall|k: int| 0 <= k < i ==> (#[trigger] self.rows_view()[k]).id != id as int,
            decreases n - i,
        {
            if self.rows[i].id == id {
                let u = self.rows[i].duplicate();
                proof {
                    assert(self.rows_view()[i as int].id == id as int);
                }
                return Result::Ok(u);
            }
            i = i + 1;
        }
        Result::Err(AppError::NotFound)
    }

    /// List: every committed row, in storage order, each returned row equal
    /// to the row it copies.
    #[verifier::loop_isolation(false)]
    pub fn get_users(&self) -> (r: Vec<User>)
        ensures
            users_view(r@) == self.rows_view(),
    {
        let n = self.rows.len();
        let mut out: Vec<User> = Vec::new();
        let mut i: usize = 0;
        while i < n
            invariant
                i <= n,
                out@.len() == i,
                forall|k: int| 0 <= k < i ==> (#[trigger] out@[k])@ == self.rows_view()[k],
            decreases n - i,
        {
            out.push(self.rows[i].duplicate());
            i = i + 1;
        }
        proof {
            assert(users_view(out@) =~= self.rows_view());
        }
        out
    }

    /// Partial update: with no supplied field the request is rejected before
    /// storage is touched; otherwise the row carrying the id takes the
    /// supplied fields (an absent field keeps its stored value, `name` bound
    /// before `email`) and is returned as re-read, while a missing id leaves
    /// the table unchanged and surfaces as `NotFound`.
    #[verifier::loop_isolation(false)]
    pub fn update_user(&mut self, id: i32, upd: &UpdateUser) -> (r: UpdateOutcome)
        requires
            old(self).wf(),
        ensures
            final(self).wf(),
            final(self).next_id == old(self).next_id,
            match r {
                UpdateOutcome::NoFields => {
                    &&& !upd.spec_has_fields()
                    &&& final(self).rows_view() == old(self).rows_view()
                },
                UpdateOutcome::NotFound => {
                    &&& upd.spec_has_fields()
                    &&& !contains_id(old(self).rows_view(), id as int)
                    &&& final(self).rows_view() == old(self).rows_view()
                },
                UpdateOutcome::Updated(u) => {
                    &&& upd.spec_has_fields()
                    &&& contains_id(old(self).rows_view(), id as int)
                    &&& final(self).rows_view().len() == old(self).rows_view().len()
                    &&& forall|i: int|
                        0 <= i < old(self).rows_view().len()
                            ==> #[trigger] final(self).rows_view()[i] == (
                        if old(self).rows_view()[i].id == id as int {
                                apply_update(old(self).rows_view()[i], upd@)
                            } else {
                                old(self).rows_view()[i]
                            })
                    &&& u@.id == id as int
                    &&& forall|i: int|
                        0 <= i < old(self).rows_view().len()
                            && (#[trigger] old(self).rows_view()[i]).id == id as int
                            ==> u@ == apply_update(old(self).rows_view()[i], upd@)
                },
            },
    {
        if !upd.has_fields() {
            return UpdateOutcome::NoFields;
        }
        let n = self.rows.len();
        let mut i: usize = 0;
        while i < n
            invariant
                i <= n,
                self == old(self),
                forall|k: int| 0 <= k < i ==> (#[trigger] self.rows_view()[k]).id != id as int,
            decreases n - i,
        {
            if self.rows[i].id == id {
                let name = match &upd.name {
                    Option::Some(s) => s.clone(),
                    Option::None => self.rows[i].name.clone(),
                };
                let email = match &upd.email {
                    Option::Some(s) => s.clone(),
                    Option::None => self.rows[i].email.clone(),
                };
                let updated = User { id: self.rows[i].id, name, email };
                let u = updated.duplicate();
                proof {
                    assert(old(self).rows_view()[i as int].id == id as int);
                    assert(u@ == apply_update(old(self).rows_view()[i as int], upd@));
                }
                self.rows[i] = updated;
                proof {
                    assert forall|k: int| 0 <= k < old(self).rows_view().len() implies
                        #[trigger] self.rows_view()[k] == (if old(self).rows_view()[k].id
                            == id as int {
                            apply_update(old(self).rows_view()[k], upd@)
                        } else {
                            old(self).rows_view()[k]
                        }) by {
                        if k != i as int && old(self).rows_view()[k].id == id as int {
                            assert(old(self).rows_view()[k].id
                                != old(self).rows_view()[i as int].id);
                        }
                    }
                }
                return UpdateOutcome::Updated(u);
            }
            i = i + 1;
        }
        UpdateOutcome::NotFound
    }

    /// Delete: removes the row carrying the id, keeping every other row in
    /// order; a missing id is not an error, the table is simply unchanged.
    #[verifier::loop_isolation(false)]
    pub fn delete_user(&mut self, id: i32)
        requires
            old(self).wf(),
        ensures
            final(self).wf(),
            final(self).next_id == old(self).next_id,
            !contains_id(final(self).rows_view(), id as int),
            final(self).rows_view() == old(self).rows_view().filter(
                |u: UserView| u.id != id as int,
            ),
    {
        let ghost pred = (|u: UserView| u.id != id as int);
        let n = self.rows.len();
        let mut i: usize = 0;
        while i < n
            invariant
                i <= n,
                self == old(self),
                forall|k: int| 0 <= k < i ==> (#[trigger] self.rows_view()[k]).id != id as int,
            decreases n - i,
        {
            if self.rows[i].id == id {
                self.rows.remove(i);
                proof {
                    old(self).rows_view().remove_ensures(i as int);
                    assert(self.rows_view() =~= old(self).rows_view().remove(i as int));
                    lemma_filter_removes_one(old(self).rows_view(), pred, i as int);
                    assert forall|k: int|
                        0 <= k < self.rows_view().len() implies (#[trigger] self.rows_view()[k]).id
                        != id as int by {
                        if k >= i as int {
                            assert(self.rows_view()[k] == old(self).rows_view()[k + 1]);
                            assert(old(self).rows_view()[k + 1].id
                                != old(self).rows_view()[i as int].id);
                        }
                    }
                }
                return;
            }
            i = i + 1;
        }
        proof {
            lemma_filter_keeps_all(self.rows_view(), pred);
        }
    }
}

/// A filter whose predicate holds of every element changes nothing.
pub(crate) proof fn lemma_filter_keeps_all(s: Seq<UserView>, pred: spec_fn(UserView) -> bool)
    requires
        forall|k: int| 0 <= k < s.len() ==> pred(#[trigger] s[k]),
    ensures
        s.filter(pred) == s,
    decreases s.len(),
{
    reveal(Seq::filter);
    if s.len() == 0 {
        assert(s.filter(pred) =~= s);
    } else {
        lemma_filter_keeps_all(s.drop_last(), pred);
        assert(pred(s.last()));
        assert(s.filter(pred) =~= s.drop_last().push(s.last()));
        assert(s.drop_last().push(s.last()) =~= s);
    }
}

/// A filter whose predicate fails at exactly one position removes exactly
/// that element.
pub(crate) proof fn lemma_filter_removes_one(s: Seq<UserView>, pred: spec_fn(UserView) -> bool, i: int)
    requires
        0 <= i < s.len(),
        !pred(s[i]),
        forall|k: int| 0 <= k < s.len() && k != i ==> pred(#[trigger] s[k]),
    ensures
        s.filter(pred) == s.remove(i),
    decreases s.len(),
{
    reveal(Seq::filter);
    if i == s.len() - 1 {
        lemma_filter_keeps_all(s.drop_last(), pred);
        assert(s.remove(i) =~= s.drop_last());
    } else {
        lemma_filter_removes_one(s.drop_last(), pred, i);
        assert(pred(s.last()));
        s.remove_ensures(i);
        s.drop_last().remove_ensures(i);
        assert(s.remove(i) =~= s.drop_last().remove(i).push(s.last()));
    }
}

} // verus!
