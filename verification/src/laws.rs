//! Laws relating the table operations to one another, stated over the same
//! views the operations' contracts use and proved once for all inputs.

use vstd::prelude::*;

use crate::models::UpdateUserView;
use crate::models::User;
use crate::models::UserView;
use crate::store::UserTable;
use crate::store::apply_update;
use crate::store::contains_id;
use crate::store::lemma_filter_keeps_all;

verus! {

/// Law: a row just created is fetchable by the id create returned, and every
/// row carrying that id is the created row itself, so a fetch yields exactly
/// the name and email that were supplied.
pub proof fn lemma_create_then_fetch(pre: UserTable, post: UserTable, u: User)
    requires
        pre.wf(),
        u@.id == pre.next_id as int,
        post.rows_view() == pre.rows_view().push(u@),
    ensures
        contains_id(post.rows_view(), u@.id),
        forall|i: int|
            0 <= i < post.rows_view().len() && (#[trigger] post.rows_view()[i]).id == u@.id
                ==> post.rows_view()[i] == u@,
{
    let rows = post.rows_view();
    assert(rows[rows.len() - 1] == u@);
    assert(contains_id(rows, u@.id));
    assert forall|i: int| 0 <= i < rows.len() && (#[trigger] rows[i]).id == u@.id implies rows[i]
        == u@ by {
        if i < rows.len() - 1 {
            assert(rows[i] == pre.rows_view()[i]);
            assert(pre.rows_view()[i].id < pre.next_id);
        }
    }
}

/// Law: creating a row grows the table by exactly one and keeps every row
/// already there, so every previously fetchable id stays fetchable with an
/// unchanged row.
pub proof fn lemma_create_preserves_existing(pre: UserTable, post: UserTable, u: User, id: int)
    requires
        post.rows_view() == pre.rows_view().push(u@),
    ensures
        post.rows_view().len() == pre.rows_view().len() + 1,
        contains_id(pre.rows_view(), id) ==> contains_id(post.rows_view(), id),
        forall|i: int|
            0 <= i < pre.rows_view().len() ==> #[trigger] post.rows_view()[i]
                == pre.rows_view()[i],
{
    assert forall|i: int| 0 <= i < pre.rows_view().len() implies #[trigger] post.rows_view()[i]
        == pre.rows_view()[i] by {
        assert(post.rows_view()[i] == pre.rows_view().push(u@)[i]);
    }
    if contains_id(pre.rows_view(), id) {
        let i = choose|i: int|
            0 <= i < pre.rows_view().len() && #[trigger] pre.rows_view()[i].id == id;
        assert(post.rows_view()[i].id == id);
    }
}

/// Law: a partial update that supplies only the name changes the name and
/// leaves the email and the id exactly as they were.
pub proof fn lemma_update_name_only(row: UserView, upd: UpdateUserView)
    requires
        upd.name is Some,
        upd.email is None,
    ensures
        apply_update(row, upd).name == upd.name.unwrap(),
        apply_update(row, upd).email == row.email,
        apply_update(row, upd).id == row.id,
{
}

/// Law: deleting an id no row carries leaves the table exactly as it was, so
/// delete is idempotent: a second delete of the same id changes nothing.
pub proof fn lemma_delete_missing_id(rows: Seq<UserView>, id: int)
    requires
        !contains_id(rows, id),
    ensures
        rows.filter((|u: UserView| u.id != id)) == rows,
{
    assert forall|k: int| 0 <= k < rows.len() implies (|u: UserView| u.id != id)(
        #[trigger] rows[k],
    ) by {
        assert(rows[k].id != id);
    }
    lemma_filter_keeps_all(rows, (|u: UserView| u.id != id));
}

} // verus!
