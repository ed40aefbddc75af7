use vstd::prelude::*;

use crate::entities::users::Model;
use crate::error::StoreError;
use crate::gateway::users::{lookup, lists_all, new_user, UserTable};
use crate::response::{
    created, found, removed, respond_created, respond_found, respond_listed, respond_removed,
    Body, Response, OK,
};

verus! {

/// The body of a create or replace request for a user. Both fields are
/// required; any text is accepted.
#[derive(Clone, Debug)]
pub struct NewUser {
    pub name: String,
    pub email: String,
}

/// What the gateway's insert gives when the next identifier is `next`.
pub open spec fn insert_outcome(next: int, u: NewUser) -> Result<Model, StoreError> {
    if next <= i32::MAX {
        Ok(new_user(next, u.name, u.email))
    } else {
        Err(StoreError::IdsExhausted)
    }
}

pub open spec fn create_rows(rows: Map<int, Model>, next: int, u: NewUser) -> Map<int, Model> {
    if next <= i32::MAX {
        rows.insert(next, new_user(next, u.name, u.email))
    } else {
        rows
    }
}

/// What the gateway's replace gives.
pub open spec fn replace_outcome(rows: Map<int, Model>, id: int, u: NewUser) -> Option<Model> {
    if rows.contains_key(id) {
        Some(new_user(id, u.name, u.email))
    } else {
        None
    }
}

pub open spec fn update_rows(rows: Map<int, Model>, id: int, u: NewUser) -> Map<int, Model> {
    if rows.contains_key(id) {
        rows.insert(id, new_user(id, u.name, u.email))
    } else {
        rows
    }
}

/// Creates a user: 201 with the stored record, or 500 where the store has
/// no identifier left.
pub fn create_user(db: &mut UserTable, new_user: NewUser) -> (r: Response<Model>)
    requires
        old(db).wf(),
    ensures
        final(db).wf(),
        r == created(insert_outcome(old(db).next_id(), new_user)),
        final(db).rows() == create_rows(old(db).rows(), old(db).next_id(), new_user),
        final(db).next_id() == if old(db).next_id() <= i32::MAX {
            old(db).next_id() + 1
        } else {
            old(db).next_id()
        },
{
    let o = db.insert(new_user.name, new_user.email);
    respond_created(o)
}

/// Lists every user: 200 with all stored records, in no promised order.
pub fn get_users(db: &UserTable) -> (r: Response<Model>)
    requires
        db.wf(),
    ensures
        r.status == OK,
        r.body matches Body::Records(v) && lists_all(db.rows(), v@),
{
    let v = db.list();
    respond_listed(Ok(v))
}

/// Looks a user up: 200 with the record, or 404.
pub fn get_user_by_id(db: &UserTable, user_id: i32) -> (r: Response<Model>)
    requires
        db.wf(),
    ensures
        r == found(Ok(lookup(db.rows(), user_id as int))),
{
    let m = db.find(user_id);
    respond_found(Ok(m))
}

/// Replaces the name and email of a user: 200 with the updated record, or
/// 404 where there is none.
pub fn update_user(db: &mut UserTable, user_id: i32, updated_user: NewUser) -> (r: Response<
    Model,
>)
    requires
        old(db).wf(),
    ensures
        final(db).wf(),
        r == found(Ok(replace_outcome(old(db).rows(), user_id as int, updated_user))),
        final(db).rows() == update_rows(old(db).rows(), user_id as int, updated_user),
        final(db).next_id() == old(db).next_id(),
{
    let o = db.replace(user_id, updated_user.name, updated_user.email);
    respond_found(Ok(o))
}

/// Deletes a user: 204 where it was stored, else 404.
pub fn delete_user(db: &mut UserTable, user_id: i32) -> (r: Response<Model>)
    requires
        old(db).wf(),
    ensures
        final(db).wf(),
        r == removed::<Model>(Ok(old(db).rows().contains_key(user_id as int))),
        final(db).rows() == old(db).rows().remove(user_id as int),
        final(db).next_id() == old(db).next_id(),
{
    let o = db.remove(user_id);
    respond_removed(Ok(o))
}

} // verus!
