use vstd::prelude::*;

use crate::entities::tasks::Model;
use crate::error::{Problem, StoreError};
use crate::gateway::tasks::{consistent, lookup, lists_all, new_task, replaced_task, TaskTable};
use crate::response::{
    created, found, rejected, removed, reply, respond_created, respond_found, respond_listed,
    respond_rejected, respond_removed, Body, Response, CREATED, NOT_FOUND, NO_CONTENT, OK,
};

verus! {

/// The body of a create or replace request for a task.
#[derive(Clone, Debug)]
pub struct NewTask {
    pub title: String,
    pub description: Option<String>,
}

/// Whether a task body passes validation: its title is not empty.
pub open spec fn valid_task(t: NewTask) -> bool {
    t.title@.len() > 0
}

impl NewTask {
    /// Rejects a body whose title is empty.
    pub fn validate(&self) -> (r: Result<(), Problem>)
        ensures
            valid_task(*self) ==> r == Ok::<(), Problem>(()),
            !valid_task(*self) ==> r == Err::<(), Problem>(Problem::EmptyTitle),
    {
        if self.title.as_str().unicode_len() == 0 {
            Err(Problem::EmptyTitle)
        } else {
            Ok(())
        }
    }
}

/// What the gateway's insert gives when the next identifier is `next`.
pub open spec fn insert_outcome(next: int, t: NewTask) -> Result<Model, StoreError> {
    if next <= i32::MAX {
        Ok(new_task(next, t.title, t.description))
    } else {
        Err(StoreError::IdsExhausted)
    }
}

/// Whether a create request stores a row.
pub open spec fn create_stores(next: int, t: NewTask) -> bool {
    valid_task(t) && next <= i32::MAX
}

pub open spec fn create_reply(next: int, t: NewTask) -> Response<Model> {
    if valid_task(t) {
        created(insert_outcome(next, t))
    } else {
        rejected(Problem::EmptyTitle)
    }
}

pub open spec fn create_rows(rows: Map<int, Model>, next: int, t: NewTask) -> Map<int, Model> {
    if create_stores(next, t) {
        rows.insert(next, new_task(next, t.title, t.description))
    } else {
        rows
    }
}

pub open spec fn create_next(next: int, t: NewTask) -> int {
    if create_stores(next, t) {
        next + 1
    } else {
        next
    }
}

pub open spec fn get_reply(rows: Map<int, Model>, id: int) -> Response<Model> {
    found(Ok(lookup(rows, id)))
}

/// What the gateway's replace gives.
pub open spec fn replace_outcome(rows: Map<int, Model>, id: int, t: NewTask) -> Option<Model> {
    if rows.contains_key(id) {
        Some(replaced_task(rows[id], t.title, t.description))
    } else {
        None
    }
}

pub open spec fn update_reply(rows: Map<int, Model>, id: int, t: NewTask) -> Response<Model> {
    if valid_task(t) {
        found(Ok(replace_outcome(rows, id, t)))
    } else {
        rejected(Problem::EmptyTitle)
    }
}

pub open spec fn update_rows(rows: Map<int, Model>, id: int, t: NewTask) -> Map<int, Model> {
    if valid_task(t) && rows.contains_key(id) {
        rows.insert(id, replaced_task(rows[id], t.title, t.description))
    } else {
        rows
    }
}

pub open spec fn delete_reply(rows: Map<int, Model>, id: int) -> Response<Model> {
    removed(Ok(rows.contains_key(id)))
}

pub open spec fn delete_rows(rows: Map<int, Model>, id: int) -> Map<int, Model> {
    rows.remove(id)
}

/// Lists every task: 200 with all stored records, in no promised order.
pub fn get_tasks(db: &TaskTable) -> (r: Response<Model>)
    requires
        db.wf(),
    ensures
        r.status == OK,
        r.body matches Body::Records(v) && lists_all(db.rows(), v@),
{
    let v = db.list();
    respond_listed(Ok(v))
}

/// Looks a task up: 200 with the record, or 404.
pub fn get_task_by_id(db: &TaskTable, id: i32) -> (r: Response<Model>)
    requires
        db.wf(),
    ensures
        r == get_reply(db.rows(), id as int),
{
    let m = db.find(id);
    respond_found(Ok(m))
}

/// Creates a task: 201 with the stored record, 400 for an empty title, or
/// 500 where the store has no identifier left.
pub fn create_task(db: &mut TaskTable, new_task: NewTask) -> (r: Response<Model>)
    requires
        old(db).wf(),
    ensures
        final(db).wf(),
        r == create_reply(old(db).next_id(), new_task),
        final(db).rows() == create_rows(old(db).rows(), old(db).next_id(), new_task),
        final(db).next_id() == create_next(old(db).next_id(), new_task),
{
    match new_task.validate() {
        Err(p) => respond_rejected(p),
        Ok(()) => {
            let o = db.insert(new_task.title, new_task.description);
            respond_created(o)
        },
    }
}

/// Replaces the title and description of a task: 200 with the updated
/// record, 404 where there is none, or 400 for an empty title.
pub fn update_task(db: &mut TaskTable, id: i32, updated_task: NewTask) -> (r: Response<Model>)
    requires
        old(db).wf(),
    ensures
        final(db).wf(),
        r == update_reply(old(db).rows(), id as int, updated_task),
        final(db).rows() == update_rows(old(db).rows(), id as int, updated_task),
        final(db).next_id() == old(db).next_id(),
{
    match updated_task.validate() {
        Err(p) => respond_rejected(p),
        Ok(()) => {
            let o = db.replace(id, updated_task.title, updated_task.description);
            respond_found(Ok(o))
        },
    }
}

/// Deletes a task: 204 where it was stored, else 404.
pub fn delete_task(db: &mut TaskTable, id: i32) -> (r: Response<Model>)
    requires
        old(db).wf(),
    ensures
        final(db).wf(),
        r == delete_reply(old(db).rows(), id as int),
        final(db).rows() == delete_rows(old(db).rows(), id as int),
        final(db).next_id() == old(db).next_id(),
{
    let o = db.remove(id);
    respond_removed(Ok(o))
}

/// A create that succeeds answers 201 with a positive identifier, the
/// submitted title and description, and a task that is not completed.
pub proof fn create_returns_submitted_fields(rows: Map<int, Model>, next: int, t: NewTask)
    requires
        consistent(rows, next),
        create_stores(next, t),
    ensures
        create_reply(next, t) == reply(
            CREATED,
            Body::Record(Model { id: next as i32, title: t.title, description: t.description, is_completed: false }),
        ),
        next as i32 >= 1,
{
}

/// Creating a task and then getting it by the identifier it was given
/// returns the very record that the create answered with.
pub proof fn create_then_get(rows: Map<int, Model>, next: int, t: NewTask, m: Model)
    requires
        consistent(rows, next),
        create_reply(next, t) == reply(CREATED, Body::Record(m)),
    ensures
        get_reply(create_rows(rows, next, t), m.id as int) == reply(OK, Body::Record(m)),
{
}

/// Replacing an existing task answers 200 with exactly the new values, and
/// replaying the same replace leaves the same rows and the same answer.
pub proof fn replace_is_idempotent(rows: Map<int, Model>, next: int, id: int, t: NewTask)
    requires
        consistent(rows, next),
        rows.contains_key(id),
        valid_task(t),
    ensures
        update_reply(rows, id, t) == reply(
            OK,
            Body::Record(Model { id: id as i32, title: t.title, description: t.description, is_completed: rows[id].is_completed }),
        ),
        update_rows(update_rows(rows, id, t), id, t) == update_rows(rows, id, t),
        update_reply(update_rows(rows, id, t), id, t) == update_reply(rows, id, t),
{
    let once = update_rows(rows, id, t);
    assert(once.insert(id, replaced_task(once[id], t.title, t.description)) =~= once);
}

/// Replacing or deleting a task that does not exist answers 404 (or 400 for
/// a rejected body) and creates no row.
pub proof fn missing_task_stays_missing(rows: Map<int, Model>, id: int, t: NewTask)
    requires
        !rows.contains_key(id),
    ensures
        valid_task(t) ==> update_reply(rows, id, t) == reply(NOT_FOUND, Body::<Model>::NotFound),
        update_rows(rows, id, t) == rows,
        delete_reply(rows, id) == reply(NOT_FOUND, Body::<Model>::NotFound),
        delete_rows(rows, id) == rows,
{
    assert(rows.remove(id) =~= rows);
}

/// Deleting an existing task answers 204; afterwards a get and a second
/// delete of the same identifier both answer 404.
pub proof fn delete_at_most_once(rows: Map<int, Model>, id: int)
    requires
        rows.contains_key(id),
    ensures
        delete_reply(rows, id) == reply(NO_CONTENT, Body::<Model>::Empty),
        get_reply(delete_rows(rows, id), id) == reply(NOT_FOUND, Body::<Model>::NotFound),
        delete_reply(delete_rows(rows, id), id) == reply(NOT_FOUND, Body::<Model>::NotFound),
{
}

/// Two creates in a row give two distinct identifiers, neither of which was
/// stored before, and the rows stay consistent.
pub proof fn creates_get_distinct_ids(
    rows: Map<int, Model>,
    next: int,
    t1: NewTask,
    t2: NewTask,
    m1: Model,
    m2: Model,
)
    requires
        consistent(rows, next),
        create_reply(next, t1) == reply(CREATED, Body::Record(m1)),
        create_reply(create_next(next, t1), t2) == reply(CREATED, Body::Record(m2)),
    ensures
        m1.id != m2.id,
        !rows.contains_key(m1.id as int),
        !create_rows(rows, next, t1).contains_key(m2.id as int),
        consistent(create_rows(rows, next, t1), create_next(next, t1)),
        consistent(
            create_rows(create_rows(rows, next, t1), create_next(next, t1), t2),
            create_next(create_next(next, t1), t2),
        ),
{
}

} // verus!
