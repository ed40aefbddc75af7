use vstd::prelude::*;

use crate::entities::users::Model;
use crate::error::StoreError;

verus! {

/// What a store's rows may be: every key is an identifier already handed
/// out, below `next`, and names the record stored under it.
pub open spec fn consistent(rows: Map<int, Model>, next: int) -> bool {
    &&& 1 <= next <= i32::MAX + 1
    &&& forall|k: int| #[trigger] rows.contains_key(k) ==> 1 <= k < next && rows[k].id == k
}

/// The record stored under `id`, if any.
pub open spec fn lookup(rows: Map<int, Model>, id: int) -> Option<Model> {
    if rows.contains_key(id) {
        Some(rows[id])
    } else {
        None
    }
}

/// `v` holds every record of `rows` once, ordered by identifier.
pub open spec fn lists_all(rows: Map<int, Model>, v: Seq<Model>) -> bool {
    &&& forall|i: int|
        0 <= i < v.len() ==> rows.contains_key(#[trigger] v[i].id as int) && rows[v[i].id as int]
            == v[i]
    &&& forall|k: int| #[trigger] rows.contains_key(k) ==> exists|i: int| 0 <= i < v.len() && v[i].id == k
    &&& forall|i: int, j: int| 0 <= i < j < v.len() ==> v[i].id < v[j].id
}

/// The record that an insert with identifier `id` stores.
pub open spec fn new_user(id: int, name: String, email: String) -> Model {
    Model { id: id as i32, name, email }
}

/// The user table. Slot `i` holds the user with identifier `i + 1`, or
/// nothing once that user is deleted.
pub struct UserTable {
    slots: Vec<Option<Model>>,
}

impl UserTable {
    /// The stored users by identifier.
    pub closed spec fn rows(&self) -> Map<int, Model> {
        Map::new(
            |k: int| 1 <= k <= self.slots@.len() && self.slots@[k - 1] is Some,
            |k: int| self.slots@[k - 1]->0,
        )
    }

    /// The identifier that the next insert hands out.
    pub closed spec fn next_id(&self) -> int {
        self.slots@.len() + 1int
    }

    pub closed spec fn wf(&self) -> bool {
        &&& self.slots@.len() <= i32::MAX
        &&& forall|i: int|
            0 <= i < self.slots@.len() && #[trigger] self.slots@[i] is Some ==> self.slots@[i]->0.id
                == i + 1
    }

    pub proof fn lemma_consistent(&self)
        requires
            self.wf(),
        ensures
            consistent(self.rows(), self.next_id()),
    {
        assert forall|k: int| #[trigger] self.rows().contains_key(k) implies 1 <= k < self.next_id()
            && self.rows()[k].id == k by {
            assert(self.slots@[k - 1] is Some);
        }
    }

    /// An empty table.
    pub fn new() -> (r: UserTable)
        ensures
            r.wf(),
            r.rows() == Map::<int, Model>::empty(),
            r.next_id() == 1,
    {
        let r = UserTable { slots: Vec::new() };
        assert(r.rows() =~= Map::<int, Model>::empty());
        r
    }

    /// All stored users, each once, in no promised order.
    pub fn list(&self) -> (r: Vec<Model>)
        requires
            self.wf(),
        ensures
            lists_all(self.rows(), r@),
    {
        let mut r: Vec<Model> = Vec::new();
        let mut i: usize = 0;
        while i < self.slots.len()
            invariant
                self.wf(),
                i <= self.slots@.len(),
                forall|j: int|
                    0 <= j < r@.len() ==> self.rows().contains_key(#[trigger] r@[j].id as int)
                        && self.rows()[r@[j].id as int] == r@[j] && r@[j].id <= i,
                forall|k: int|
                    #[trigger] self.rows().contains_key(k) && k <= i ==> exists|j: int|
                        0 <= j < r@.len() && r@[j].id == k,
                forall|a: int, b: int| 0 <= a < b < r@.len() ==> r@[a].id < r@[b].id,
            decreases self.slots@.len() - i,
        {
            let ghost prev = r@;
            match &self.slots[i] {
                Some(m) => {
                    assert(self.rows().contains_key(i + 1));
                    r.push(m.duplicate());
                },
                None => {},
            }
            proof {
                assert forall|k: int|
                    #[trigger] self.rows().contains_key(k) && k <= i + 1 implies exists|j: int|
                        0 <= j < r@.len() && r@[j].id == k by {
                    if k <= i {
                        let j = choose|j: int| 0 <= j < prev.len() && prev[j].id == k;
                        assert(r@[j] == prev[j]);
                    } else {
                        assert(r@[r@.len() - 1].id == k);
                    }
                }
            }
            i = i + 1;
        }
        r
    }

    /// The user with identifier `id`, if stored.
    pub fn find(&self, id: i32) -> (r: Option<Model>)
        requires
            self.wf(),
        ensures
            r == lookup(self.rows(), id as int),
    {
        if id < 1 || id as usize > self.slots.len() {
            return None;
        }
        match &self.slots[(id - 1) as usize] {
            Some(m) => Some(m.duplicate()),
            None => None,
        }
    }

    /// Stores a new user under the next identifier, not completed.
    pub fn insert(&mut self, name: String, email: String) -> (r: Result<
        Model,
        StoreError,
    >)
        requires
            old(self).wf(),
        ensures
            final(self).wf(),
            old(self).next_id() <= i32::MAX ==> r == Ok::<Model, StoreError>(
                new_user(old(self).next_id(), name, email),
            ) && final(self).rows() == old(self).rows().insert(
                old(self).next_id(),
                new_user(old(self).next_id(), name, email),
            ) && final(self).next_id() == old(self).next_id() + 1,
            old(self).next_id() > i32::MAX ==> r == Err::<Model, StoreError>(
                StoreError::IdsExhausted,
            ) && final(self).rows() == old(self).rows() && final(self).next_id()
                == old(self).next_id(),
    {
        if self.slots.len() >= i32::MAX as usize {
            return Err(StoreError::IdsExhausted);
        }
        let id: i32 = (self.slots.len() + 1) as i32;
        let m = Model { id, name, email };
        let stored = m.duplicate();
        self.slots.push(Some(stored));
        assert(final(self).rows() =~= old(self).rows().insert(id as int, m));
        Ok(m)
    }

    /// Overwrites the name and email of the user with identifier `id`;
    /// `None`, and no change, where there is none.
    pub fn replace(&mut self, id: i32, name: String, email: String) -> (r: Option<
        Model,
    >)
        requires
            old(self).wf(),
        ensures
            final(self).wf(),
            final(self).next_id() == old(self).next_id(),
            old(self).rows().contains_key(id as int) ==> r == Some(
                new_user(id as int, name, email),
            ) && final(self).rows() == old(self).rows().insert(
                id as int,
                new_user(id as int, name, email),
            ),
            !old(self).rows().contains_key(id as int) ==> r == None::<Model> && final(self).rows()
                == old(self).rows(),
    {
        if id < 1 || id as usize > self.slots.len() {
            return None;
        }
        let idx: usize = (id - 1) as usize;
        match &self.slots[idx] {
            Some(m) => {
                let n = Model { id: m.id, name, email };
                let stored = n.duplicate();
                self.slots.set(idx, Some(stored));
                assert(final(self).rows() =~= old(self).rows().insert(id as int, n));
                Some(n)
            },
            None => None,
        }
    }

    /// Deletes the user with identifier `id`; says whether one was there.
    pub fn remove(&mut self, id: i32) -> (r: bool)
        requires
            old(self).wf(),
        ensures
            final(self).wf(),
            final(self).next_id() == old(self).next_id(),
            r == old(self).rows().contains_key(id as int),
            final(self).rows() == old(self).rows().remove(id as int),
    {
        if id < 1 || id as usize > self.slots.len() {
            assert(final(self).rows() =~= old(self).rows().remove(id as int));
            return false;
        }
        let idx: usize = (id - 1) as usize;
        let was = self.slots[idx].is_some();
        self.slots.set(idx, None);
        assert(final(self).rows() =~= old(self).rows().remove(id as int));
        was
    }
}

} // verus!
