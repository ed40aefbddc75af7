use vstd::prelude::*;

verus! {

/// A stored user: `id` is assigned by the store on insert and never changes.
/// No uniqueness or format rule applies to `email`.
#[derive(Clone, Debug)]
pub struct Model {
    pub id: i32,
    pub name: String,
    pub email: String,
}

impl Model {
    /// A copy of the record, field for field.
    pub fn duplicate(&self) -> (r: Model)
        ensures
            r == *self,
    {
        Model { id: self.id, name: self.name.clone(), email: self.email.clone() }
    }
}

} // verus!
