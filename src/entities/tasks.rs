use vstd::prelude::*;

verus! {

/// A stored task: `id` is assigned by the store on insert and never changes.
#[derive(Clone, Debug)]
pub struct Model {
    pub id: i32,
    pub title: String,
    pub description: Option<String>,
    pub is_completed: bool,
}

/// Copies an optional text field, keeping its value.
pub fn copy_text(s: &Option<String>) -> (r: Option<String>)
    ensures
        r == *s,
{
    match s {
        Some(t) => Some(t.clone()),
        None => None,
    }
}

impl Model {
    /// A copy of the record, field for field.
    pub fn duplicate(&self) -> (r: Model)
        ensures
            r == *self,
    {
        Model {
            id: self.id,
            title: self.title.clone(),
            description: copy_text(&self.description),
            is_completed: self.is_completed,
        }
    }
}

} // verus!
