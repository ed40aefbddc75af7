use vstd::prelude::*;

verus! {

/// A failure of the store itself, as opposed to a record that is absent.
#[derive(Clone, Debug)]
pub enum StoreError {
    /// Every identifier a store can hand out has been used.
    IdsExhausted,
    /// The backing database reported a failure, with its message.
    Backend(String),
}

/// What is wrong with a request body.
#[derive(Clone, Copy, Debug, PartialEq, Eq)]
pub enum Problem {
    /// The body could not be decoded into the entity's input shape.
    Malformed,
    /// A task's title is empty.
    EmptyTitle,
}

} // verus!
