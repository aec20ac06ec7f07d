use vstd::prelude::*;

verus! {

/// One entry of the task list. Its position in the list is its only identity.
#[derive(Clone, Debug, PartialEq, Eq)]
pub struct Task {
    pub description: String,
    pub completed: bool,
}

impl View for Task {
    type V = (Seq<char>, bool);

    /// A task is its description's characters and its completion flag.
    open spec fn view(&self) -> (Seq<char>, bool) {
        (self.description@, self.completed)
    }
}

impl Task {
    /// A new task is pending.
    pub fn new(description: String) -> (t: Task)
        ensures
            t.description == description,
            t@ == (description@, false),
    {
        Task { description, completed: false }
    }
}

} // verus!
