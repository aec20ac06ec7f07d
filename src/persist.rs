use vstd::prelude::*;
use crate::task::Task;

verus! {

/// What was found where the task list is kept, at start-up.
pub enum StoredTasks {
    /// There is no saved list (or it could not be read).
    Missing,
    /// A saved list is there but its text is not a list of tasks.
    Corrupt,
    /// The saved list, in order.
    Parsed(Vec<Task>),
}

/// The list to start with: the saved one where it could be read and parsed,
/// and an empty list otherwise. A missing or corrupt file is not an error.
pub fn restore(stored: StoredTasks) -> (tasks: Vec<Task>)
    ensures
        match stored {
            StoredTasks::Parsed(saved) => tasks@ == saved@,
            _ => tasks@.len() == 0,
        },
{
    match stored {
        StoredTasks::Parsed(saved) => saved,
        _ => Vec::new(),
    }
}

} // verus!
