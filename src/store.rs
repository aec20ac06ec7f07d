use vstd::prelude::*;
use crate::task::Task;

verus! {

/// What a list of tasks is: the description and completion flag of each, in order.
pub open spec fn store_view(tasks: Seq<Task>) -> Seq<(Seq<char>, bool)> {
    tasks.map_values(|t: Task| t@)
}

/// A 1-based task number names a task of a store of `len` tasks.
pub open spec fn names_task(len: nat, index: int) -> bool {
    1 <= index <= len
}

/// The store after a new pending task with `description` is appended.
pub open spec fn added(s: Seq<(Seq<char>, bool)>, description: Seq<char>) -> Seq<(Seq<char>, bool)> {
    s.push((description, false))
}

/// The store after the task numbered `index` (1-based) is marked completed.
pub open spec fn completed_at(s: Seq<(Seq<char>, bool)>, index: int) -> Seq<(Seq<char>, bool)> {
    s.update(index - 1, (s[index - 1].0, true))
}

/// The store after the task numbered `index` (1-based) is removed; later tasks move up by one.
pub open spec fn deleted_at(s: Seq<(Seq<char>, bool)>, index: int) -> Seq<(Seq<char>, bool)> {
    s.remove(index - 1)
}

/// The label shown for a task's completion flag.
pub open spec fn status_label(completed: bool) -> Seq<char> {
    if completed {
        "completed"@
    } else {
        "pending"@
    }
}

/// The listing of a store: for each task in order, its 1-based position,
/// description and status label.
pub open spec fn listing(s: Seq<(Seq<char>, bool)>) -> Seq<(nat, Seq<char>, Seq<char>)> {
    Seq::new(s.len(), |i: int| ((i + 1) as nat, s[i].0, status_label(s[i].1)))
}

/// A task number that names no task of the store.
#[derive(Clone, Copy, Debug, PartialEq, Eq)]
pub struct InvalidTaskNumber;

/// One line of the listing: the task's 1-based position, its description and its status label.
#[derive(Clone, Debug, PartialEq, Eq)]
pub struct ViewEntry {
    pub position: usize,
    pub description: String,
    pub status: String,
}

impl View for ViewEntry {
    type V = (nat, Seq<char>, Seq<char>);

    open spec fn view(&self) -> (nat, Seq<char>, Seq<char>) {
        (self.position as nat, self.description@, self.status@)
    }
}

/// Appends a new pending task with the given description; any description is accepted.
pub fn add_task(tasks: &mut Vec<Task>, description: String)
    ensures
        store_view(final(tasks)@) == added(store_view(old(tasks)@), description@),
        final(tasks)@.len() == old(tasks)@.len() + 1,
{
    let ghost d = description@;
    let task = Task::new(description);
    tasks.push(task);
    assert(store_view(tasks@) =~= added(store_view(old(tasks)@), d));
}

/// Lists every task with its 1-based position and status label, in store order.
/// Reads the store only, so it may be called any number of times.
pub fn view_tasks(tasks: &Vec<Task>) -> (entries: Vec<ViewEntry>)
    ensures
        entries@.len() == tasks@.len(),
        forall|i: int| 0 <= i < entries@.len() ==> entries@[i]@ == listing(store_view(tasks@))[i],
{
    let mut entries: Vec<ViewEntry> = Vec::new();
    let mut i: usize = 0;
    while i < tasks.len()
        invariant
            i <= tasks@.len(),
            entries@.len() == i,
            forall|j: int| 0 <= j < i ==> entries@[j]@ == listing(store_view(tasks@))[j],
        decreases tasks@.len() - i,
    {
        let task = &tasks[i];
        let status = if task.completed {
            String::from_str("completed")
        } else {
            String::from_str("pending")
        };
        entries.push(ViewEntry { position: i + 1, description: task.description.clone(), status });
        i = i + 1;
    }
    entries
}

/// Marks the task numbered `index` (1-based) completed. A number that names no
/// task is refused and the store is left as it was. Completing a completed
/// task changes nothing.
pub fn complete_task(tasks: &mut Vec<Task>, index: usize) -> (r: Result<(), InvalidTaskNumber>)
    ensures
        r is Ok <==> names_task(old(tasks)@.len(), index as int),
        r is Ok ==> store_view(final(tasks)@) == completed_at(store_view(old(tasks)@), index as int),
        final(tasks)@.len() == old(tasks)@.len(),
        r is Err ==> final(tasks)@ == old(tasks)@,
{
    if index == 0 || index > tasks.len() {
        return Err(InvalidTaskNumber);
    }
    tasks[index - 1].completed = true;
    assert(store_view(tasks@) =~= completed_at(store_view(old(tasks)@), index as int));
    Ok(())
}

/// Removes the task numbered `index` (1-based); every later task moves up one
/// position. A number that names no task is refused and the store is left as it was.
pub fn delete_task(tasks: &mut Vec<Task>, index: usize) -> (r: Result<(), InvalidTaskNumber>)
    ensures
        r is Ok <==> names_task(old(tasks)@.len(), index as int),
        r is Ok ==> store_view(final(tasks)@) == deleted_at(store_view(old(tasks)@), index as int),
        r is Ok ==> final(tasks)@.len() == old(tasks)@.len() - 1,
        r is Err ==> final(tasks)@ == old(tasks)@,
{
    if index == 0 || index > tasks.len() {
        return Err(InvalidTaskNumber);
    }
    tasks.remove(index - 1);
    assert(store_view(tasks@) =~= deleted_at(store_view(old(tasks)@), index as int));
    Ok(())
}

/// The character of a decimal digit.
pub open spec fn digit_char(d: nat) -> char {
    if d == 0 {
        '0'
    } else if d == 1 {
        '1'
    } else if d == 2 {
        '2'
    } else if d == 3 {
        '3'
    } else if d == 4 {
        '4'
    } else if d == 5 {
        '5'
    } else if d == 6 {
        '6'
    } else if d == 7 {
        '7'
    } else if d == 8 {
        '8'
    } else {
        '9'
    }
}

/// A number written in decimal, without leading zeros.
pub open spec fn decimal(n: nat) -> Seq<char>
    decreases n,
{
    if n < 10 {
        seq![digit_char(n)]
    } else {
        decimal(n / 10).push(digit_char(n % 10))
    }
}

/// The text of one listing line: `<position>. <description> [<status>]`.
pub open spec fn line_text(entry: (nat, Seq<char>, Seq<char>)) -> Seq<char> {
    decimal(entry.0) + ". "@ + entry.1 + " ["@ + entry.2 + "]"@
}

/// Relies on `usize`'s `ToString` (through `Display`): a number is written in
/// decimal, with no sign, padding or leading zeros.
#[verifier::external_body]
fn decimal_text(n: usize) -> (r: String)
    ensures
        r@ == decimal(n as nat),
{
    n.to_string()
}

/// The text of one listing line, such as `1. buy milk [pending]`.
pub fn render_entry(entry: &ViewEntry) -> (r: String)
    ensures
        r@ == line_text(entry@),
{
    let mut line = decimal_text(entry.position);
    line.append(". ");
    line.append(entry.description.as_str());
    line.append(" [");
    line.append(entry.status.as_str());
    line.append("]");
    line
}

} // verus!
