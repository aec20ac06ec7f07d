use vstd::prelude::*;
use crate::store::{added, completed_at, deleted_at, listing, names_task, status_label};

verus! {

/// After a task with description `d` is added, the last line of the listing
/// shows `d` as pending, at the position one past the old length.
pub proof fn lemma_add_then_view(s: Seq<(Seq<char>, bool)>, d: Seq<char>)
    ensures
        listing(added(s, d)).len() == s.len() + 1,
        listing(added(s, d)).last() == ((s.len() + 1) as nat, d, "pending"@),
{
}

/// Completing a task twice leaves the store as completing it once does.
pub proof fn lemma_complete_idempotent(s: Seq<(Seq<char>, bool)>, index: int)
    requires
        names_task(s.len(), index),
    ensures
        completed_at(completed_at(s, index), index) == completed_at(s, index),
{
    assert(completed_at(completed_at(s, index), index) =~= completed_at(s, index));
}

/// Deleting the first of three tasks leaves the other two, in order, and the
/// listing then shows the second task at position 1.
pub proof fn lemma_delete_shifts(
    a: (Seq<char>, bool),
    b: (Seq<char>, bool),
    c: (Seq<char>, bool),
)
    ensures
        deleted_at(seq![a, b, c], 1) == seq![b, c],
        listing(deleted_at(seq![a, b, c], 1))[0] == (1nat, b.0, status_label(b.1)),
        listing(deleted_at(seq![a, b, c], 1))[1] == (2nat, c.0, status_label(c.1)),
{
    assert(deleted_at(seq![a, b, c], 1) =~= seq![b, c]);
}

/// For a store of any length `n`, neither 0 nor `n + 1` names a task, so
/// `complete_task` and `delete_task` refuse both numbers and leave the store
/// unchanged.
pub proof fn lemma_out_of_range(n: nat)
    ensures
        !names_task(n, 0),
        !names_task(n, (n + 1) as int),
{
}

} // verus!
