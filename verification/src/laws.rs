//! Proved statements about sequences of operations.
//!
//! Each law is stated over the same spec functions that the operation
//! contracts in [`crate::service`] use, so it holds of the executable
//! operations through those contracts.

use vstd::prelude::*;
use crate::service::{create_outcome, create_store, read_outcome, update_outcome, update_store};
use crate::service::updated_record;
use crate::store::RecordView;
use crate::task::{conflict_message, missing_message, status_of};
use crate::task::{ResponseView, TaskView};

verus! {

/// Law: creating a task under a fresh, non-empty id succeeds, and an
/// immediate read of that id returns exactly the submitted title,
/// author and description.
pub proof fn lemma_create_then_read(m: Map<Seq<char>, RecordView>, t: TaskView)
    requires
        t.id.len() > 0,
        !m.contains_key(t.id),
    ensures
        create_outcome(m, t) == ResponseView::Created,
        read_outcome(create_store(m, t), t.id) == ResponseView::OkTask(t),
{
}

/// Law: two sequential creates with the same id answer created (201)
/// and then conflict (409), whatever else the second submission holds.
pub proof fn lemma_create_twice(m: Map<Seq<char>, RecordView>, t1: TaskView, t2: TaskView)
    requires
        !m.contains_key(t1.id),
        t2.id == t1.id,
    ensures
        create_outcome(m, t1) == ResponseView::Created,
        status_of(create_outcome(m, t1)) == 201,
        create_outcome(create_store(m, t1), t2) == ResponseView::Conflict(
            conflict_message(t1.id),
        ),
        status_of(create_outcome(create_store(m, t1), t2)) == 409,
{
}

/// Law: reading an id that is not stored answers not-found (404), with
/// a message that contains the id verbatim.
pub proof fn lemma_read_missing(m: Map<Seq<char>, RecordView>, id: Seq<char>)
    requires
        !m.contains_key(id),
    ensures
        read_outcome(m, id) == ResponseView::NotFound(missing_message(id)),
        status_of(read_outcome(m, id)) == 404,
        exists|k: int|
            0 <= k && k + id.len() <= missing_message(id).len() && #[trigger] missing_message(
                id,
            ).subrange(k, k + id.len()) == id,
{
    reveal_strlit("Task with id '");
    let p = "Task with id '"@;
    let k = p.len() as int;
    assert(missing_message(id).subrange(k, k + id.len()) =~= id);
}

/// Law: an update to an id that is not stored answers not-found (404)
/// and leaves the store untouched.
pub proof fn lemma_update_missing(m: Map<Seq<char>, RecordView>, id: Seq<char>, t: TaskView)
    requires
        !m.contains_key(id),
    ensures
        update_outcome(m, id) == ResponseView::NotFound(missing_message(id)),
        status_of(update_outcome(m, id)) == 404,
        update_store(m, id, t) == m,
{
}

/// Law: an update whose author and description are submitted empty
/// changes only the title — a following read returns the new title
/// with the stored author and description unchanged.
pub proof fn lemma_update_title_only(
    m: Map<Seq<char>, RecordView>,
    id: Seq<char>,
    t: TaskView,
    a0: Seq<char>,
    d0: Seq<char>,
)
    requires
        m.contains_key(id),
        m[id].title is Some,
        m[id].author == Some(a0),
        m[id].description == Some(d0),
        t.title.len() > 0,
        t.author.len() == 0,
        t.description.len() == 0,
    ensures
        update_outcome(m, id) == ResponseView::Okay,
        update_store(m, id, t) == m.insert(
            id,
            RecordView { title: Some(t.title), author: Some(a0), description: Some(d0) },
        ),
        read_outcome(update_store(m, id, t), id) == ResponseView::OkTask(
            TaskView { id: id, title: t.title, author: a0, description: d0 },
        ),
{
}

/// Law: repeating a successful update with the same submission leaves
/// the store exactly as applying it once did.
pub proof fn lemma_update_idempotent(m: Map<Seq<char>, RecordView>, id: Seq<char>, t: TaskView)
    requires
        m.contains_key(id),
    ensures
        update_outcome(m, id) == ResponseView::Okay,
        update_outcome(update_store(m, id, t), id) == ResponseView::Okay,
        update_store(update_store(m, id, t), id, t) == update_store(m, id, t),
{
    let m1 = update_store(m, id, t);
    assert(m1[id] == updated_record(m[id], t));
    assert(updated_record(updated_record(m[id], t), t) == updated_record(m[id], t));
    assert(update_store(m1, id, t) =~= m1);
}

} // verus!
