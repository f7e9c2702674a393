//! The three operations run end to end against an in-memory store.
//!
//! Each function plays the same two-round protocol that the decision
//! functions in [`crate::protocol`] describe, against a [`TaskStore`],
//! and its contract states the outcome and the resulting store for every
//! starting store and input.

use vstd::prelude::*;
use crate::codec::{create_pairs, create_pairs_spec, update_pairs, update_pairs_spec};
use crate::codec::{decoded, Field, FieldPairView};
use crate::protocol::{create_check, create_finish, existence_check, read_finish, update_finish};
use crate::protocol::{read_finish_spec, Step1};
use crate::reply::ReplyItemView;
use crate::store::{apply_one, apply_pairs, hmget_reply_spec, record_or_empty, slot_of};
use crate::store::{RecordView, TaskStore};
use crate::task::{conflict_message, missing_message};
use crate::task::{Response, ResponseView, Task, TaskView};

verus! {

/// The record a create writes: all three submitted fields present.
pub open spec fn stored_task(t: TaskView) -> RecordView {
    RecordView { title: Some(t.title), author: Some(t.author), description: Some(t.description) }
}

/// The record an update leaves: each non-empty submitted field
/// overwrites its stored field, each empty one leaves it untouched.
pub open spec fn updated_record(r: RecordView, t: TaskView) -> RecordView {
    RecordView {
        title: if t.title.len() > 0 {
            Some(t.title)
        } else {
            r.title
        },
        author: if t.author.len() > 0 {
            Some(t.author)
        } else {
            r.author
        },
        description: if t.description.len() > 0 {
            Some(t.description)
        } else {
            r.description
        },
    }
}

/// The response a create returns: a conflict when the id is taken, else
/// created.
pub open spec fn create_outcome(m: Map<Seq<char>, RecordView>, t: TaskView) -> ResponseView {
    if m.contains_key(t.id) {
        ResponseView::Conflict(conflict_message(t.id))
    } else {
        ResponseView::Created
    }
}

/// The store a create leaves: untouched on a conflict, else with the
/// submitted record under the submitted id.
pub open spec fn create_store(m: Map<Seq<char>, RecordView>, t: TaskView) -> Map<
    Seq<char>,
    RecordView,
> {
    if m.contains_key(t.id) {
        m
    } else {
        m.insert(t.id, stored_task(t))
    }
}

/// The response a read returns: not-found when the id is unbound; the
/// reconstructed task when all three fields are present; an internal
/// error when the record has lost a field.
pub open spec fn read_outcome(m: Map<Seq<char>, RecordView>, id: Seq<char>) -> ResponseView {
    if !m.contains_key(id) {
        ResponseView::NotFound(missing_message(id))
    } else {
        match (m[id].title, m[id].author, m[id].description) {
            (Some(t), Some(a), Some(d)) => ResponseView::OkTask(
                TaskView { id: id, title: t, author: a, description: d },
            ),
            _ => ResponseView::InternalError,
        }
    }
}

/// The response an update returns: not-found when the id is unbound,
/// else success — an update of nothing but empty fields is a no-op
/// write that still succeeds.
pub open spec fn update_outcome(m: Map<Seq<char>, RecordView>, id: Seq<char>) -> ResponseView {
    if m.contains_key(id) {
        ResponseView::Okay
    } else {
        ResponseView::NotFound(missing_message(id))
    }
}

/// The store an update leaves: untouched when the id is unbound, else
/// with the record's non-empty submitted fields overwritten.
pub open spec fn update_store(
    m: Map<Seq<char>, RecordView>,
    id: Seq<char>,
    t: TaskView,
) -> Map<Seq<char>, RecordView> {
    if m.contains_key(id) {
        m.insert(id, updated_record(m[id], t))
    } else {
        m
    }
}

proof fn lemma_apply_singleton(r: RecordView, p: FieldPairView)
    ensures
        apply_pairs(r, seq![p]) == apply_one(r, p),
{
    assert(seq![p].drop_last() =~= Seq::<FieldPairView>::empty());
    assert(apply_pairs(r, Seq::<FieldPairView>::empty()) == r);
    assert(seq![p].last() == p);
}

proof fn lemma_apply_concat(r: RecordView, ps: Seq<FieldPairView>, qs: Seq<FieldPairView>)
    ensures
        apply_pairs(r, ps + qs) == apply_pairs(apply_pairs(r, ps), qs),
    decreases qs.len(),
{
    if qs.len() == 0 {
        assert(ps + qs =~= ps);
    } else {
        lemma_apply_concat(r, ps, qs.drop_last());
        assert((ps + qs).drop_last() =~= ps + qs.drop_last());
        assert((ps + qs).last() == qs.last());
    }
}

proof fn lemma_apply_create_pairs(r: RecordView, t: TaskView)
    ensures
        apply_pairs(r, create_pairs_spec(t)) == stored_task(t),
{
    let ps = create_pairs_spec(t);
    assert(ps.drop_last() =~= seq![ps[0], ps[1]]);
    assert(seq![ps[0], ps[1]].drop_last() =~= seq![ps[0]]);
    lemma_apply_singleton(r, ps[0]);
    assert(apply_pairs(r, seq![ps[0], ps[1]]) == apply_one(apply_one(r, ps[0]), ps[1]));
    assert(apply_pairs(r, ps) == apply_one(apply_one(apply_one(r, ps[0]), ps[1]), ps[2]));
}

proof fn lemma_apply_update_pairs(r: RecordView, t: TaskView)
    ensures
        apply_pairs(r, update_pairs_spec(t)) == updated_record(r, t),
{
    let st = if t.title.len() > 0 {
        seq![FieldPairView { field: Field::Title, value: t.title }]
    } else {
        Seq::<FieldPairView>::empty()
    };
    let sa = if t.author.len() > 0 {
        seq![FieldPairView { field: Field::Author, value: t.author }]
    } else {
        Seq::<FieldPairView>::empty()
    };
    let sd = if t.description.len() > 0 {
        seq![FieldPairView { field: Field::Description, value: t.description }]
    } else {
        Seq::<FieldPairView>::empty()
    };
    lemma_apply_concat(r, st + sa, sd);
    lemma_apply_concat(r, st, sa);
    let r1 = apply_pairs(r, st);
    let r2 = apply_pairs(r1, sa);
    if t.title.len() > 0 {
        lemma_apply_singleton(r, st[0]);
    }
    if t.author.len() > 0 {
        lemma_apply_singleton(r1, sa[0]);
    }
    if t.description.len() > 0 {
        lemma_apply_singleton(r2, sd[0]);
    }
}

/// Creates the submitted task under its own id.
///
/// The store answers the existence check for `task.id`; a non-zero
/// count short-circuits to a conflict, a zero count lets the write of
/// all three fields proceed, and the write's acknowledgment becomes the
/// created response.
pub fn create_task(store: &mut TaskStore, task: &Task) -> (r: Response)
    requires
        old(store).wf(),
    ensures
        final(store).wf(),
        r@ == create_outcome(old(store)@, task@),
        final(store)@ == create_store(old(store)@, task@),
{
    let reply = store.exists_reply(task.id.as_str());
    match create_check(task.id.as_str(), &reply) {
        Step1::Done(resp) => resp,
        Step1::Proceed => {
            let pairs = create_pairs(task);
            let reply2 = store.hmset_reply(task.id.as_str(), &pairs);
            proof {
                lemma_apply_create_pairs(record_or_empty(old(store)@, task@.id), task@);
            }
            create_finish(&reply2)
        },
    }
}

/// The values one slot contributes to a decoded answer.
spec fn slot_vals(x: ReplyItemView) -> Seq<Seq<char>> {
    match x {
        ReplyItemView::Simple(s) => seq![s],
        ReplyItemView::Bulk(s) => seq![s],
        ReplyItemView::Nil => Seq::empty(),
        ReplyItemView::Other => Seq::empty(),
    }
}

proof fn lemma_decoded3(a: ReplyItemView, b: ReplyItemView, c: ReplyItemView)
    ensures
        decoded(seq![a, b, c]) == (slot_vals(a) + slot_vals(b)) + slot_vals(c),
{
    let s3 = seq![a, b, c];
    let s2 = seq![a, b];
    let s1 = seq![a];
    let s0 = Seq::<ReplyItemView>::empty();
    assert(s3.drop_last() =~= s2);
    assert(s2.drop_last() =~= s1);
    assert(s1.drop_last() =~= s0);
    assert(decoded(s0) == Seq::<Seq<char>>::empty());
    assert(decoded(s1) =~= slot_vals(a));
    assert(decoded(s2) =~= slot_vals(a) + slot_vals(b));
    assert(decoded(s3) =~= (slot_vals(a) + slot_vals(b)) + slot_vals(c));
}

proof fn lemma_decoded_slots(id: Seq<char>, m: Map<Seq<char>, RecordView>)
    requires
        m.contains_key(id),
    ensures
        read_finish_spec(id, hmget_reply_spec(m, id))
            == read_outcome(m, id),
{
    let r = record_or_empty(m, id);
    lemma_decoded3(slot_of(r.title), slot_of(r.author), slot_of(r.description));
    let items = seq![slot_of(r.title), slot_of(r.author), slot_of(r.description)];
    let vals = decoded(items);
    match (r.title, r.author, r.description) {
        (Some(t), Some(a), Some(d)) => {
            assert(vals =~= seq![t, a, d]);
        },
        _ => {
            assert(slot_vals(slot_of(r.title)).len() <= 1);
            assert(slot_vals(slot_of(r.author)).len() <= 1);
            assert(slot_vals(slot_of(r.description)).len() <= 1);
            if !(r.title is Some) {
                assert(slot_vals(slot_of(r.title)).len() == 0);
            } else if !(r.author is Some) {
                assert(slot_vals(slot_of(r.author)).len() == 0);
            } else {
                assert(slot_vals(slot_of(r.description)).len() == 0);
            }
            assert(vals.len() < 3);
        },
    }
}

/// Reads the task under `id`.
///
/// The store answers the existence check; a zero count short-circuits
/// to not-found, a non-zero count lets the read of the three fields
/// proceed, and the decoded answer reconstructs the task — or reports
/// an internal error when a field has gone missing.
pub fn read_task(store: &TaskStore, id: &str) -> (r: Response)
    requires
        store.wf(),
    ensures
        r@ == read_outcome(store@, id@),
{
    let reply = store.exists_reply(id);
    match existence_check(id, &reply) {
        Step1::Done(resp) => resp,
        Step1::Proceed => {
            let reply2 = store.hmget_reply(id);
            proof {
                lemma_decoded_slots(id@, store@);
            }
            read_finish(id, &reply2)
        },
    }
}

/// Updates the task under `id` with the non-empty fields of `task`.
///
/// The store answers the existence check; a zero count short-circuits
/// to not-found, a non-zero count lets the write of the non-empty
/// submitted fields proceed — a write of no fields at all when every
/// submitted field is empty — and the acknowledgment becomes the
/// success response.  The submitted task's own `id` field plays no
/// part.
pub fn update_task(store: &mut TaskStore, id: &str, task: &Task) -> (r: Response)
    requires
        old(store).wf(),
    ensures
        final(store).wf(),
        r@ == update_outcome(old(store)@, id@),
        final(store)@ == update_store(old(store)@, id@, task@),
{
    let reply = store.exists_reply(id);
    match existence_check(id, &reply) {
        Step1::Done(resp) => resp,
        Step1::Proceed => {
            let pairs = update_pairs(task);
            let reply2 = store.hmset_reply(id, &pairs);
            proof {
                lemma_apply_update_pairs(record_or_empty(old(store)@, id@), task@);
            }
            update_finish(&reply2)
        },
    }
}

} // verus!
