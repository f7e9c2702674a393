//! An in-memory store with the documented semantics of the external
//! key-value service, for running the protocol locally.
//!
//! A record lives under its id and holds, for each of the three fields,
//! either a value or nothing.  The store answers the three commands the
//! protocol issues — an existence check, a multi-field write and a
//! multi-field read — with the same answer shapes the external service
//! gives: a count, an `"OK"` acknowledgment, and an array of per-field
//! slots where an absent field is a nil slot.

use vstd::prelude::*;
use crate::codec::{Field, FieldPair, FieldPairView};
use crate::reply::{ReplyItem, ReplyItemView, StoreReply, StoreReplyView};
use crate::text::str_eq;

verus! {

/// One stored record: each field either present with a value or absent.
#[derive(Debug)]
pub struct Record {
    pub title: Option<String>,
    pub author: Option<String>,
    pub description: Option<String>,
}

/// Mathematical model of a stored record.
pub struct RecordView {
    pub title: Option<Seq<char>>,
    pub author: Option<Seq<char>>,
    pub description: Option<Seq<char>>,
}

/// The model of an optionally present string.
pub open spec fn opt_view(o: Option<String>) -> Option<Seq<char>> {
    match o {
        Some(s) => Some(s@),
        None => None,
    }
}

impl View for Record {
    type V = RecordView;

    open spec fn view(&self) -> RecordView {
        RecordView {
            title: opt_view(self.title),
            author: opt_view(self.author),
            description: opt_view(self.description),
        }
    }
}

/// A record with every field absent.
pub open spec fn empty_record() -> RecordView {
    RecordView { title: None, author: None, description: None }
}

/// The record under `id`, or the all-absent record when the id is
/// unbound — which is how the service treats a write to a fresh id.
pub open spec fn record_or_empty(m: Map<Seq<char>, RecordView>, id: Seq<char>) -> RecordView {
    if m.contains_key(id) {
        m[id]
    } else {
        empty_record()
    }
}

/// One field write: the named field takes the value, the others stay.
pub open spec fn apply_one(r: RecordView, p: FieldPairView) -> RecordView {
    match p.field {
        Field::Title => RecordView { title: Some(p.value), ..r },
        Field::Author => RecordView { author: Some(p.value), ..r },
        Field::Description => RecordView { description: Some(p.value), ..r },
    }
}

/// A list of field writes applied left to right, as one write command
/// applies its pairs.
pub open spec fn apply_pairs(r: RecordView, ps: Seq<FieldPairView>) -> RecordView
    decreases ps.len(),
{
    if ps.len() == 0 {
        r
    } else {
        apply_one(apply_pairs(r, ps.drop_last()), ps.last())
    }
}

/// One entry of the in-memory store.
struct Entry {
    id: String,
    rec: Record,
}

/// The records held by a sequence of entries, later entries winning —
/// though a well-formed store never repeats an id.
spec fn entries_map(s: Seq<Entry>) -> Map<Seq<char>, RecordView>
    decreases s.len(),
{
    if s.len() == 0 {
        Map::empty()
    } else {
        entries_map(s.drop_last()).insert(s.last().id@, s.last().rec@)
    }
}

/// No id occurs twice.
spec fn unique_ids(s: Seq<Entry>) -> bool {
    forall|i: int, j: int| 0 <= i < j < s.len() ==> s[i].id@ != s[j].id@
}

proof fn lemma_map_domain(s: Seq<Entry>, k: Seq<char>)
    ensures
        entries_map(s).contains_key(k) <==> (exists|i: int|
            0 <= i < s.len() && s[i].id@ == k),
    decreases s.len(),
{
    if s.len() > 0 {
        lemma_map_domain(s.drop_last(), k);
        if k == s.last().id@ {
            assert(s[s.len() - 1].id@ == k);
        } else {
            if entries_map(s).contains_key(k) {
                let i = choose|i: int|
                    0 <= i < s.drop_last().len() && s.drop_last()[i].id@ == k;
                assert(s[i].id@ == k);
            }
            if exists|i: int| 0 <= i < s.len() && s[i].id@ == k {
                let i = choose|i: int| 0 <= i < s.len() && s[i].id@ == k;
                assert(s.drop_last()[i].id@ == k);
            }
        }
    }
}

proof fn lemma_map_index(s: Seq<Entry>, i: int)
    requires
        unique_ids(s),
        0 <= i < s.len(),
    ensures
        entries_map(s).contains_key(s[i].id@),
        entries_map(s)[s[i].id@] == s[i].rec@,
    decreases s.len(),
{
    if i < s.len() - 1 {
        lemma_map_index(s.drop_last(), i);
        assert(s.drop_last()[i] == s[i]);
        assert(s.last().id@ != s[i].id@);
    }
}

proof fn lemma_map_update(s: Seq<Entry>, i: int, e: Entry)
    requires
        unique_ids(s),
        0 <= i < s.len(),
        e.id@ == s[i].id@,
    ensures
        entries_map(s.update(i, e)) == entries_map(s).insert(e.id@, e.rec@),
        unique_ids(s.update(i, e)),
    decreases s.len(),
{
    let s2 = s.update(i, e);
    assert(forall|j: int| 0 <= j < s.len() ==> s2[j].id@ == s[j].id@);
    if i == s.len() - 1 {
        assert(s2.drop_last() =~= s.drop_last());
        assert(s2.last() == e);
        assert(entries_map(s2) =~= entries_map(s).insert(e.id@, e.rec@));
    } else {
        lemma_map_update(s.drop_last(), i, e);
        assert(s2.drop_last() =~= s.drop_last().update(i, e));
        assert(s2.last() == s.last());
        assert(s.last().id@ != e.id@);
        assert(entries_map(s2) =~= entries_map(s).insert(e.id@, e.rec@));
    }
}

proof fn lemma_map_push(s: Seq<Entry>, e: Entry)
    requires
        unique_ids(s),
        forall|j: int| 0 <= j < s.len() ==> s[j].id@ != e.id@,
    ensures
        entries_map(s.push(e)) == entries_map(s).insert(e.id@, e.rec@),
        unique_ids(s.push(e)),
{
    assert(s.push(e).drop_last() =~= s);
    assert(s.push(e).last() == e);
    assert(forall|j: int| 0 <= j < s.len() ==> s.push(e)[j] == s[j]);
}

/// Duplicates an optionally present string.
fn clone_opt(o: &Option<String>) -> (r: Option<String>)
    ensures
        opt_view(r) == opt_view(*o),
{
    match o {
        Some(s) => Some(s.clone()),
        None => None,
    }
}

/// Duplicates a record.
fn clone_record(r: &Record) -> (res: Record)
    ensures
        res@ == r@,
{
    Record {
        title: clone_opt(&r.title),
        author: clone_opt(&r.author),
        description: clone_opt(&r.description),
    }
}

/// One slot of a read answer: the field's value as a bulk string, or a
/// nil slot when the field is absent.
pub open spec fn slot_of(v: Option<Seq<char>>) -> ReplyItemView {
    match v {
        Some(s) => ReplyItemView::Bulk(s),
        None => ReplyItemView::Nil,
    }
}

fn slot_item(v: &Option<String>) -> (r: ReplyItem)
    ensures
        r@ == slot_of(opt_view(*v)),
{
    match v {
        Some(s) => ReplyItem::Bulk(s.clone()),
        None => ReplyItem::Nil,
    }
}

/// The answer to an existence check: how many of the asked keys are
/// bound — here one key, so one or zero.
pub open spec fn exists_reply_spec(m: Map<Seq<char>, RecordView>, id: Seq<char>) -> StoreReplyView {
    StoreReplyView::Integer(if m.contains_key(id) { 1 } else { 0 })
}

/// The answer to a read of the three fields of `id`: one slot per field
/// in title, author, description order, each nil when absent — so all
/// nil when the id is unbound.
pub open spec fn hmget_reply_spec(m: Map<Seq<char>, RecordView>, id: Seq<char>) -> StoreReplyView {
    let r = record_or_empty(m, id);
    StoreReplyView::Array(seq![slot_of(r.title), slot_of(r.author), slot_of(r.description)])
}

/// An in-memory task store: the records currently held, keyed by id.
pub struct TaskStore {
    entries: Vec<Entry>,
}

impl View for TaskStore {
    type V = Map<Seq<char>, RecordView>;

    closed spec fn view(&self) -> Map<Seq<char>, RecordView> {
        entries_map(self.entries@)
    }
}

impl TaskStore {
    /// Well-formed: no id is held twice.
    pub closed spec fn wf(&self) -> bool {
        unique_ids(self.entries@)
    }

    /// An empty store.
    pub fn new() -> (s: TaskStore)
        ensures
            s.wf(),
            s@ == Map::<Seq<char>, RecordView>::empty(),
    {
        TaskStore { entries: Vec::new() }
    }

    fn find_index(&self, id: &str) -> (r: Option<usize>)
        ensures
            match r {
                Some(i) => i < self.entries@.len() && self.entries@[i as int].id@ == id@,
                None => forall|j: int|
                    0 <= j < self.entries@.len() ==> self.entries@[j].id@ != id@,
            },
    {
        let mut i: usize = 0;
        while i < self.entries.len()
            invariant
                i <= self.entries@.len(),
                forall|j: int| 0 <= j < i ==> self.entries@[j].id@ != id@,
            decreases self.entries@.len() - i,
        {
            if str_eq(self.entries[i].id.as_str(), id) {
                return Some(i);
            }
            i += 1;
        }
        None
    }

    /// Answers an existence check for `id`.
    pub fn exists_reply(&self, id: &str) -> (r: StoreReply)
        ensures
            r@ == exists_reply_spec(self@, id@),
    {
        proof {
            lemma_map_domain(self.entries@, id@);
        }
        match self.find_index(id) {
            Some(_) => StoreReply::Integer(1),
            None => StoreReply::Integer(0),
        }
    }

    /// Answers a read of the three fields of `id`.
    pub fn hmget_reply(&self, id: &str) -> (r: StoreReply)
        requires
            self.wf(),
        ensures
            r@ == hmget_reply_spec(self@, id@),
    {
        proof {
            lemma_map_domain(self.entries@, id@);
        }
        let rec: Record = match self.find_index(id) {
            Some(i) => {
                proof {
                    lemma_map_index(self.entries@, i as int);
                }
                clone_record(&self.entries[i].rec)
            },
            None => Record { title: None, author: None, description: None },
        };
        let mut items: Vec<ReplyItem> = Vec::new();
        items.push(slot_item(&rec.title));
        items.push(slot_item(&rec.author));
        items.push(slot_item(&rec.description));
        let r = StoreReply::Array(items);
        proof {
            let rv = record_or_empty(self@, id@);
            assert(Seq::new(items@.len(), |i: int| items@[i]@) =~= seq![
                slot_of(rv.title),
                slot_of(rv.author),
                slot_of(rv.description),
            ]);
        }
        r
    }

    /// Answers a write of `pairs` to `id`: the pairs land on the record
    /// under the id — a fresh, all-absent record when the id was unbound
    /// — and the store acknowledges with `"OK"`.
    pub fn hmset_reply(&mut self, id: &str, pairs: &Vec<FieldPair>) -> (r: StoreReply)
        requires
            old(self).wf(),
        ensures
            final(self).wf(),
            final(self)@ == old(self)@.insert(
                id@,
                apply_pairs(record_or_empty(old(self)@, id@), pairs.deep_view()),
            ),
            r@ == StoreReplyView::Simple("OK"@),
    {
        proof {
            lemma_map_domain(self.entries@, id@);
        }
        match self.find_index(id) {
            Some(i) => {
                proof {
                    lemma_map_index(self.entries@, i as int);
                }
                let mut rec = clone_record(&self.entries[i].rec);
                apply_pairs_exec(&mut rec, pairs);
                let eid = self.entries[i].id.clone();
                let e = Entry { id: eid, rec };
                proof {
                    lemma_map_update(self.entries@, i as int, e);
                }
                self.entries.set(i, e);
            },
            None => {
                let mut rec = Record { title: None, author: None, description: None };
                apply_pairs_exec(&mut rec, pairs);
                let e = Entry { id: String::from_str(id), rec };
                proof {
                    lemma_map_push(self.entries@, e);
                }
                self.entries.push(e);
            },
        }
        StoreReply::Simple(String::from_str("OK"))
    }
}

/// Applies a list of field writes to a record, left to right.
fn apply_pairs_exec(rec: &mut Record, pairs: &Vec<FieldPair>)
    ensures
        final(rec)@ == apply_pairs(old(rec)@, pairs.deep_view()),
{
    let ghost pv = pairs.deep_view();
    let mut i: usize = 0;
    while i < pairs.len()
        invariant
            pv == pairs.deep_view(),
            i <= pairs@.len(),
            rec@ == apply_pairs(old(rec)@, pv.subrange(0, i as int)),
        decreases pairs@.len() - i,
    {
        let p = &pairs[i];
        let v = p.value.clone();
        match p.field {
            Field::Title => rec.title = Some(v),
            Field::Author => rec.author = Some(v),
            Field::Description => rec.description = Some(v),
        }
        proof {
            assert(pv.subrange(0, i + 1).drop_last() =~= pv.subrange(0, i as int));
            assert(pv.subrange(0, i + 1).last() == pv[i as int]);
        }
        i += 1;
    }
    proof {
        assert(pv.subrange(0, pairs@.len() as int) =~= pv);
    }
}

} // verus!
