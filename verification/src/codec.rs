//! Field names on the wire, the field lists that writes send, and the
//! decoding of read answers.

use vstd::prelude::*;
use crate::reply::{ReplyItem, ReplyItemView};
use crate::task::Task;
use crate::task::TaskView;

verus! {

/// A field of the stored record.
#[derive(Clone, Copy, Debug, PartialEq, Eq, Structural)]
pub enum Field {
    Title,
    Author,
    Description,
}

impl Field {
    /// The field's name on the wire.
    pub open spec fn spec_wire_name(self) -> Seq<char> {
        match self {
            Field::Title => "title"@,
            Field::Author => "author"@,
            Field::Description => "description"@,
        }
    }

    /// The field's name on the wire.
    pub fn wire_name(&self) -> (r: &'static str)
        ensures
            r@ == self.spec_wire_name(),
    {
        match self {
            Field::Title => "title",
            Field::Author => "author",
            Field::Description => "description",
        }
    }
}

/// One field-value pair of a write command.
#[derive(Clone, Debug, PartialEq)]
pub struct FieldPair {
    pub field: Field,
    pub value: String,
}

/// Mathematical model of a field-value pair.
pub struct FieldPairView {
    pub field: Field,
    pub value: Seq<char>,
}

impl View for FieldPair {
    type V = FieldPairView;

    open spec fn view(&self) -> FieldPairView {
        FieldPairView { field: self.field, value: self.value@ }
    }
}

impl DeepView for FieldPair {
    type V = FieldPairView;

    open spec fn deep_view(&self) -> FieldPairView {
        self@
    }
}

/// The field list a create sends: all three fields, in title, author,
/// description order, whatever their values.
pub open spec fn create_pairs_spec(t: TaskView) -> Seq<FieldPairView> {
    seq![
        FieldPairView { field: Field::Title, value: t.title },
        FieldPairView { field: Field::Author, value: t.author },
        FieldPairView { field: Field::Description, value: t.description },
    ]
}

/// The field list an update sends: of title, author and description, in
/// that order, exactly those whose submitted value is non-empty.
pub open spec fn update_pairs_spec(t: TaskView) -> Seq<FieldPairView> {
    (if t.title.len() > 0 {
        seq![FieldPairView { field: Field::Title, value: t.title }]
    } else {
        Seq::<FieldPairView>::empty()
    }) + (if t.author.len() > 0 {
        seq![FieldPairView { field: Field::Author, value: t.author }]
    } else {
        Seq::<FieldPairView>::empty()
    }) + (if t.description.len() > 0 {
        seq![FieldPairView { field: Field::Description, value: t.description }]
    } else {
        Seq::<FieldPairView>::empty()
    })
}

/// Builds the field list a create writes for `task`.
pub fn create_pairs(task: &Task) -> (r: Vec<FieldPair>)
    ensures
        r.deep_view() == create_pairs_spec(task@),
{
    let mut r: Vec<FieldPair> = Vec::new();
    r.push(FieldPair { field: Field::Title, value: task.title.clone() });
    r.push(FieldPair { field: Field::Author, value: task.author.clone() });
    r.push(FieldPair { field: Field::Description, value: task.description.clone() });
    proof {
        assert(r.deep_view() =~= create_pairs_spec(task@));
    }
    r
}

/// Builds the field list an update writes for `task`: only the non-empty
/// fields.
pub fn update_pairs(task: &Task) -> (r: Vec<FieldPair>)
    ensures
        r.deep_view() == update_pairs_spec(task@),
{
    let mut r: Vec<FieldPair> = Vec::new();
    if !task.title.as_str().is_empty() {
        r.push(FieldPair { field: Field::Title, value: task.title.clone() });
    }
    if !task.author.as_str().is_empty() {
        r.push(FieldPair { field: Field::Author, value: task.author.clone() });
    }
    if !task.description.as_str().is_empty() {
        r.push(FieldPair { field: Field::Description, value: task.description.clone() });
    }
    proof {
        assert(r.deep_view() =~= update_pairs_spec(task@));
    }
    r
}

/// The values read out of an array answer: each slot that carries text
/// contributes it, in order; absent and unexpected slots are dropped.
pub open spec fn decoded(items: Seq<ReplyItemView>) -> Seq<Seq<char>>
    decreases items.len(),
{
    if items.len() == 0 {
        Seq::empty()
    } else {
        decoded(items.drop_last()) + (match items.last() {
            ReplyItemView::Simple(s) => seq![s],
            ReplyItemView::Bulk(s) => seq![s],
            ReplyItemView::Nil => Seq::<Seq<char>>::empty(),
            ReplyItemView::Other => Seq::<Seq<char>>::empty(),
        })
    }
}

/// Decodes an array answer into the values it carries.
pub fn decode_values(items: &Vec<ReplyItem>) -> (r: Vec<String>)
    ensures
        r.deep_view() == decoded(items.deep_view()),
{
    let ghost iv = items.deep_view();
    let mut r: Vec<String> = Vec::new();
    let mut i: usize = 0;
    while i < items.len()
        invariant
            iv == items.deep_view(),
            i <= items@.len(),
            r.deep_view() == decoded(iv.subrange(0, i as int)),
        decreases items@.len() - i,
    {
        match &items[i] {
            ReplyItem::Simple(s) => r.push(s.clone()),
            ReplyItem::Bulk(s) => r.push(s.clone()),
            ReplyItem::Nil => {},
            ReplyItem::Other => {},
        }
        proof {
            assert(iv.subrange(0, i + 1).drop_last() =~= iv.subrange(0, i as int));
            assert(iv.subrange(0, i + 1).last() == iv[i as int]);
            assert(r.deep_view() =~= decoded(iv.subrange(0, i + 1)));
        }
        i += 1;
    }
    proof {
        assert(iv.subrange(0, items@.len() as int) =~= iv);
    }
    r
}

} // verus!
