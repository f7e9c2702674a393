//! The shapes of store answers that the protocol inspects.
//!
//! The external key-value service answers every command with a typed
//! value.  The protocol reads only a few of those shapes: an integer (the
//! existence count), a simple status string (the write acknowledgment),
//! and an array of per-field slots (the read answer).  Everything else —
//! a store-reported error, a transport failure, or an answer of an
//! unexpected type — is handled uniformly as an unexpected answer, so it
//! is carried here by a single variant.

use vstd::prelude::*;

verus! {

/// One slot of an array answer: the value of one requested field.
#[derive(Clone, Debug, PartialEq)]
pub enum ReplyItem {
    /// The field value as a status-string answer.
    Simple(String),
    /// The field value as a bulk-string answer, decoded to text.
    Bulk(String),
    /// The field is absent from the record.
    Nil,
    /// A slot of an unexpected type.
    Other,
}

/// Mathematical model of one array slot.
pub enum ReplyItemView {
    Simple(Seq<char>),
    Bulk(Seq<char>),
    Nil,
    Other,
}

impl View for ReplyItem {
    type V = ReplyItemView;

    open spec fn view(&self) -> ReplyItemView {
        match self {
            ReplyItem::Simple(s) => ReplyItemView::Simple(s@),
            ReplyItem::Bulk(s) => ReplyItemView::Bulk(s@),
            ReplyItem::Nil => ReplyItemView::Nil,
            ReplyItem::Other => ReplyItemView::Other,
        }
    }
}

impl DeepView for ReplyItem {
    type V = ReplyItemView;

    open spec fn deep_view(&self) -> ReplyItemView {
        self@
    }
}

/// A store answer to one command.
#[derive(Clone, Debug, PartialEq)]
pub enum StoreReply {
    /// An integer answer, as the existence check returns.
    Integer(i64),
    /// A status-string answer, as a write acknowledgment returns.
    Simple(String),
    /// An array answer, as a multi-field read returns.
    Array(Vec<ReplyItem>),
    /// Anything else: an answer of an unexpected type, a store-reported
    /// error, or a transport failure.
    Other,
}

/// Mathematical model of a store answer.
pub enum StoreReplyView {
    Integer(int),
    Simple(Seq<char>),
    Array(Seq<ReplyItemView>),
    Other,
}

impl View for StoreReply {
    type V = StoreReplyView;

    open spec fn view(&self) -> StoreReplyView {
        match self {
            StoreReply::Integer(n) => StoreReplyView::Integer(*n as int),
            StoreReply::Simple(s) => StoreReplyView::Simple(s@),
            StoreReply::Array(items) => StoreReplyView::Array(
                Seq::new(items@.len(), |i: int| items@[i]@),
            ),
            StoreReply::Other => StoreReplyView::Other,
        }
    }
}

} // verus!
