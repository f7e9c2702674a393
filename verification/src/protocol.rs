//! The per-step decision functions of the three operations.
//!
//! Each operation is two store round trips at most: an existence check,
//! then — unless the first answer already settles the response — one
//! mutating or reading command.  The functions here take a store answer
//! and decide the next move; they can be run against any store that
//! speaks the shapes in [`crate::reply`].

use vstd::prelude::*;
use crate::codec::decode_values;
use crate::codec::decoded;
use crate::reply::{StoreReply, StoreReplyView};
use crate::task::{Response, ResponseView, Task, TaskView};
use crate::task::{conflict_body, conflict_message, missing_body, missing_message};
use crate::text::str_eq;

verus! {

/// The outcome of the first protocol step: either the final response is
/// already settled, or the operation proceeds to its second store
/// command.
#[derive(Clone, Debug, PartialEq)]
pub enum Step1 {
    Done(Response),
    Proceed,
}

/// Mathematical model of a first-step outcome.
pub enum Step1View {
    Done(ResponseView),
    Proceed,
}

impl View for Step1 {
    type V = Step1View;

    open spec fn view(&self) -> Step1View {
        match self {
            Step1::Done(r) => Step1View::Done(r@),
            Step1::Proceed => Step1View::Proceed,
        }
    }
}

/// What a create decides from the existence answer: a zero count lets
/// the write proceed, a non-zero count is a conflict, and any other
/// answer shape is an internal error.
pub open spec fn create_check_spec(id: Seq<char>, r: StoreReplyView) -> Step1View {
    match r {
        StoreReplyView::Integer(n) => if n == 0 {
            Step1View::Proceed
        } else {
            Step1View::Done(ResponseView::Conflict(conflict_message(id)))
        },
        _ => Step1View::Done(ResponseView::InternalError),
    }
}

/// First create step: branch on the existence answer for `id`.
pub fn create_check(id: &str, reply: &StoreReply) -> (r: Step1)
    ensures
        r@ == create_check_spec(id@, reply@),
{
    match reply {
        StoreReply::Integer(n) => {
            if *n == 0 {
                Step1::Proceed
            } else {
                Step1::Done(Response::Conflict(conflict_body(id)))
            }
        },
        _ => Step1::Done(Response::InternalError),
    }
}

/// What a read or update decides from the existence answer: a zero count
/// is not-found, a non-zero count lets the second command proceed, and
/// any other answer shape is an internal error.
pub open spec fn existence_check_spec(id: Seq<char>, r: StoreReplyView) -> Step1View {
    match r {
        StoreReplyView::Integer(n) => if n == 0 {
            Step1View::Done(ResponseView::NotFound(missing_message(id)))
        } else {
            Step1View::Proceed
        },
        _ => Step1View::Done(ResponseView::InternalError),
    }
}

/// First read or update step: branch on the existence answer for `id`.
pub fn existence_check(id: &str, reply: &StoreReply) -> (r: Step1)
    ensures
        r@ == existence_check_spec(id@, reply@),
{
    match reply {
        StoreReply::Integer(n) => {
            if *n == 0 {
                Step1::Done(Response::NotFound(missing_body(id)))
            } else {
                Step1::Proceed
            }
        },
        _ => Step1::Done(Response::InternalError),
    }
}

/// What a create makes of the write answer: only the acknowledgment
/// `"OK"` is a success.
pub open spec fn create_finish_spec(r: StoreReplyView) -> ResponseView {
    match r {
        StoreReplyView::Simple(s) => if s == "OK"@ {
            ResponseView::Created
        } else {
            ResponseView::InternalError
        },
        _ => ResponseView::InternalError,
    }
}

/// Final create step: map the write answer to the response.
pub fn create_finish(reply: &StoreReply) -> (r: Response)
    ensures
        r@ == create_finish_spec(reply@),
{
    match reply {
        StoreReply::Simple(s) => {
            if str_eq(s.as_str(), "OK") {
                Response::Created
            } else {
                Response::InternalError
            }
        },
        _ => Response::InternalError,
    }
}

/// What an update makes of the write answer: only the acknowledgment
/// `"OK"` is a success.
pub open spec fn update_finish_spec(r: StoreReplyView) -> ResponseView {
    match r {
        StoreReplyView::Simple(s) => if s == "OK"@ {
            ResponseView::Okay
        } else {
            ResponseView::InternalError
        },
        _ => ResponseView::InternalError,
    }
}

/// Final update step: map the write answer to the response.
pub fn update_finish(reply: &StoreReply) -> (r: Response)
    ensures
        r@ == update_finish_spec(reply@),
{
    match reply {
        StoreReply::Simple(s) => {
            if str_eq(s.as_str(), "OK") {
                Response::Okay
            } else {
                Response::InternalError
            }
        },
        _ => Response::InternalError,
    }
}

/// What a read makes of the field answer: an array whose decoded values
/// are exactly the three fields reconstructs the task; anything else —
/// a missing field or an unexpected shape — is an internal error.
pub open spec fn read_finish_spec(id: Seq<char>, r: StoreReplyView) -> ResponseView {
    match r {
        StoreReplyView::Array(items) => {
            let vals = decoded(items);
            if vals.len() == 3 {
                ResponseView::OkTask(
                    TaskView { id: id, title: vals[0], author: vals[1], description: vals[2] },
                )
            } else {
                ResponseView::InternalError
            }
        },
        _ => ResponseView::InternalError,
    }
}

/// Final read step: decode the field answer and reconstruct the task.
pub fn read_finish(id: &str, reply: &StoreReply) -> (r: Response)
    ensures
        r@ == read_finish_spec(id@, reply@),
{
    match reply {
        StoreReply::Array(items) => {
            proof {
                assert(items.deep_view() =~= Seq::new(items@.len(), |i: int| items@[i]@));
            }
            let vals = decode_values(items);
            if vals.len() == 3 {
                Response::OkTask(
                    Task {
                        id: String::from_str(id),
                        title: vals[0].clone(),
                        author: vals[1].clone(),
                        description: vals[2].clone(),
                    },
                )
            } else {
                Response::InternalError
            }
        },
        _ => Response::InternalError,
    }
}

} // verus!
