//! The task record, the response type of the three operations, and the
//! user-facing messages.

use vstd::prelude::*;

verus! {

/// A task record as submitted by and returned to callers: three string
/// fields keyed by a caller-chosen `id`.
#[derive(Clone, Debug, PartialEq)]
pub struct Task {
    pub id: String,
    pub title: String,
    pub author: String,
    pub description: String,
}

/// Mathematical model of a task: each field as its character sequence.
pub struct TaskView {
    pub id: Seq<char>,
    pub title: Seq<char>,
    pub author: Seq<char>,
    pub description: Seq<char>,
}

impl View for Task {
    type V = TaskView;

    open spec fn view(&self) -> TaskView {
        TaskView {
            id: self.id@,
            title: self.title@,
            author: self.author@,
            description: self.description@,
        }
    }
}

/// The outcome of one operation, as handed to the transport layer:
/// a status plus, for some outcomes, a body.
#[derive(Clone, Debug, PartialEq)]
pub enum Response {
    /// The record was created (create success; empty body).
    Created,
    /// The record was written (update success; empty body).
    Okay,
    /// The record was read (read success; the task as the body).
    OkTask(Task),
    /// The id is already taken (create; a message as the body).
    Conflict(String),
    /// The id is absent (read and update; a message as the body).
    NotFound(String),
    /// An unexpected store answer, a store-side failure, or a record whose
    /// fields are incomplete.
    InternalError,
}

/// Mathematical model of a response.
pub enum ResponseView {
    Created,
    Okay,
    OkTask(TaskView),
    Conflict(Seq<char>),
    NotFound(Seq<char>),
    InternalError,
}

impl View for Response {
    type V = ResponseView;

    open spec fn view(&self) -> ResponseView {
        match self {
            Response::Created => ResponseView::Created,
            Response::Okay => ResponseView::Okay,
            Response::OkTask(t) => ResponseView::OkTask(t@),
            Response::Conflict(m) => ResponseView::Conflict(m@),
            Response::NotFound(m) => ResponseView::NotFound(m@),
            Response::InternalError => ResponseView::InternalError,
        }
    }
}

/// The HTTP status that each outcome is reported with.
pub open spec fn status_of(r: ResponseView) -> int {
    match r {
        ResponseView::Created => 201,
        ResponseView::Okay => 200,
        ResponseView::OkTask(_) => 200,
        ResponseView::Conflict(_) => 409,
        ResponseView::NotFound(_) => 404,
        ResponseView::InternalError => 500,
    }
}

impl Response {
    /// The HTTP status code of this response.
    pub fn status_code(&self) -> (code: u16)
        ensures
            code as int == status_of(self@),
    {
        match self {
            Response::Created => 201,
            Response::Okay => 200,
            Response::OkTask(_) => 200,
            Response::Conflict(_) => 409,
            Response::NotFound(_) => 404,
            Response::InternalError => 500,
        }
    }
}

/// The message reported when a create finds its id already taken.
pub open spec fn conflict_message(id: Seq<char>) -> Seq<char> {
    "Task with id '"@ + id + "' already exists"@
}

/// The message reported when a read or update finds its id absent.
pub open spec fn missing_message(id: Seq<char>) -> Seq<char> {
    "Task with id '"@ + id + "' doesn't exist"@
}

/// Builds the conflict message for `id`.
pub fn conflict_body(id: &str) -> (r: String)
    ensures
        r@ == conflict_message(id@),
{
    let mut s = String::from_str("Task with id '");
    s.append(id);
    s.append("' already exists");
    s
}

/// Builds the not-found message for `id`.
pub fn missing_body(id: &str) -> (r: String)
    ensures
        r@ == missing_message(id@),
{
    let mut s = String::from_str("Task with id '");
    s.append(id);
    s.append("' doesn't exist");
    s
}

} // verus!
