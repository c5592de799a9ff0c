//! What the service asks of the store, and what the store can answer.
//!
//! The store itself is outside this library: the driver of a connection
//! opens it, runs the one statement that a request stands for, and reports
//! the outcome.

use vstd::prelude::*;
use crate::user::{user_views, User, UserView};

verus! {

/// The one statement that a request stands for.
#[derive(Clone, Debug, PartialEq, Eq)]
pub enum StoreRequest {
    /// Add a row with this name and e-mail address; the store assigns its id.
    Insert { name: String, email: String },
    /// Fetch the row with this id.
    SelectOne { id: i32 },
    /// Fetch all rows.
    SelectAll,
    /// Set name and e-mail address of the row with this id.
    Update { id: i32, name: String, email: String },
    /// Remove the row with this id.
    Delete { id: i32 },
}

/// A statement as plain values.
pub enum StoreRequestView {
    Insert { name: Seq<char>, email: Seq<char> },
    SelectOne { id: i32 },
    SelectAll,
    Update { id: i32, name: Seq<char>, email: Seq<char> },
    Delete { id: i32 },
}

impl View for StoreRequest {
    type V = StoreRequestView;

    open spec fn view(&self) -> StoreRequestView {
        match *self {
            StoreRequest::Insert { name, email } => StoreRequestView::Insert {
                name: name@,
                email: email@,
            },
            StoreRequest::SelectOne { id } => StoreRequestView::SelectOne { id },
            StoreRequest::SelectAll => StoreRequestView::SelectAll,
            StoreRequest::Update { id, name, email } => StoreRequestView::Update {
                id,
                name: name@,
                email: email@,
            },
            StoreRequest::Delete { id } => StoreRequestView::Delete { id },
        }
    }
}

/// The outcome of a statement.
#[derive(Clone, Debug, PartialEq, Eq)]
pub enum StoreReply {
    /// The store could not be reached.
    Unreachable,
    /// The statement failed.
    Failed,
    /// The statement ran and changed this many rows.
    Affected(u64),
    /// The row that `SelectOne` found.
    Row(User),
    /// `SelectOne` ran and found no row with the id.
    NoRow,
    /// The rows that `SelectAll` found.
    Rows(Vec<User>),
}

/// An outcome as plain values.
pub enum StoreReplyView {
    Unreachable,
    Failed,
    Affected(u64),
    Row(UserView),
    NoRow,
    Rows(Seq<UserView>),
}

impl View for StoreReply {
    type V = StoreReplyView;

    open spec fn view(&self) -> StoreReplyView {
        match *self {
            StoreReply::Unreachable => StoreReplyView::Unreachable,
            StoreReply::Failed => StoreReplyView::Failed,
            StoreReply::Affected(n) => StoreReplyView::Affected(n),
            StoreReply::Row(user) => StoreReplyView::Row(user@),
            StoreReply::NoRow => StoreReplyView::NoRow,
            StoreReply::Rows(users) => StoreReplyView::Rows(user_views(users@)),
        }
    }
}

} // verus!
