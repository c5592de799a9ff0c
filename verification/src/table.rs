//! A table of users as plain values: what a store that can be reached and
//! does not fail answers to each statement, and what the statement leaves
//! behind. The laws of the service are stated against it; no code runs it.

use vstd::prelude::*;
use crate::store::{StoreReplyView, StoreRequestView};
use crate::user::UserView;

verus! {

/// The rows of the table: name and e-mail address, by id.
pub type Table = Map<i32, (Seq<char>, Seq<char>)>;

/// The row with the given id as a user record.
pub open spec fn row_of(table: Table, id: i32) -> UserView {
    UserView { id: Some(id), name: table[id].0, email: table[id].1 }
}

/// Whether `order` names each row of the table once: an order in which the
/// rows can come out.
pub open spec fn lists(order: Seq<i32>, table: Table) -> bool {
    order.no_duplicates() && order.to_set() == table.dom()
}

/// The rows of the table in the given order.
pub open spec fn rows_of(table: Table, order: Seq<i32>) -> Seq<UserView> {
    Seq::new(order.len(), |i: int| row_of(table, order[i]))
}

/// What the table answers to a statement. `order` is the order in which
/// all rows come out.
pub open spec fn answer_of(
    table: Table,
    request: StoreRequestView,
    order: Seq<i32>,
) -> StoreReplyView {
    match request {
        StoreRequestView::Insert { .. } => StoreReplyView::Affected(1),
        StoreRequestView::SelectOne { id } => if table.dom().contains(id) {
            StoreReplyView::Row(row_of(table, id))
        } else {
            StoreReplyView::NoRow
        },
        StoreRequestView::SelectAll => StoreReplyView::Rows(rows_of(table, order)),
        StoreRequestView::Update { id, .. } => if table.dom().contains(id) {
            StoreReplyView::Affected(1)
        } else {
            StoreReplyView::Affected(0)
        },
        StoreRequestView::Delete { id } => if table.dom().contains(id) {
            StoreReplyView::Affected(1)
        } else {
            StoreReplyView::Affected(0)
        },
    }
}

/// The table after a statement. `fresh` is the id that a new row gets.
pub open spec fn table_after(table: Table, request: StoreRequestView, fresh: i32) -> Table {
    match request {
        StoreRequestView::Insert { name, email } => table.insert(fresh, (name, email)),
        StoreRequestView::SelectOne { .. } => table,
        StoreRequestView::SelectAll => table,
        StoreRequestView::Update { id, name, email } => if table.dom().contains(id) {
            table.insert(id, (name, email))
        } else {
            table
        },
        StoreRequestView::Delete { id } => table.remove(id),
    }
}

} // verus!
