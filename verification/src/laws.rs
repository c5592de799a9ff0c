//! What holds of the service as a whole.

use vstd::prelude::*;
use crate::connection::{
    dispatch_of, handed_on, reply_of, step_of, ActionView, EventView, StateView,
};
use crate::framing::{content_length, RequestView};
use crate::response::Status;
use crate::routing::{first_line_of, id_of, id_segment, route_of, route_of_line, Route};
use crate::store::{StoreReplyView, StoreRequestView};
use crate::table::{answer_of, lists, row_of, rows_of, table_after, Table};
use crate::text::{has_prefix, lemma_position, lemma_position_is, position, CharClass};
use crate::user::UserView;

verus! {

/// A text that begins with `p` holds the characters of `p`, one by one.
pub proof fn lemma_prefix_chars(s: Seq<char>, p: Seq<char>)
    requires
        has_prefix(s, p),
    ensures
        p.len() <= s.len(),
        forall|i: int| 0 <= i < p.len() ==> s[i] == p[i],
{
    assert forall|i: int| 0 <= i < p.len() implies s[i] == p[i] by {
        assert(s.subrange(0, p.len() as int)[i] == p[i]);
    }
}

/// A request begins with `p` exactly when its first line does, for a `p`
/// that holds no line feed and no carriage return.
pub proof fn lemma_first_line_prefix(request: Seq<char>, p: Seq<char>)
    requires
        forall|i: int| 0 <= i < p.len() ==> p[i] != '\n' && p[i] != '\r',
    ensures
        has_prefix(first_line_of(request), p) == has_prefix(request, p),
{
    let end = position(request, 0, CharClass::LineFeed);
    lemma_position(request, 0, CharClass::LineFeed);
    let line = first_line_of(request);
    if has_prefix(line, p) {
        assert(request.subrange(0, p.len() as int) =~= line.subrange(0, p.len() as int));
    }
    if has_prefix(request, p) {
        lemma_prefix_chars(request, p);
        if end < p.len() {
            assert(request[end] == p[end]);
        }
        if 0 < end < request.len() && request[end - 1] == '\r' && end - 1 < p.len() {
            assert(request[end - 1] == p[end - 1]);
        }
        assert(request.subrange(0, p.len() as int) =~= line.subrange(0, p.len() as int));
    }
}

/// The router tries `GET /users/` before `GET /users`: a request line that
/// begins with `GET /users/` goes to the handler for one user and never to
/// the one for all users, and a line that begins with `GET /users` with no
/// `/` behind it goes to the handler for all users and never to the one for
/// one user.
pub proof fn lemma_read_one_before_read_all(line: Seq<char>)
    ensures
        has_prefix(line, "GET /users/"@) ==> route_of_line(line) == Route::ReadOne,
        has_prefix(line, "GET /users"@) && !has_prefix(line, "GET /users/"@) ==> route_of_line(
            line,
        ) == Route::ReadAll,
{
    // A line cannot begin both with `P` and with `G`.
    reveal_strlit("POST /users");
    reveal_strlit("GET /users/");
    reveal_strlit("GET /users");
    if has_prefix(line, "POST /users"@) {
        lemma_prefix_chars(line, "POST /users"@);
        assert(line[0] == 'P');
    }
    if has_prefix(line, "GET /users/"@) {
        lemma_prefix_chars(line, "GET /users/"@);
        assert(line[0] == 'G');
    }
    if has_prefix(line, "GET /users"@) {
        lemma_prefix_chars(line, "GET /users"@);
        assert(line[0] == 'G');
    }
}

/// The same of whole requests: one that begins with `GET /users/` goes to
/// the handler for one user, and one that begins with `GET /users` with no
/// `/` behind it goes to the handler for all users.
pub proof fn lemma_requests_read_one_before_read_all(request: Seq<char>)
    ensures
        has_prefix(request, "GET /users/"@) ==> route_of(request) == Route::ReadOne,
        has_prefix(request, "GET /users"@) && !has_prefix(request, "GET /users/"@) ==> route_of(
            request,
        ) == Route::ReadAll,
{
    reveal_strlit("GET /users/");
    reveal_strlit("GET /users");
    lemma_first_line_prefix(request, "GET /users/"@);
    lemma_first_line_prefix(request, "GET /users"@);
    lemma_read_one_before_read_all(first_line_of(request));
}

/// In a request that begins with `p`, where `p` ends with its second `/`,
/// the identifier is what follows `p`, up to the next `/` or white space,
/// or to the end of the request.
pub proof fn lemma_id_follows(request: Seq<char>, p: Seq<char>, first: int)
    requires
        has_prefix(request, p),
        0 <= first < p.len() - 1,
        forall|k: int| 0 <= k < p.len() ==> (#[trigger] p[k] == '/' <==> k == first || k == p.len() - 1),
    ensures
        id_segment(request) == request.subrange(
            p.len() as int,
            position(request, p.len() as int, CharClass::SegmentEnd),
        ),
{
    lemma_prefix_chars(request, p);
    let second = p.len() - 1;
    assert forall|k: int| 0 <= k < first implies !CharClass::Slash.has(#[trigger] request[k]) by {
        assert(p[k] != '/');
    }
    assert(p[first] == '/');
    lemma_position_is(request, 0, CharClass::Slash, first);
    assert forall|k: int| first + 1 <= k < second implies !CharClass::Slash.has(
        #[trigger] request[k],
    ) by {
        assert(p[k] != '/');
    }
    assert(p[second] == '/');
    lemma_position_is(request, first + 1, CharClass::Slash, second);
}

/// In a request that begins with `GET /users/`, `PUT /users/` or
/// `DELETE /users/`, the identifier is what follows that beginning, up to
/// the next `/` or white space, or to the end of the request.
pub proof fn lemma_id_follows_users(request: Seq<char>)
    ensures
        has_prefix(request, "GET /users/"@) ==> id_segment(request) == request.subrange(
            11,
            position(request, 11, CharClass::SegmentEnd),
        ),
        has_prefix(request, "PUT /users/"@) ==> id_segment(request) == request.subrange(
            11,
            position(request, 11, CharClass::SegmentEnd),
        ),
        has_prefix(request, "DELETE /users/"@) ==> id_segment(request) == request.subrange(
            14,
            position(request, 14, CharClass::SegmentEnd),
        ),
{
    reveal_strlit("GET /users/");
    reveal_strlit("PUT /users/");
    reveal_strlit("DELETE /users/");
    if has_prefix(request, "GET /users/"@) {
        lemma_id_follows(request, "GET /users/"@, 4);
    }
    if has_prefix(request, "PUT /users/"@) {
        lemma_id_follows(request, "PUT /users/"@, 4);
    }
    if has_prefix(request, "DELETE /users/"@) {
        lemma_id_follows(request, "DELETE /users/"@, 7);
    }
}

/// Every request that goes to the handlers is framed: whatever the state
/// and the event, the request that a step hands on has a body of just the
/// length that its header block declares, and an empty one where the
/// header block declares none.
pub proof fn lemma_handed_on_request_is_framed(state: StateView, event: EventView)
    ensures
        match handed_on(state, event) {
            Some(request) => {
                &&& step_of(state, event) == dispatch_of(request)
                &&& request.is_framed()
                &&& content_length(request.head) == 0 ==> request.body == Seq::<u8>::empty()
            },
            None => true,
        },
{
    match handed_on(state, event) {
        Some(request) => {
            if content_length(request.head) == 0 {
                assert(request.body =~= Seq::<u8>::empty());
            }
        },
        None => {},
    }
}

/// What goes to the decoder is the body of a framed request: a step that
/// asks for bytes to be decoded hands a request on, and the bytes are its
/// body, of just the length that its header block declares.
pub proof fn lemma_decoded_body_has_declared_length(state: StateView, event: EventView)
    ensures
        step_of(state, event).1 matches ActionView::Decode(body) ==> {
            &&& handed_on(state, event) matches Some(request)
            &&& request.body == body
            &&& body.len() == content_length(request.head)
        },
{
    lemma_handed_on_request_is_framed(state, event);
}

/// A user that was created is read back as it was stored: where a request
/// to create a user decodes to `user` and the store gives the new row the
/// id `fresh`, the reply is `200`, and a request to read the user with that
/// id then has a record with that id and the name and e-mail address of
/// `user` encoded, and answers `200` with the encoded text.
pub proof fn lemma_created_user_is_read_back(
    table: Table,
    create: RequestView,
    user: UserView,
    fresh: i32,
    read: RequestView,
    order: Seq<i32>,
    encoded: Seq<char>,
)
    requires
        route_of(create.head) == Route::Create,
        !table.dom().contains(fresh),
        route_of(read.head) == Route::ReadOne,
        id_of(read.head) == Some(fresh),
    ensures
        ({
            let insert = StoreRequestView::Insert { name: user.name, email: user.email };
            let select = StoreRequestView::SelectOne { id: fresh };
            let decoding = dispatch_of(create).0;
            let storing = step_of(decoding, EventView::Decoded(user));
            let created = step_of(storing.0, EventView::Stored(answer_of(table, insert, order)));
            let table = table_after(table, insert, fresh);
            let asking = dispatch_of(read);
            let encoding = step_of(asking.0, EventView::Stored(answer_of(table, select, order)));
            let written = step_of(encoding.0, EventView::Encoded(encoded));
            &&& storing.1 == ActionView::Store(insert)
            &&& created == reply_of(Status::Success, "User created"@)
            &&& asking.1 == ActionView::Store(select)
            &&& encoding.1 == ActionView::EncodeOne(
                UserView { id: Some(fresh), name: user.name, email: user.email },
            )
            &&& written == reply_of(Status::Success, encoded)
        }),
{
}

/// A request to read the user with an id that the table does not hold is
/// answered `404`, whatever else the table holds.
pub proof fn lemma_absent_user_is_not_found(
    table: Table,
    read: RequestView,
    id: i32,
    order: Seq<i32>,
)
    requires
        route_of(read.head) == Route::ReadOne,
        id_of(read.head) == Some(id),
        !table.dom().contains(id),
    ensures
        ({
            let select = StoreRequestView::SelectOne { id };
            let asking = dispatch_of(read);
            let answered = step_of(asking.0, EventView::Stored(answer_of(table, select, order)));
            &&& asking.1 == ActionView::Store(select)
            &&& answered == reply_of(Status::NotFound, "User not found"@)
        }),
{
}

/// A request to change the user with an id that the table does not hold is
/// answered `404` and leaves the table as it was.
pub proof fn lemma_update_of_absent_user_changes_nothing(
    table: Table,
    change: RequestView,
    id: i32,
    user: UserView,
    fresh: i32,
    order: Seq<i32>,
)
    requires
        route_of(change.head) == Route::Update,
        id_of(change.head) == Some(id),
        !table.dom().contains(id),
    ensures
        ({
            let update = StoreRequestView::Update { id, name: user.name, email: user.email };
            let decoding = dispatch_of(change).0;
            let storing = step_of(decoding, EventView::Decoded(user));
            let answered = step_of(storing.0, EventView::Stored(answer_of(table, update, order)));
            &&& storing.1 == ActionView::Store(update)
            &&& table_after(table, update, fresh) == table
            &&& answered == reply_of(Status::NotFound, "User not found for update"@)
        }),
{
}

/// A request to remove a user, sent a second time, is answered `404`:
/// after the first one the table holds no row with the id, whether it held
/// one before or not.
pub proof fn lemma_second_delete_is_not_found(
    table: Table,
    remove: RequestView,
    id: i32,
    fresh: i32,
    order: Seq<i32>,
)
    requires
        route_of(remove.head) == Route::Delete,
        id_of(remove.head) == Some(id),
    ensures
        ({
            let delete = StoreRequestView::Delete { id };
            let asking = dispatch_of(remove);
            let left = table_after(table, delete, fresh);
            let answered = step_of(asking.0, EventView::Stored(answer_of(left, delete, order)));
            &&& asking.1 == ActionView::Store(delete)
            &&& !left.dom().contains(id)
            &&& table_after(left, delete, fresh) == left
            &&& answered == reply_of(Status::NotFound, "User not found"@)
        }),
{
    let delete = StoreRequestView::Delete { id };
    let left = table_after(table, delete, fresh);
    assert(left.remove(id) =~= left);
}

/// A request to read all users has as many records encoded as the table
/// holds rows, each row once, in the order in which the store gave them.
pub proof fn lemma_read_all_gives_every_row(table: Table, read: RequestView, order: Seq<i32>)
    requires
        route_of(read.head) == Route::ReadAll,
        lists(order, table),
    ensures
        ({
            let asking = dispatch_of(read);
            let encoding = step_of(
                asking.0,
                EventView::Stored(answer_of(table, StoreRequestView::SelectAll, order)),
            );
            &&& asking.1 == ActionView::Store(StoreRequestView::SelectAll)
            &&& encoding.1 == ActionView::EncodeAll(rows_of(table, order))
            &&& rows_of(table, order).len() == table.dom().len()
            &&& forall|i: int|
                0 <= i < order.len() ==> #[trigger] rows_of(table, order)[i] == row_of(
                    table,
                    order[i],
                )
            &&& forall|id: i32| table.dom().contains(id) <==> order.contains(id)
        }),
{
    order.unique_seq_to_set();
    assert forall|id: i32| table.dom().contains(id) <==> order.contains(id) by {
        assert(order.to_set().contains(id) <==> order.contains(id));
    }
}

/// A statement that failed is answered `500` by every handler, and so is
/// a store that could not be reached; `404` is for a row that is not there.
pub proof fn lemma_store_failure_is_internal_error(route: Route, failure: EventView)
    requires
        route != Route::NotFound,
        failure == EventView::Stored(StoreReplyView::Failed) || failure
            == EventView::Stored(StoreReplyView::Unreachable),
    ensures
        step_of(StateView::Storing { route }, failure).0 == StateView::Closed,
        step_of(StateView::Storing { route }, failure).1 matches ActionView::Write(response)
            && response.status == Status::InternalError,
{
}

} // verus!
