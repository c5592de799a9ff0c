//! One connection, from the first bytes read to the reply written.
//!
//! The library decides and the driver acts: the driver hands in an `Event`,
//! `State::step` answers with the next state and the `Action` to perform,
//! and the outcome of that action is the next event. Reading, decoding and
//! encoding JSON, and talking to the store are the driver's part.

use vstd::prelude::*;
use vstd::slice::slice_to_vec;
use vstd::string::*;
use crate::framing::{
    body_read, bytes_to_read, content_length, cut_request, header_block, missing_body_bytes,
    split_request, text_of, text_of_bytes, whole_request, Request, RequestView,
};
use crate::response::{Response, ResponseView, Status};
use crate::routing::{id_of, request_id, route, route_of, Route};
use crate::store::{StoreReply, StoreReplyView, StoreRequest, StoreRequestView};
use crate::user::{user_views, User, UserView};

verus! {

/// The most bytes that the first read of a connection asks for.
pub const FIRST_READ: usize = 4096;

/// What happened on the driver's side.
#[derive(Clone, Debug, PartialEq, Eq)]
pub enum Event {
    /// The first read gave these bytes.
    Chunk(Vec<u8>),
    /// The read of the missing body bytes gave these bytes.
    Body(Vec<u8>),
    /// A read failed, or the stream ended early.
    ReadFailed,
    /// The body decoded to this user.
    Decoded(User),
    /// The body did not decode; the text is the decoder's message.
    DecodeFailed(String),
    /// The store answered.
    Stored(StoreReply),
    /// The JSON text of what was to be encoded.
    Encoded(String),
}

/// An event as plain values.
pub enum EventView {
    Chunk(Seq<u8>),
    Body(Seq<u8>),
    ReadFailed,
    Decoded(UserView),
    DecodeFailed(Seq<char>),
    Stored(StoreReplyView),
    Encoded(Seq<char>),
}

impl View for Event {
    type V = EventView;

    open spec fn view(&self) -> EventView {
        match *self {
            Event::Chunk(bytes) => EventView::Chunk(bytes@),
            Event::Body(bytes) => EventView::Body(bytes@),
            Event::ReadFailed => EventView::ReadFailed,
            Event::Decoded(user) => EventView::Decoded(user@),
            Event::DecodeFailed(message) => EventView::DecodeFailed(message@),
            Event::Stored(reply) => EventView::Stored(reply@),
            Event::Encoded(text) => EventView::Encoded(text@),
        }
    }
}

/// What the driver is to do next.
#[derive(Clone, Debug, PartialEq, Eq)]
pub enum Action {
    /// Read exactly this many bytes more, and report them as `Event::Body`.
    ReadExact(usize),
    /// Decode these bytes as the JSON of a user.
    Decode(Vec<u8>),
    /// Open the store and run this statement.
    Store(StoreRequest),
    /// Encode this user as JSON.
    EncodeOne(User),
    /// Encode these users as a JSON array.
    EncodeAll(Vec<User>),
    /// Write this reply and close the connection.
    Write(Response),
    /// Close the connection and write nothing.
    Close,
}

/// An action as plain values.
pub enum ActionView {
    ReadExact(usize),
    Decode(Seq<u8>),
    Store(StoreRequestView),
    EncodeOne(UserView),
    EncodeAll(Seq<UserView>),
    Write(ResponseView),
    Close,
}

impl View for Action {
    type V = ActionView;

    open spec fn view(&self) -> ActionView {
        match *self {
            Action::ReadExact(n) => ActionView::ReadExact(n),
            Action::Decode(bytes) => ActionView::Decode(bytes@),
            Action::Store(request) => ActionView::Store(request@),
            Action::EncodeOne(user) => ActionView::EncodeOne(user@),
            Action::EncodeAll(users) => ActionView::EncodeAll(user_views(users@)),
            Action::Write(response) => ActionView::Write(response@),
            Action::Close => ActionView::Close,
        }
    }
}

/// Where a connection stands.
#[derive(Clone, Debug, PartialEq, Eq)]
pub enum State {
    /// Nothing was read yet.
    Accepted,
    /// The first chunk gave the header block `head` and the first bytes
    /// `body` of the body; the rest of the body is awaited.
    AwaitingBody { head: String, body: Vec<u8> },
    /// The body is being decoded: for a new user where `id` is `None`, for
    /// a change to the user with that id otherwise.
    Decoding { id: Option<i32> },
    /// The store was asked on behalf of the handler `route`.
    Storing { route: Route },
    /// What the store gave is being encoded.
    Encoding,
    /// The connection is done.
    Closed,
}

/// A state as plain values.
pub enum StateView {
    Accepted,
    AwaitingBody { head: Seq<char>, body: Seq<u8> },
    Decoding { id: Option<i32> },
    Storing { route: Route },
    Encoding,
    Closed,
}

impl View for State {
    type V = StateView;

    open spec fn view(&self) -> StateView {
        match *self {
            State::Accepted => StateView::Accepted,
            State::AwaitingBody { head, body } => StateView::AwaitingBody {
                head: head@,
                body: body@,
            },
            State::Decoding { id } => StateView::Decoding { id },
            State::Storing { route } => StateView::Storing { route },
            State::Encoding => StateView::Encoding,
            State::Closed => StateView::Closed,
        }
    }
}

/// The connection ends with this reply.
pub open spec fn reply_of(status: Status, body: Seq<char>) -> (StateView, ActionView) {
    (StateView::Closed, ActionView::Write(ResponseView { status, body }))
}

/// The connection ends with nothing written.
pub open spec fn close_of() -> (StateView, ActionView) {
    (StateView::Closed, ActionView::Close)
}

/// The store is asked on behalf of the handler `route`.
pub open spec fn ask_of(route: Route, request: StoreRequestView) -> (StateView, ActionView) {
    (StateView::Storing { route }, ActionView::Store(request))
}

/// What a framed request leads to. The first line of its header block
/// picks the handler. A request to create a user has its body decoded; one
/// to read, change or remove a user needs a number in its path and is
/// answered `404` without one; one to change a user then has its body
/// decoded, the others go to the store; one that no handler is for is
/// answered `404`.
pub open spec fn dispatch_of(request: RequestView) -> (StateView, ActionView) {
    match route_of(request.head) {
        Route::Create => (StateView::Decoding { id: None }, ActionView::Decode(request.body)),
        Route::ReadOne => match id_of(request.head) {
            Some(id) => ask_of(Route::ReadOne, StoreRequestView::SelectOne { id }),
            None => reply_of(Status::NotFound, "Invalid ID or ID missing"@),
        },
        Route::ReadAll => ask_of(Route::ReadAll, StoreRequestView::SelectAll),
        Route::Update => match id_of(request.head) {
            Some(id) => (StateView::Decoding { id: Some(id) }, ActionView::Decode(request.body)),
            None => reply_of(Status::NotFound, "Invalid ID or ID missing"@),
        },
        Route::Delete => match id_of(request.head) {
            Some(id) => ask_of(Route::Delete, StoreRequestView::Delete { id }),
            None => reply_of(Status::NotFound, "Invalid ID or ID missing"@),
        },
        Route::NotFound => reply_of(Status::NotFound, "404 not found"@),
    }
}

/// What the first chunk of a connection leads to. Where it holds fewer
/// body bytes than its header block declares, the missing ones are read.
/// Where it holds them all, the request is its header block with just the
/// declared number of body bytes, and what came behind them is dropped.
pub open spec fn framed_of(chunk: Seq<u8>) -> (StateView, ActionView) {
    let text = text_of(chunk);
    let missing = missing_body_bytes(text);
    if missing > 0 {
        (
            StateView::AwaitingBody { head: header_block(text), body: body_read(text) },
            ActionView::ReadExact(missing as usize),
        )
    } else {
        dispatch_of(whole_request(chunk))
    }
}

/// What the rest of a body leads to: the request with the body of both
/// reads, where it has the length that the header block declares; where it
/// has any other length, the connection ends with nothing written.
pub open spec fn joined_of(head: Seq<char>, body: Seq<u8>, rest: Seq<u8>) -> (
    StateView,
    ActionView,
) {
    if (body + rest).len() == content_length(head) {
        dispatch_of(RequestView { head, body: body + rest })
    } else {
        close_of()
    }
}

/// The request that a step hands to the handlers, where it hands one on.
pub open spec fn handed_on(state: StateView, event: EventView) -> Option<RequestView> {
    match (state, event) {
        (StateView::Accepted, EventView::Chunk(chunk)) => if missing_body_bytes(text_of(chunk))
            > 0 {
            None
        } else {
            Some(whole_request(chunk))
        },
        (StateView::AwaitingBody { head, body }, EventView::Body(rest)) => if (body + rest).len()
            == content_length(head) {
            Some(RequestView { head, body: body + rest })
        } else {
            None
        },
        _ => None,
    }
}

/// What a decoded body leads to: the statement that stores the new user, or
/// the one that changes the user with the id of the path. Of the decoded
/// record only name and e-mail address are used.
pub open spec fn decoded_of(id: Option<i32>, user: UserView) -> (StateView, ActionView) {
    match id {
        None => ask_of(
            Route::Create,
            StoreRequestView::Insert { name: user.name, email: user.email },
        ),
        Some(id) => ask_of(
            Route::Update,
            StoreRequestView::Update { id, name: user.name, email: user.email },
        ),
    }
}

/// The reply to a body that did not decode: `400` in both cases, with the
/// decoder's message where a user was to be created.
pub open spec fn undecoded_of(id: Option<i32>, message: Seq<char>) -> (StateView, ActionView) {
    match id {
        None => reply_of(Status::BadRequest, "Invalid user data: "@ + message),
        Some(_) => reply_of(Status::BadRequest, "Invalid user data"@),
    }
}

/// What the store's answer leads to, for each handler.
///
/// A store that could not be reached and a statement that failed give
/// `500`. A read that found no row with the id, and a change or removal
/// that ran and affected no row, give `404`. Rows that were read are handed
/// on to be encoded. An answer of a kind that the handler's statement
/// cannot have ends the connection with nothing written.
pub open spec fn stored_of(route: Route, reply: StoreReplyView) -> (StateView, ActionView) {
    match (route, reply) {
        (Route::NotFound, _) => close_of(),
        (_, StoreReplyView::Unreachable) => reply_of(Status::InternalError, "Internal error"@),
        (Route::ReadOne, StoreReplyView::Failed) => reply_of(
            Status::InternalError,
            "Error querying users"@,
        ),
        (Route::ReadAll, StoreReplyView::Failed) => reply_of(
            Status::InternalError,
            "Error querying users"@,
        ),
        (_, StoreReplyView::Failed) => reply_of(Status::InternalError, "DB error"@),
        (Route::Create, StoreReplyView::Affected(_)) => reply_of(Status::Success, "User created"@),
        (Route::ReadOne, StoreReplyView::NoRow) => reply_of(Status::NotFound, "User not found"@),
        (Route::ReadOne, StoreReplyView::Row(user)) => (
            StateView::Encoding,
            ActionView::EncodeOne(user),
        ),
        (Route::ReadAll, StoreReplyView::Rows(users)) => (
            StateView::Encoding,
            ActionView::EncodeAll(users),
        ),
        (Route::Update, StoreReplyView::Affected(n)) => if n == 0 {
            reply_of(Status::NotFound, "User not found for update"@)
        } else {
            reply_of(Status::Success, "User updated"@)
        },
        (Route::Delete, StoreReplyView::Affected(n)) => if n == 0 {
            reply_of(Status::NotFound, "User not found"@)
        } else {
            reply_of(Status::Success, "User deleted"@)
        },
        _ => close_of(),
    }
}

/// The next state and the action for an event in a state. An event that
/// does not answer the action last asked for, a failed read, and a body of
/// another length than the header block declares end the connection with
/// nothing written.
pub open spec fn step_of(state: StateView, event: EventView) -> (StateView, ActionView) {
    match (state, event) {
        (StateView::Accepted, EventView::Chunk(chunk)) => framed_of(chunk),
        (StateView::AwaitingBody { head, body }, EventView::Body(rest)) => joined_of(
            head,
            body,
            rest,
        ),
        (StateView::Decoding { id }, EventView::Decoded(user)) => decoded_of(id, user),
        (StateView::Decoding { id }, EventView::DecodeFailed(message)) => undecoded_of(
            id,
            message,
        ),
        (StateView::Storing { route }, EventView::Stored(reply)) => stored_of(route, reply),
        (StateView::Encoding, EventView::Encoded(text)) => reply_of(Status::Success, text),
        _ => close_of(),
    }
}

/// Ends the connection with a reply.
fn reply(status: Status, body: &str) -> (r: (State, Action))
    ensures
        (r.0@, r.1@) == reply_of(status, body@),
{
    (State::Closed, Action::Write(Response::new(status, body)))
}

/// Decides what a framed request leads to.
pub fn dispatch(request: Request) -> (r: (State, Action))
    ensures
        (r.0@, r.1@) == dispatch_of(request@),
        request@.is_framed(),
{
    let head = request.head();
    match route(head) {
        Route::Create => (State::Decoding { id: None }, Action::Decode(request.into_body())),
        Route::ReadOne => match request_id(head) {
            Some(id) => (
                State::Storing { route: Route::ReadOne },
                Action::Store(StoreRequest::SelectOne { id }),
            ),
            None => reply(Status::NotFound, "Invalid ID or ID missing"),
        },
        Route::ReadAll => (
            State::Storing { route: Route::ReadAll },
            Action::Store(StoreRequest::SelectAll),
        ),
        Route::Update => match request_id(head) {
            Some(id) => (
                State::Decoding { id: Some(id) },
                Action::Decode(request.into_body()),
            ),
            None => reply(Status::NotFound, "Invalid ID or ID missing"),
        },
        Route::Delete => match request_id(head) {
            Some(id) => (
                State::Storing { route: Route::Delete },
                Action::Store(StoreRequest::Delete { id }),
            ),
            None => reply(Status::NotFound, "Invalid ID or ID missing"),
        },
        Route::NotFound => reply(Status::NotFound, "404 not found"),
    }
}

/// Decides what the first chunk of a connection leads to.
pub fn framed(chunk: &[u8]) -> (r: (State, Action))
    ensures
        (r.0@, r.1@) == framed_of(chunk@),
{
    let text = text_of_bytes(chunk);
    match cut_request(text) {
        Some(request) => dispatch(request),
        None => {
            let (headers, rest) = split_request(text);
            (
                State::AwaitingBody {
                    head: headers.to_owned(),
                    body: slice_to_vec(rest.as_bytes()),
                },
                Action::ReadExact(bytes_to_read(text)),
            )
        },
    }
}

/// Decides what the rest of a body leads to.
pub fn joined(head: &str, body: Vec<u8>, rest: Vec<u8>) -> (r: (State, Action))
    ensures
        (r.0@, r.1@) == joined_of(head@, body@, rest@),
{
    let mut body = body;
    let mut rest = rest;
    body.append(&mut rest);
    match Request::new(head, body) {
        Some(request) => dispatch(request),
        None => (State::Closed, Action::Close),
    }
}

/// Decides what a decoded body leads to.
pub fn decoded(id: Option<i32>, user: User) -> (r: (State, Action))
    ensures
        (r.0@, r.1@) == decoded_of(id, user@),
{
    let User { id: _, name, email } = user;
    match id {
        None => (
            State::Storing { route: Route::Create },
            Action::Store(StoreRequest::Insert { name, email }),
        ),
        Some(id) => (
            State::Storing { route: Route::Update },
            Action::Store(StoreRequest::Update { id, name, email }),
        ),
    }
}

/// Decides the reply to a body that did not decode.
pub fn undecoded(id: Option<i32>, message: &str) -> (r: (State, Action))
    ensures
        (r.0@, r.1@) == undecoded_of(id, message@),
{
    match id {
        None => {
            let mut body = "Invalid user data: ".to_owned();
            body.append(message);
            reply(Status::BadRequest, body.as_str())
        },
        Some(_) => reply(Status::BadRequest, "Invalid user data"),
    }
}

/// Decides what the store's answer leads to.
pub fn stored(route: Route, answer: StoreReply) -> (r: (State, Action))
    ensures
        (r.0@, r.1@) == stored_of(route, answer@),
{
    match (route, answer) {
        (Route::NotFound, _) => (State::Closed, Action::Close),
        (_, StoreReply::Unreachable) => reply(Status::InternalError, "Internal error"),
        (Route::ReadOne, StoreReply::Failed) => reply(
            Status::InternalError,
            "Error querying users",
        ),
        (Route::ReadAll, StoreReply::Failed) => reply(
            Status::InternalError,
            "Error querying users",
        ),
        (_, StoreReply::Failed) => reply(Status::InternalError, "DB error"),
        (Route::Create, StoreReply::Affected(_)) => reply(Status::Success, "User created"),
        (Route::ReadOne, StoreReply::NoRow) => reply(Status::NotFound, "User not found"),
        (Route::ReadOne, StoreReply::Row(user)) => (State::Encoding, Action::EncodeOne(user)),
        (Route::ReadAll, StoreReply::Rows(users)) => (State::Encoding, Action::EncodeAll(users)),
        (Route::Update, StoreReply::Affected(n)) => if n == 0 {
            reply(Status::NotFound, "User not found for update")
        } else {
            reply(Status::Success, "User updated")
        },
        (Route::Delete, StoreReply::Affected(n)) => if n == 0 {
            reply(Status::NotFound, "User not found")
        } else {
            reply(Status::Success, "User deleted")
        },
        _ => (State::Closed, Action::Close),
    }
}

impl State {
    /// The state of a connection that was just accepted. Its driver reads
    /// up to `FIRST_READ` bytes and reports them as `Event::Chunk`.
    pub fn start() -> (state: State)
        ensures
            state@ == StateView::Accepted,
    {
        State::Accepted
    }

    /// Takes an event in, and gives the next state and the action to perform.
    pub fn step(self, event: Event) -> (r: (State, Action))
        ensures
            (r.0@, r.1@) == step_of(self@, event@),
    {
        match (self, event) {
            (State::Accepted, Event::Chunk(chunk)) => framed(chunk.as_slice()),
            (State::AwaitingBody { head, body }, Event::Body(rest)) => joined(
                head.as_str(),
                body,
                rest,
            ),
            (State::Decoding { id }, Event::Decoded(user)) => decoded(id, user),
            (State::Decoding { id }, Event::DecodeFailed(message)) => undecoded(
                id,
                message.as_str(),
            ),
            (State::Storing { route }, Event::Stored(answer)) => stored(route, answer),
            (State::Encoding, Event::Encoded(text)) => (
                State::Closed,
                Action::Write(Response { status: Status::Success, body: text }),
            ),
            _ => (State::Closed, Action::Close),
        }
    }
}

} // verus!
