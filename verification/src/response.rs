//! What the service answers: one of four status lines, and a body.

use vstd::prelude::*;
use vstd::string::*;

verus! {

/// The four outcomes that a reply can report.
#[derive(Clone, Copy, Debug, PartialEq, Eq, Structural)]
pub enum Status {
    /// `200 OK`
    Success,
    /// `400 BAD REQUEST`
    BadRequest,
    /// `404 NOT FOUND`
    NotFound,
    /// `500 INTERNAL ERROR`
    InternalError,
}

impl Status {
    /// The status code.
    pub open spec fn code_of(self) -> u16 {
        match self {
            Status::Success => 200,
            Status::BadRequest => 400,
            Status::NotFound => 404,
            Status::InternalError => 500,
        }
    }

    /// The head of a reply with this status: the status line, the content
    /// type where one is given, and the blank line that ends the head.
    pub open spec fn head_of(self) -> Seq<char> {
        match self {
            Status::Success => "HTTP/1.1 200 OK\r\nContent-Type: application/json\r\n\r\n"@,
            Status::BadRequest => "HTTP/1.1 400 BAD REQUEST\r\nContent-Type: text/plain\r\n\r\n"@,
            Status::NotFound => "HTTP/1.1 404 NOT FOUND\r\n\r\n"@,
            Status::InternalError => "HTTP/1.1 500 INTERNAL ERROR\r\n\r\n"@,
        }
    }

    /// The status code.
    pub fn code(self) -> (code: u16)
        ensures
            code == self.code_of(),
    {
        match self {
            Status::Success => 200,
            Status::BadRequest => 400,
            Status::NotFound => 404,
            Status::InternalError => 500,
        }
    }

    /// The head of a reply with this status.
    pub fn head(self) -> (head: &'static str)
        ensures
            head@ == self.head_of(),
    {
        match self {
            Status::Success => "HTTP/1.1 200 OK\r\nContent-Type: application/json\r\n\r\n",
            Status::BadRequest => "HTTP/1.1 400 BAD REQUEST\r\nContent-Type: text/plain\r\n\r\n",
            Status::NotFound => "HTTP/1.1 404 NOT FOUND\r\n\r\n",
            Status::InternalError => "HTTP/1.1 500 INTERNAL ERROR\r\n\r\n",
        }
    }
}

/// A reply: its status and the text of its body.
#[derive(Clone, Debug, PartialEq, Eq)]
pub struct Response {
    pub status: Status,
    pub body: String,
}

/// A reply as plain values.
pub struct ResponseView {
    pub status: Status,
    pub body: Seq<char>,
}

impl View for Response {
    type V = ResponseView;

    open spec fn view(&self) -> ResponseView {
        ResponseView { status: self.status, body: self.body@ }
    }
}

impl ResponseView {
    /// The reply as it goes out: the head for its status, then the body.
    pub open spec fn text(self) -> Seq<char> {
        self.status.head_of() + self.body
    }
}

impl Response {
    /// A reply with the given status and body.
    pub fn new(status: Status, body: &str) -> (response: Response)
        ensures
            response@ == (ResponseView { status, body: body@ }),
    {
        Response { status, body: body.to_owned() }
    }

    /// The reply as it goes out.
    pub fn to_text(&self) -> (text: String)
        ensures
            text@ == self@.text(),
    {
        let mut text = self.status.head().to_owned();
        text.append(self.body.as_str());
        text
    }
}

} // verus!
