//! Routing: which handler a request goes to, and the identifier in its path.

use vstd::prelude::*;
use vstd::slice::slice_subrange;
use vstd::string::*;
use crate::number::{i32_decimal, parse_i32};
use crate::text::{
    chars_of, find_class, has_prefix, lemma_position, position, starts_with_at, CharClass,
};

verus! {

/// The handler that a request goes to.
#[derive(Clone, Copy, Debug, PartialEq, Eq, Structural)]
pub enum Route {
    /// `POST /users`: store a new user.
    Create,
    /// `GET /users/{id}`: fetch one user.
    ReadOne,
    /// `GET /users`: fetch all users.
    ReadAll,
    /// `PUT /users/{id}`: change a user.
    Update,
    /// `DELETE /users/{id}`: remove a user.
    Delete,
    /// Anything else.
    NotFound,
}

/// The first line of `s`: what stands before the first line feed, without
/// the carriage return that may precede that line feed.
pub open spec fn first_line_of(s: Seq<char>) -> Seq<char> {
    let end = position(s, 0, CharClass::LineFeed);
    if 0 < end < s.len() && s[end - 1] == '\r' {
        s.take(end - 1)
    } else {
        s.take(end)
    }
}

/// The handler for a request line. The patterns are tried in this order,
/// and the first that the line begins with decides; `GET /users/` stands
/// before `GET /users`, which it begins with.
pub open spec fn route_of_line(line: Seq<char>) -> Route {
    if has_prefix(line, "POST /users"@) {
        Route::Create
    } else if has_prefix(line, "GET /users/"@) {
        Route::ReadOne
    } else if has_prefix(line, "GET /users"@) {
        Route::ReadAll
    } else if has_prefix(line, "PUT /users/"@) {
        Route::Update
    } else if has_prefix(line, "DELETE /users/"@) {
        Route::Delete
    } else {
        Route::NotFound
    }
}

/// The handler for the request `s`, which its first line alone decides.
pub open spec fn route_of(s: Seq<char>) -> Route {
    route_of_line(first_line_of(s))
}

/// The identifier in the path of `s`: what follows the second `/` of the
/// request up to the next `/` or white space, or to the end; empty where the
/// request has no second `/`.
pub open spec fn id_segment(s: Seq<char>) -> Seq<char> {
    let second = position(s, position(s, 0, CharClass::Slash) + 1, CharClass::Slash);
    if second < s.len() {
        s.subrange(second + 1, position(s, second + 1, CharClass::SegmentEnd))
    } else {
        Seq::empty()
    }
}

/// The number that the path of `s` names, where its identifier is one.
pub open spec fn id_of(s: Seq<char>) -> Option<i32> {
    i32_decimal(id_segment(s))
}

/// The first line of a request.
pub fn first_line(request: &str) -> (line: &str)
    ensures
        line@ == first_line_of(request@),
{
    let chars = chars_of(request);
    let s = chars.as_slice();
    let n = s.len();
    let end = find_class(s, 0, CharClass::LineFeed);
    proof {
        lemma_position(s@, 0, CharClass::LineFeed);
    }
    if 0 < end && end < n && s[end - 1] == '\r' {
        request.substring_char(0, end - 1)
    } else {
        request.substring_char(0, end)
    }
}

/// Picks the handler for a request line.
pub fn route_line(line: &str) -> (r: Route)
    ensures
        r == route_of_line(line@),
{
    let chars = chars_of(line);
    let s = chars.as_slice();
    if starts_with_at(s, 0, chars_of("POST /users").as_slice()) {
        Route::Create
    } else if starts_with_at(s, 0, chars_of("GET /users/").as_slice()) {
        Route::ReadOne
    } else if starts_with_at(s, 0, chars_of("GET /users").as_slice()) {
        Route::ReadAll
    } else if starts_with_at(s, 0, chars_of("PUT /users/").as_slice()) {
        Route::Update
    } else if starts_with_at(s, 0, chars_of("DELETE /users/").as_slice()) {
        Route::Delete
    } else {
        Route::NotFound
    }
}

/// Picks the handler for a request.
pub fn route(request: &str) -> (r: Route)
    ensures
        r == route_of(request@),
{
    route_line(first_line(request))
}

/// Finds the identifier in the path of `s`, as the two ends of its stretch.
fn id_range(s: &[char]) -> (r: (usize, usize))
    ensures
        r.0 <= r.1 <= s@.len(),
        s@.subrange(r.0 as int, r.1 as int) == id_segment(s@),
{
    let n = s.len();
    let first = find_class(s, 0, CharClass::Slash);
    proof {
        lemma_position(s@, 0, CharClass::Slash);
    }
    if first >= n {
        proof {
            assert(s@.subrange(0, 0) =~= Seq::<char>::empty());
        }
        return (0, 0);
    }
    let second = find_class(s, first + 1, CharClass::Slash);
    proof {
        lemma_position(s@, first + 1, CharClass::Slash);
    }
    if second >= n {
        proof {
            assert(s@.subrange(0, 0) =~= Seq::<char>::empty());
        }
        return (0, 0);
    }
    let end = find_class(s, second + 1, CharClass::SegmentEnd);
    proof {
        lemma_position(s@, second + 1, CharClass::SegmentEnd);
    }
    (second + 1, end)
}

/// The identifier in the path of a request.
pub fn get_id(request: &str) -> (id: &str)
    ensures
        id@ == id_segment(request@),
{
    let chars = chars_of(request);
    let (from, to) = id_range(chars.as_slice());
    request.substring_char(from, to)
}

/// The number that the path of a request names.
pub fn request_id(request: &str) -> (id: Option<i32>)
    ensures
        id == id_of(request@),
{
    let chars = chars_of(request);
    let s = chars.as_slice();
    let (from, to) = id_range(s);
    parse_i32(slice_subrange(s, from, to))
}

} // verus!
