//! Request framing: where the header block ends, how long a body the
//! headers declare, and how many bytes of it are still to be read.

use vstd::prelude::*;
use vstd::slice::{slice_subrange, slice_to_vec};
use vstd::string::*;
use vstd::utf8::*;
use crate::number::{parse_usize, usize_decimal};
use crate::text::{
    chars_of, find, find_class, find_text, has_prefix_at, lemma_find_from, lemma_position,
    position, starts_with_at, trim_range, trimmed, CharClass,
};

verus! {

/// The blank line that ends a header block.
pub open spec fn blank_line() -> Seq<char> {
    "\r\n\r\n"@
}

/// The name of the header that declares the length of the body, with its colon.
pub open spec fn length_header() -> Seq<char> {
    "Content-Length:"@
}

/// The text that `bytes` hold: their decoding as UTF-8, and the empty text
/// where they are not valid UTF-8.
pub open spec fn text_of(bytes: Seq<u8>) -> Seq<char> {
    if valid_utf8(bytes) {
        decode_utf8(bytes)
    } else {
        Seq::empty()
    }
}

/// The index just behind the first blank line of `s`; the length of `s`
/// where it holds no blank line.
pub open spec fn header_end(s: Seq<char>) -> int {
    match find(s, blank_line()) {
        Some(at) => at + blank_line().len(),
        None => s.len() as int,
    }
}

/// The header block of `s`: everything up to and including the first blank line.
pub open spec fn header_block(s: Seq<char>) -> Seq<char> {
    s.take(header_end(s))
}

/// What `s` holds behind its header block.
pub open spec fn after_head(s: Seq<char>) -> Seq<char> {
    s.skip(header_end(s))
}

/// The body bytes that came with the text `s`: the bytes of what it holds
/// behind its header block.
pub open spec fn body_read(s: Seq<char>) -> Seq<u8> {
    encode_utf8(after_head(s))
}

/// Whether a line of `s` begins at index `at`.
pub open spec fn is_line_start(s: Seq<char>, at: int) -> bool {
    at == 0 || (0 < at <= s.len() && s[at - 1] == '\n')
}

/// Whether a line that begins with the length header starts at index `at`.
pub open spec fn declares_length_at(s: Seq<char>, at: int) -> bool {
    is_line_start(s, at) && has_prefix_at(s, at, length_header())
}

/// The start of the first line at or after `from` that begins with the
/// length header.
pub open spec fn length_line_from(s: Seq<char>, from: int) -> Option<int>
    decreases s.len() - from + 1,
{
    if from < 0 || from > s.len() {
        None
    } else if declares_length_at(s, from) {
        Some(from)
    } else {
        length_line_from(s, from + 1)
    }
}

/// The value that the line starting at `at` gives the length header: what
/// stands between the header's colon and the next colon or the end of the
/// line, without the white space around it.
pub open spec fn length_field(s: Seq<char>, at: int) -> Seq<char> {
    let from = at + length_header().len();
    trimmed(s.subrange(from, position(s, from, CharClass::FieldEnd)))
}

/// The body length that the headers `s` declare. The first line that begins
/// with the length header decides; where there is none, or where its value
/// is no number that fits a machine word, the length is 0.
pub open spec fn content_length(s: Seq<char>) -> usize {
    match length_line_from(s, 0) {
        Some(at) => match usize_decimal(length_field(s, at)) {
            Some(n) => n,
            None => 0,
        },
        None => 0,
    }
}

/// The number of body bytes that are still to be read after the first chunk
/// `s`: the declared length less the body bytes that came with the chunk,
/// and 0 where that many or more came.
pub open spec fn missing_body_bytes(s: Seq<char>) -> nat {
    let declared = content_length(header_block(s)) as nat;
    if declared > body_read(s).len() {
        (declared - body_read(s).len()) as nat
    } else {
        0
    }
}

/// `length_line_from` gives the first line at or after `from` that begins
/// with the length header, and `None` exactly when no line there does.
pub proof fn lemma_length_line_from(s: Seq<char>, from: int)
    requires
        0 <= from,
    ensures
        match length_line_from(s, from) {
            Some(at) => {
                &&& from <= at
                &&& declares_length_at(s, at)
                &&& forall|k: int| from <= k < at ==> !declares_length_at(s, k)
            },
            None => forall|k: int| from <= k ==> !declares_length_at(s, k),
        },
    decreases s.len() - from + 1,
{
    if from <= s.len() && !declares_length_at(s, from) {
        lemma_length_line_from(s, from + 1);
    }
}

/// The header block and what stands behind it are the two parts of a text.
pub proof fn lemma_header_end_in_range(s: Seq<char>)
    ensures
        0 <= header_end(s) <= s.len(),
        header_block(s) + after_head(s) == s,
{
    lemma_find_from(s, blank_line(), 0);
    assert(s.take(header_end(s)) + s.skip(header_end(s)) =~= s);
}

/// `core::str::from_utf8`: the result is `Some` exactly for bytes that are
/// valid UTF-8, and the text it then holds is encoded by just these bytes.
#[verifier::external_body]
fn utf8_text(bytes: &[u8]) -> (r: Option<&str>)
    ensures
        r is Some <==> valid_utf8(bytes@),
        r matches Some(s) ==> s.spec_bytes() == bytes@,
{
    core::str::from_utf8(bytes).ok()
}

/// Reads `bytes` as text; bytes that are no valid UTF-8 read as the empty text.
pub fn text_of_bytes(bytes: &[u8]) -> (s: &str)
    ensures
        s@ == text_of(bytes@),
{
    match utf8_text(bytes) {
        Some(s) => {
            proof {
                encode_utf8_decode_utf8(s@);
            }
            s
        },
        None => {
            let s = "";
            proof {
                reveal_strlit("");
                assert(s@ =~= Seq::<char>::empty());
            }
            s
        },
    }
}

/// Finds the end of the header block of `s`.
pub fn find_header_end(s: &[char]) -> (end: usize)
    ensures
        end == header_end(s@),
        end <= s@.len(),
{
    let mark = chars_of("\r\n\r\n");
    let n = s.len();
    proof {
        lemma_find_from(s@, blank_line(), 0);
    }
    match find_text(s, mark.as_slice()) {
        Some(at) => at + mark.len(),
        None => n,
    }
}

/// Splits a text into its header block and what stands behind it.
pub fn split_request(request: &str) -> (parts: (&str, &str))
    ensures
        parts.0@ == header_block(request@),
        parts.1@ == after_head(request@),
{
    let chars = chars_of(request);
    let end = find_header_end(chars.as_slice());
    (request.substring_char(0, end), request.substring_char(end, chars.len()))
}

/// Finds the first line of `s` that begins with the length header.
pub fn find_length_line(s: &[char]) -> (r: Option<usize>)
    ensures
        match r {
            Some(at) => length_line_from(s@, 0) == Some(at as int),
            None => length_line_from(s@, 0) is None,
        },
{
    let name = chars_of("Content-Length:");
    let n = s.len();
    let mut i: usize = 0;
    loop
        invariant
            n == s@.len(),
            name@ == length_header(),
            i <= n,
            length_line_from(s@, 0) == length_line_from(s@, i as int),
        decreases n - i,
    {
        if (i == 0 || s[i - 1] == '\n') && starts_with_at(s, i, name.as_slice()) {
            return Some(i);
        }
        if i == n {
            assert(length_line_from(s@, i + 1) is None);
            return None;
        }
        i += 1;
    }
}

/// Reads the body length that the headers declare.
pub fn declared_length(headers: &str) -> (n: usize)
    ensures
        n == content_length(headers@),
{
    let chars = chars_of(headers);
    let s = chars.as_slice();
    // The indices below stay within the length, which fits a machine word.
    let len = s.len();
    match find_length_line(s) {
        Some(at) => {
            let name = chars_of("Content-Length:");
            proof {
                lemma_length_line_from(s@, 0);
            }
            let from = at + name.len();
            let to = find_class(s, from, CharClass::FieldEnd);
            proof {
                lemma_position(s@, from as int, CharClass::FieldEnd);
            }
            assert(from <= to <= len);
            let (a, b) = trim_range(s, from, to);
            match parse_usize(slice_subrange(s, a, b)) {
                Some(n) => n,
                None => 0,
            }
        },
        None => 0,
    }
}

/// Tells how many bytes of the body are still to be read after the first
/// chunk of a request.
pub fn bytes_to_read(first_chunk: &str) -> (n: usize)
    ensures
        n == missing_body_bytes(first_chunk@),
{
    let (headers, rest) = split_request(first_chunk);
    let declared = declared_length(headers);
    let read = rest.as_bytes().len();
    if declared > read {
        declared - read
    } else {
        0
    }
}

/// A framed request as plain values: its header block and the bytes of its body.
pub struct RequestView {
    pub head: Seq<char>,
    pub body: Seq<u8>,
}

impl RequestView {
    /// Whether the body has just the length that the header block declares:
    /// none where it declares no length.
    pub open spec fn is_framed(self) -> bool {
        self.body.len() == content_length(self.head)
    }
}

/// A framed request: a header block, and a body of just the length that
/// the header block declares.
#[derive(Debug, PartialEq, Eq)]
pub struct Request {
    head: String,
    body: Vec<u8>,
}

impl View for Request {
    type V = RequestView;

    closed spec fn view(&self) -> RequestView {
        RequestView { head: self.head@, body: self.body@ }
    }
}

impl Request {
    #[verifier::type_invariant]
    spec fn framed(self) -> bool {
        self.body@.len() == content_length(self.head@)
    }

    /// The request with this header block and this body, where the body has
    /// the length that the header block declares; `None` where it has not.
    pub fn new(head: &str, body: Vec<u8>) -> (r: Option<Request>)
        ensures
            match r {
                Some(request) => request@ == (RequestView { head: head@, body: body@ })
                    && request@.is_framed(),
                None => body@.len() != content_length(head@),
            },
    {
        if body.len() == declared_length(head) {
            Some(Request { head: head.to_owned(), body })
        } else {
            None
        }
    }

    /// The header block.
    pub fn head(&self) -> (head: &str)
        ensures
            head@ == self@.head,
            self@.is_framed(),
    {
        proof {
            use_type_invariant(self);
        }
        self.head.as_str()
    }

    /// The body.
    pub fn body(&self) -> (body: &[u8])
        ensures
            body@ == self@.body,
            self@.is_framed(),
    {
        proof {
            use_type_invariant(self);
        }
        self.body.as_slice()
    }

    /// Gives the body away.
    pub fn into_body(self) -> (body: Vec<u8>)
        ensures
            body@ == self@.body,
            self@.is_framed(),
    {
        proof {
            use_type_invariant(&self);
        }
        self.body
    }
}

/// The request that a first chunk holds whole: its header block, and of
/// the body bytes that came with it as many as the header block declares.
pub open spec fn whole_request(chunk: Seq<u8>) -> RequestView {
    let text = text_of(chunk);
    RequestView {
        head: header_block(text),
        body: body_read(text).take(content_length(header_block(text)) as int),
    }
}

/// Cuts the request out of a first chunk that holds it whole.
pub fn cut_request(first_chunk: &str) -> (r: Option<Request>)
    ensures
        match r {
            Some(request) => {
                &&& missing_body_bytes(first_chunk@) == 0
                &&& request@.head == header_block(first_chunk@)
                &&& request@.body == body_read(first_chunk@).take(
                    content_length(header_block(first_chunk@)) as int,
                )
                &&& request@.is_framed()
            },
            None => missing_body_bytes(first_chunk@) > 0,
        },
{
    let (headers, rest) = split_request(first_chunk);
    let came = rest.as_bytes();
    let declared = declared_length(headers);
    if came.len() < declared {
        None
    } else {
        let body = slice_to_vec(slice_subrange(came, 0, declared));
        Some(Request { head: headers.to_owned(), body })
    }
}

} // verus!
