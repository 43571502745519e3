//! Per-connection logic: the routing table and the bytes of a response.
//!
//! A handler reads one request line, looks it up in a table of three rows
//! and writes one response. Reading, waiting and writing are the driver's;
//! this module decides what is written and how long to wait first.

use crate::catalog::{CatalogView, ResponseBody, ResponseCatalog};
use vstd::prelude::*;
use vstd::utf8::{
    encode_utf8, encode_utf8_decode_utf8, is_ascii_chars, is_ascii_chars_encode_utf8,
};

verus! {

/// Seconds a handler waits before it answers the slow route.
pub const SLEEP_DELAY_SECS: u64 = 5;

/// The row of the routing table that a request line falls under.
#[derive(Clone, Copy, Debug, PartialEq, Eq, Structural)]
pub enum Route {
    /// `GET / HTTP/1.1`
    Root,
    /// `GET /sleep HTTP/1.1`
    Sleep,
    /// Any other line.
    NotFound,
}

/// The status of a response.
#[derive(Clone, Copy, Debug, PartialEq, Eq, Structural)]
pub enum Status {
    /// `200 OK`
    Success,
    /// `404 NOT FOUND`
    NotFound,
}

/// The request line of the root route.
pub open spec fn root_line() -> Seq<char> {
    "GET / HTTP/1.1"@
}

/// The request line of the slow route.
pub open spec fn sleep_line() -> Seq<char> {
    "GET /sleep HTTP/1.1"@
}

/// The routing table: an exact match on the whole line.
pub open spec fn route_of(line: Seq<char>) -> Route {
    if line == root_line() {
        Route::Root
    } else if line == sleep_line() {
        Route::Sleep
    } else {
        Route::NotFound
    }
}

impl Route {
    /// The status this route answers with.
    pub open spec fn spec_status(self) -> Status {
        match self {
            Route::Root => Status::Success,
            Route::Sleep => Status::Success,
            Route::NotFound => Status::NotFound,
        }
    }

    /// The seconds this route waits before it answers.
    pub open spec fn spec_delay_secs(self) -> u64 {
        match self {
            Route::Sleep => SLEEP_DELAY_SECS,
            _ => 0,
        }
    }

    /// The payload this route answers with.
    pub open spec fn spec_body(self, catalog: CatalogView) -> Seq<char> {
        match self {
            Route::NotFound => catalog.not_found,
            _ => catalog.ok,
        }
    }

    /// The status this route answers with.
    #[verifier::when_used_as_spec(spec_status)]
    pub fn status(self) -> (status: Status)
        ensures
            status == self.spec_status(),
    {
        match self {
            Route::Root => Status::Success,
            Route::Sleep => Status::Success,
            Route::NotFound => Status::NotFound,
        }
    }

    /// The seconds this route waits before it answers.
    #[verifier::when_used_as_spec(spec_delay_secs)]
    pub fn delay_secs(self) -> (secs: u64)
        ensures
            secs == self.spec_delay_secs(),
    {
        match self {
            Route::Sleep => SLEEP_DELAY_SECS,
            _ => 0,
        }
    }

    /// The payload this route answers with.
    pub fn body(self, catalog: &ResponseCatalog) -> (body: &ResponseBody)
        ensures
            body@ == self.spec_body(catalog@),
    {
        match self {
            Route::NotFound => catalog.not_found(),
            _ => catalog.ok(),
        }
    }
}

impl Status {
    /// The status line, without its line ending.
    pub open spec fn spec_line(self) -> Seq<char> {
        match self {
            Status::Success => "HTTP/1.1 200 OK"@,
            Status::NotFound => "HTTP/1.1 404 NOT FOUND"@,
        }
    }

    /// The status line, without its line ending.
    pub fn line(self) -> (line: &'static str)
        ensures
            line@ == self.spec_line(),
    {
        match self {
            Status::Success => "HTTP/1.1 200 OK",
            Status::NotFound => "HTTP/1.1 404 NOT FOUND",
        }
    }
}

/// Whether two byte strings are the same.
fn same_bytes(a: &[u8], b: &[u8]) -> (same: bool)
    ensures
        same == (a@ == b@),
{
    if a.len() != b.len() {
        return false;
    }
    let mut i: usize = 0;
    while i < a.len()
        invariant
            a.len() == b.len(),
            i <= a.len(),
            forall|j: int| 0 <= j < i ==> a@[j] == b@[j],
        decreases a.len() - i,
    {
        if a[i] != b[i] {
            return false;
        }
        i = i + 1;
    }
    assert(a@ =~= b@);
    true
}

/// Whether two texts are the same, character for character.
fn same_text(a: &str, b: &str) -> (same: bool)
    ensures
        same == (a@ == b@),
{
    let same = same_bytes(a.as_bytes(), b.as_bytes());
    proof {
        // Two texts with the same encoding decode to the same characters.
        encode_utf8_decode_utf8(a@);
        encode_utf8_decode_utf8(b@);
    }
    same
}

/// Looks a request line up in the routing table.
pub fn classify(line: &str) -> (route: Route)
    ensures
        route == route_of(line@),
{
    if same_text(line, "GET / HTTP/1.1") {
        Route::Root
    } else if same_text(line, "GET /sleep HTTP/1.1") {
        Route::Sleep
    } else {
        Route::NotFound
    }
}

/// The ASCII digit for `d`, where `d < 10`.
pub open spec fn digit(d: nat) -> u8 {
    (48 + d) as u8
}

/// `n` in decimal, as ASCII digits, with no leading zero but for zero itself.
pub open spec fn decimal(n: nat) -> Seq<u8>
    decreases n,
{
    if n < 10 {
        seq![digit(n)]
    } else {
        decimal(n / 10).push(digit(n % 10))
    }
}

/// The number that a string of ASCII digits denotes.
pub open spec fn decimal_value(digits: Seq<u8>) -> nat
    decreases digits.len(),
{
    if digits.len() == 0 {
        0
    } else {
        decimal_value(digits.drop_last()) * 10 + (digits.last() - 48) as nat
    }
}

/// What separates the status line from the length of the body.
pub open spec fn length_header() -> Seq<char> {
    "\r\nContent-Length: "@
}

/// What separates the head of a response from its body.
pub open spec fn head_end() -> Seq<char> {
    "\r\n\r\n"@
}

/// A whole response: status line, the length of the body in bytes, an empty
/// line, and the body, with nothing after it.
pub open spec fn response_bytes(status: Status, body: Seq<u8>) -> Seq<u8> {
    encode_utf8(status.spec_line()) + encode_utf8(length_header()) + decimal(body.len())
        + encode_utf8(head_end()) + body
}

/// The response to a request line.
pub open spec fn response_for(line: Seq<char>, catalog: CatalogView) -> Seq<u8> {
    let route = route_of(line);
    response_bytes(route.spec_status(), encode_utf8(route.spec_body(catalog)))
}

/// The two request lines of the routing table differ, so each has a row of
/// its own.
pub proof fn lemma_table_lines_differ()
    ensures
        root_line() != sleep_line(),
{
    reveal_strlit("GET / HTTP/1.1");
    reveal_strlit("GET /sleep HTTP/1.1");
    assert(root_line().len() == 14);
    assert(sleep_line().len() == 19);
}

/// Each line of the routing table is answered with status 200 and the ok
/// payload; only the slow route waits first.
pub proof fn lemma_listed_lines_answer_ok(line: Seq<char>, catalog: CatalogView)
    requires
        line == root_line() || line == sleep_line(),
    ensures
        route_of(line) == (if line == root_line() {
            Route::Root
        } else {
            Route::Sleep
        }),
        route_of(line).spec_delay_secs() == (if line == root_line() {
            0
        } else {
            SLEEP_DELAY_SECS
        }),
        response_for(line, catalog) == response_bytes(Status::Success, encode_utf8(catalog.ok)),
{
    lemma_table_lines_differ();
}

/// Every line that is not in the routing table is answered at once with
/// status 404 and the not-found payload.
pub proof fn lemma_other_lines_answer_not_found(line: Seq<char>, catalog: CatalogView)
    requires
        line != root_line(),
        line != sleep_line(),
    ensures
        route_of(line) == Route::NotFound,
        route_of(line).spec_delay_secs() == 0,
        response_for(line, catalog) == response_bytes(
            Status::NotFound,
            encode_utf8(catalog.not_found),
        ),
{
}

/// The decimal form of a number is made of ASCII digits, starts with a zero
/// only for zero itself, and denotes that number.
pub proof fn lemma_decimal_denotes(n: nat)
    ensures
        decimal(n).len() > 0,
        forall|i: int| 0 <= i < decimal(n).len() ==> 48 <= #[trigger] decimal(n)[i] <= 57,
        decimal(n).first() == 48 ==> n == 0,
        decimal_value(decimal(n)) == n,
    decreases n,
{
    if n >= 10 {
        lemma_decimal_denotes(n / 10);
        let higher = decimal(n / 10);
        assert(decimal(n).drop_last() =~= higher);
        assert(decimal(n).first() == higher.first());
    } else {
        assert(decimal(n).drop_last() =~= Seq::<u8>::empty());
        assert(decimal_value(Seq::<u8>::empty()) == 0);
    }
}

/// How a response is laid out: the status line and the length header, then
/// the length of the body in decimal, then the empty line, then the body and
/// nothing after it. The length stated is the exact number of bytes of the
/// body.
pub proof fn lemma_response_layout(status: Status, body: Seq<u8>)
    ensures
        ({
            let head = encode_utf8(status.spec_line()) + encode_utf8(length_header());
            let digits = decimal(body.len());
            let gap = encode_utf8(head_end());
            let response = response_bytes(status, body);
            let digits_at = head.len() as int;
            let gap_at = digits_at + digits.len();
            let body_at = gap_at + gap.len();
            &&& response.len() == body_at + body.len()
            &&& response.subrange(0, digits_at) == head
            &&& response.subrange(digits_at, gap_at) == digits
            &&& response.subrange(gap_at, body_at) == gap
            &&& response.subrange(body_at, response.len() as int) == body
            &&& decimal_value(digits) == body.len()
        }),
{
    let head = encode_utf8(status.spec_line()) + encode_utf8(length_header());
    let digits = decimal(body.len());
    let gap = encode_utf8(head_end());
    let response = response_bytes(status, body);
    let digits_at = head.len() as int;
    let gap_at = digits_at + digits.len();
    let body_at = gap_at + gap.len();
    lemma_decimal_denotes(body.len());
    assert(response =~= head + digits + gap + body);
    assert(response.subrange(0, digits_at) =~= head);
    assert(response.subrange(digits_at, gap_at) =~= digits);
    assert(response.subrange(gap_at, body_at) =~= gap);
    assert(response.subrange(body_at, response.len() as int) =~= body);
}

/// The fixed parts of a response are ASCII, so each goes over the wire as
/// one byte to the character.
pub proof fn lemma_fixed_parts_are_ascii(status: Status)
    ensures
        is_ascii_chars(status.spec_line()),
        is_ascii_chars(length_header()),
        is_ascii_chars(head_end()),
        encode_utf8(status.spec_line()) == status.spec_line().map_values(|c: char| c as u8),
        encode_utf8(length_header()) == length_header().map_values(|c: char| c as u8),
        encode_utf8(head_end()) == head_end().map_values(|c: char| c as u8),
{
    reveal_strlit("HTTP/1.1 200 OK");
    reveal_strlit("HTTP/1.1 404 NOT FOUND");
    reveal_strlit("\r\nContent-Length: ");
    reveal_strlit("\r\n\r\n");
    is_ascii_chars_encode_utf8(status.spec_line());
    is_ascii_chars_encode_utf8(length_header());
    is_ascii_chars_encode_utf8(head_end());
    assert(encode_utf8(status.spec_line()) =~= status.spec_line().map_values(|c: char| c as u8));
    assert(encode_utf8(length_header()) =~= length_header().map_values(|c: char| c as u8));
    assert(encode_utf8(head_end()) =~= head_end().map_values(|c: char| c as u8));
}

/// Appends `bytes` to `out`.
fn push_bytes(out: &mut Vec<u8>, bytes: &[u8])
    ensures
        final(out)@ == old(out)@ + bytes@,
{
    let mut i: usize = 0;
    while i < bytes.len()
        invariant
            i <= bytes.len(),
            out@ == old(out)@ + bytes@.take(i as int),
        decreases bytes.len() - i,
    {
        out.push(bytes[i]);
        assert(bytes@.take(i as int + 1) == bytes@.take(i as int).push(bytes@[i as int]));
        i = i + 1;
    }
    assert(bytes@.take(i as int) == bytes@);
}

/// Appends `n` in decimal to `out`.
fn push_decimal(out: &mut Vec<u8>, n: usize)
    ensures
        final(out)@ == old(out)@ + decimal(n as nat),
    decreases n,
{
    if n >= 10 {
        push_decimal(out, n / 10);
    }
    let d: u8 = (n % 10) as u8;
    out.push(48 + d);
}

/// Writes out the response with the given status and body.
pub fn render(status: Status, body: &ResponseBody) -> (out: Vec<u8>)
    ensures
        out@ == response_bytes(status, body.bytes()),
{
    let mut out: Vec<u8> = Vec::new();
    push_bytes(&mut out, status.line().as_bytes());
    push_bytes(&mut out, "\r\nContent-Length: ".as_bytes());
    push_decimal(&mut out, body.byte_len());
    push_bytes(&mut out, "\r\n\r\n".as_bytes());
    push_bytes(&mut out, body.as_bytes());
    out
}

/// What a handler does with its connection.
#[derive(Debug)]
pub enum Reply {
    /// No request line could be read: close the connection and write nothing.
    Close,
    /// Wait `delay_secs` seconds, write `bytes`, and close the connection.
    Send { delay_secs: u64, bytes: Vec<u8> },
}

/// Decides the reply to a connection from the one line read from it, where
/// `None` stands for a connection that gave no line.
pub fn respond(line: Option<&str>, catalog: &ResponseCatalog) -> (reply: Reply)
    ensures
        line is None ==> reply is Close,
        line matches Some(l) ==> reply matches Reply::Send { delay_secs, bytes }
            && delay_secs == route_of(l@).spec_delay_secs()
            && bytes@ == response_for(l@, catalog@),
{
    match line {
        None => Reply::Close,
        Some(line) => {
            let route = classify(line);
            let bytes = render(route.status(), route.body(catalog));
            Reply::Send { delay_secs: route.delay_secs(), bytes }
        },
    }
}

} // verus!
