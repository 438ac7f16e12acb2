//! What the layers around every handler decide: which requests are
//! counted and timed, and what cross-origin requests are told.

use vstd::prelude::*;
use vstd::string::*;
use crate::text::same_text;

verus! {

/// Counts the requests that a context has served.
#[derive(Debug)]
pub struct RequestCounter {
    served: usize,
}

impl View for RequestCounter {
    type V = usize;

    closed spec fn view(&self) -> usize {
        self.served
    }
}

/// The count after one more request. Past the largest count it starts
/// again at zero.
pub open spec fn counted(served: usize) -> usize {
    if served == usize::MAX {
        0
    } else {
        (served + 1) as usize
    }
}

impl RequestCounter {
    /// A counter that has counted nothing.
    pub fn new() -> (counter: RequestCounter)
        ensures
            counter@ == 0,
    {
        RequestCounter { served: 0 }
    }

    /// Counts one request and returns the count before it.
    pub fn count(&mut self) -> (before: usize)
        ensures
            before == old(self)@,
            final(self)@ == counted(old(self)@),
    {
        let before = self.served;
        self.served = if before == usize::MAX {
            0
        } else {
            before + 1
        };
        before
    }

    /// The number of requests counted.
    pub fn value(&self) -> (served: usize)
        ensures
            served == self@,
    {
        self.served
    }
}

impl Default for RequestCounter {
    fn default() -> (counter: RequestCounter)
        ensures
            counter@ == 0,
    {
        RequestCounter::new()
    }
}

/// The path of the health check.
pub open spec fn ping_path() -> Seq<char> {
    "/ping"@
}

/// What the health check answers.
pub open spec fn ping_reply() -> Seq<char> {
    "pong"@
}

/// The method of a cross-origin preflight request.
pub open spec fn preflight_method() -> Seq<char> {
    "OPTIONS"@
}

/// Whether a request's timing is logged: every request's but the health
/// check's.
pub fn is_profiled(path: &str) -> (logged: bool)
    ensures
        logged == (path@ != ping_path()),
{
    !same_text(path, "/ping")
}

/// Whether a request is a preflight request, which is answered at once
/// and reaches no handler.
pub fn is_preflight(method: &str) -> (preflight: bool)
    ensures
        preflight == (method@ == preflight_method()),
{
    same_text(method, "OPTIONS")
}

/// What the health check answers.
pub fn ping() -> (reply: String)
    ensures
        reply@ == ping_reply(),
{
    String::from_str("pong")
}

/// A response header.
#[derive(Debug)]
pub struct Header {
    pub name: String,
    pub value: String,
}

/// The headers that every response carries for cross-origin requests:
/// any origin and any header are allowed, and credentials may be sent.
pub open spec fn cors_header_texts() -> Seq<(Seq<char>, Seq<char>)> {
    seq![
        ("Access-Control-Allow-Origin"@, "*"@),
        ("Access-Control-Allow-Headers"@, "*"@),
        ("Access-Control-Allow-Credentials"@, "true"@),
    ]
}

/// The names and values of a sequence of headers, in order.
pub open spec fn header_texts(headers: Seq<Header>) -> Seq<(Seq<char>, Seq<char>)> {
    headers.map_values(|header: Header| (header.name@, header.value@))
}

/// The headers that every response carries for cross-origin requests.
pub fn cors() -> (headers: Vec<Header>)
    ensures
        header_texts(headers@) == cors_header_texts(),
{
    let mut headers: Vec<Header> = Vec::new();
    headers.push(
        Header {
            name: String::from_str("Access-Control-Allow-Origin"),
            value: String::from_str("*"),
        },
    );
    headers.push(
        Header {
            name: String::from_str("Access-Control-Allow-Headers"),
            value: String::from_str("*"),
        },
    );
    headers.push(
        Header {
            name: String::from_str("Access-Control-Allow-Credentials"),
            value: String::from_str("true"),
        },
    );
    assert(header_texts(headers@) =~= cors_header_texts());
    headers
}

} // verus!
