//! The HTTP echo handler: every request, whatever its method, path,
//! headers or body, gets status 200 and one fixed text body.

use vstd::prelude::*;
use vstd::string::StringExecFns;

verus! {

/// What the HTTP layer reads of an inbound request: only what the log
/// line needs.  The handler itself ignores all of it.
pub struct HttpRequestMeta {
    pub method: String,
    pub path: String,
}

/// The status and body of a plain-text HTTP response.
pub struct TextResponse {
    pub status: u16,
    pub body: String,
}

impl View for HttpRequestMeta {
    type V = (Seq<char>, Seq<char>);

    open spec fn view(&self) -> (Seq<char>, Seq<char>) {
        (self.method@, self.path@)
    }
}

impl View for TextResponse {
    type V = (int, Seq<char>);

    open spec fn view(&self) -> (int, Seq<char>) {
        (self.status as int, self.body@)
    }
}

/// The one body the HTTP listener ever sends.
pub open spec fn echo_body() -> Seq<char> {
    "Hello from HTTP server!"@
}

/// Answers any HTTP request with status 200 and the fixed body.  The
/// contract does not mention the request: the response is the same
/// whatever arrives.  This handler cannot fail.
pub fn http_handler(_req: HttpRequestMeta) -> (resp: TextResponse)
    ensures
        resp@ == (200int, echo_body()),
{
    TextResponse { status: 200, body: String::from_str("Hello from HTTP server!") }
}

} // verus!
