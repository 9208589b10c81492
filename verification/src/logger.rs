//! The request logger: a pass-through decorator over any handler, and
//! the transport-level interceptor on the RPC path.  Both only observe;
//! neither changes a request, a response, or a readiness signal.

use vstd::prelude::*;
use vstd::string::StringExecFns;
use crate::greeting::{greeting_of, HelloReply, HelloRequest, MyGreeter};
use crate::http::{echo_body, http_handler, HttpRequestMeta, TextResponse};

verus! {

/// One request-handling operation.  `response_view_of` is the handler's
/// own specification of its response; `call` must return exactly that,
/// so a wrapper that promises `inner.response_view_of(req)` promises
/// the response the inner handler alone would produce.
pub trait Handler {
    type Req;

    type Resp: View;

    /// The response owed for a given request, as its view.
    spec fn response_view_of(&self, req: Self::Req) -> <Self::Resp as View>::V;

    /// The log line owed for a given request.
    spec fn description_of(&self, req: Self::Req) -> Seq<char>;

    /// Whether the handler is ready to take a request.
    spec fn ready_of(&self) -> bool;

    /// The text a logging layer records about a request.
    fn describe(&self, req: &Self::Req) -> (line: String)
        ensures
            line@ == self.description_of(*req),
    ;

    /// Readiness, as the transport polls it.
    fn poll_ready(&self) -> (ready: bool)
        ensures
            ready == self.ready_of(),
    ;

    /// Handles one request.
    fn call(&self, req: Self::Req) -> (resp: Self::Resp)
        ensures
            resp@ == self.response_view_of(req),
    ;
}

/// A handler wrapped with request logging.  `log` stands for the log
/// sink: one recorded line per handled request.  The wrapper forwards
/// everything else unchanged.
pub struct Logged<H: Handler> {
    pub inner: H,
    pub log: Vec<String>,
}

impl<H: Handler> Logged<H> {
    /// Wraps a handler; the log starts empty.
    pub fn new(inner: H) -> (wrapped: Logged<H>)
        ensures
            wrapped.inner == inner,
            wrapped.log@ =~= Seq::<String>::empty(),
    {
        Logged { inner, log: Vec::new() }
    }

    /// Readiness is forwarded from the inner handler unchanged: the
    /// wrapper adds no backpressure of its own.
    pub fn poll_ready(&self) -> (ready: bool)
        ensures
            ready == self.inner.ready_of(),
    {
        self.inner.poll_ready()
    }

    /// Handles one request: records exactly one log line for it, then
    /// delegates.  The response is exactly what the inner handler alone
    /// would produce, and the inner handler is left as it was.
    pub fn call(&mut self, req: H::Req) -> (resp: H::Resp)
        ensures
            resp@ == old(self).inner.response_view_of(req),
            final(self).inner == old(self).inner,
            final(self).log@.len() == old(self).log@.len() + 1,
            forall|i: int|
                0 <= i < old(self).log@.len() ==> final(self).log@[i] == old(self).log@[i],
            final(self).log@[old(self).log@.len() as int]@ == old(self).inner.description_of(
                req,
            ),
    {
        let line = self.inner.describe(&req);
        self.log.push(line);
        self.inner.call(req)
    }
}

impl Handler for MyGreeter {
    type Req = HelloRequest;

    type Resp = HelloReply;

    open spec fn response_view_of(&self, req: HelloRequest) -> Seq<char> {
        greeting_of(req@)
    }

    open spec fn description_of(&self, req: HelloRequest) -> Seq<char> {
        "Handling request: "@ + req.name@
    }

    open spec fn ready_of(&self) -> bool {
        true
    }

    fn describe(&self, req: &HelloRequest) -> (line: String) {
        String::from_str("Handling request: ").concat(req.name.as_str())
    }

    fn poll_ready(&self) -> (ready: bool) {
        true
    }

    fn call(&self, req: HelloRequest) -> (resp: HelloReply) {
        self.say_hello(req)
    }
}

/// The echo handler as a wrappable operation.
pub struct EchoHandler {}

impl Handler for EchoHandler {
    type Req = HttpRequestMeta;

    type Resp = TextResponse;

    open spec fn response_view_of(&self, req: HttpRequestMeta) -> (int, Seq<char>) {
        (200int, echo_body())
    }

    open spec fn description_of(&self, req: HttpRequestMeta) -> Seq<char> {
        "Handling request: "@ + req.method@ + " "@ + req.path@
    }

    open spec fn ready_of(&self) -> bool {
        true
    }

    fn describe(&self, req: &HttpRequestMeta) -> (line: String) {
        let mut line = String::from_str("Handling request: ");
        line.append(req.method.as_str());
        line.append(" ");
        line.append(req.path.as_str());
        line
    }

    fn poll_ready(&self) -> (ready: bool) {
        true
    }

    fn call(&self, req: HttpRequestMeta) -> (resp: TextResponse) {
        http_handler(req)
    }
}

} // verus!
