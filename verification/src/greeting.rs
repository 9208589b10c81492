//! The RPC greeting handler: one operation, `SayHello`, whose reply is
//! the literal concatenation `"Hello " + name + "!"`.

use vstd::prelude::*;
use vstd::string::StringExecFns;

verus! {

/// One greeting request: a single text field, any text, empty included.
pub struct HelloRequest {
    pub name: String,
}

/// One greeting reply: a single text field.
pub struct HelloReply {
    pub message: String,
}

impl View for HelloRequest {
    type V = Seq<char>;

    open spec fn view(&self) -> Seq<char> {
        self.name@
    }
}

impl View for HelloReply {
    type V = Seq<char>;

    open spec fn view(&self) -> Seq<char> {
        self.message@
    }
}

/// The message owed for a given name: `"Hello " + name + "!"`.
pub open spec fn greeting_of(name: Seq<char>) -> Seq<char> {
    "Hello "@ + name + "!"@
}

/// The greeting service.  It holds no state: every reply is a function
/// of the request alone.
#[derive(Debug, Default)]
pub struct MyGreeter {}

impl MyGreeter {
    /// Answers one request.  The name is taken as it is, byte for byte,
    /// with no validation; the empty name gives `"Hello !"`.
    pub fn say_hello(&self, request: HelloRequest) -> (reply: HelloReply)
        ensures
            reply@ == greeting_of(request@),
    {
        let mut message = String::from_str("Hello ");
        message.append(request.name.as_str());
        message.append("!");
        HelloReply { message }
    }
}

} // verus!
