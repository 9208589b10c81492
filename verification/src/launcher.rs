//! The dual-protocol launcher's fixed decisions: the two listen
//! addresses, the startup banner, the transport-level interceptor on
//! the RPC path, and the failure report written when a listener
//! terminates.  Binding the sockets and running the two servers is the
//! runtime's work, outside this crate; what is said about each outcome
//! is decided here.

use vstd::prelude::*;
use vstd::string::StringExecFns;

verus! {

/// The fixed RPC listen address.
pub fn grpc_addr() -> (addr: &'static str)
    ensures
        addr@ == "[::1]:50051"@,
{
    "[::1]:50051"
}

/// The fixed HTTP listen address.
pub fn http_addr() -> (addr: &'static str)
    ensures
        addr@ == "[::1]:8080"@,
{
    "[::1]:8080"
}

/// The banner line announcing one listener, from its protocol's label.
pub open spec fn banner_line(label: Seq<char>, addr: Seq<char>) -> Seq<char> {
    label + " server listening on "@ + addr
}

/// The two startup banner lines, gRPC first, HTTP second.
pub fn startup_banner() -> (lines: Vec<String>)
    ensures
        lines@.len() == 2,
        lines@[0]@ == banner_line("gRPC"@, "[::1]:50051"@),
        lines@[1]@ == banner_line("HTTP"@, "[::1]:8080"@),
{
    let mut grpc_line = String::from_str("gRPC");
    grpc_line.append(" server listening on ");
    grpc_line.append(grpc_addr());
    let mut http_line = String::from_str("HTTP");
    http_line.append(" server listening on ");
    http_line.append(http_addr());
    let mut lines: Vec<String> = Vec::new();
    lines.push(grpc_line);
    lines.push(http_line);
    lines
}

/// What the RPC transport sees of an inbound call before it reaches the
/// handler: the caller's address, when the transport knows one.
pub struct RpcRequestMeta {
    pub remote_addr: Option<String>,
}

/// The RPC framework's rejection shape; the interceptor never uses it.
pub struct RpcStatus {
    pub message: String,
}

/// The line the transport-level interception stage logs for one call.
pub open spec fn interception_line_of(meta: RpcRequestMeta) -> Seq<char> {
    match meta.remote_addr {
        Option::Some(addr) => "Received request from "@ + addr@,
        Option::None => "Received request from "@ + "unknown"@,
    }
}

/// The text logged when a call is intercepted.
pub fn interception_line(meta: &RpcRequestMeta) -> (line: String)
    ensures
        line@ == interception_line_of(*meta),
{
    let mut line = String::from_str("Received request from ");
    match &meta.remote_addr {
        Option::Some(addr) => line.append(addr.as_str()),
        Option::None => line.append("unknown"),
    }
    line
}

/// Transport-level interception on the RPC path: it only observes, so
/// every call is admitted, unchanged.
pub fn logging_interceptor(meta: RpcRequestMeta) -> (r: Result<RpcRequestMeta, RpcStatus>)
    ensures
        r == Result::<RpcRequestMeta, RpcStatus>::Ok(meta),
{
    Result::Ok(meta)
}

/// The stderr lines owed for the RPC listener's outcome: nothing on a
/// clean end, one line naming the error otherwise.
pub open spec fn grpc_error_lines(grpc_err: Option<Seq<char>>) -> Seq<Seq<char>> {
    match grpc_err {
        Option::Some(e) => seq!["gRPC server error: "@ + e],
        Option::None => Seq::empty(),
    }
}

/// The stderr lines owed for the HTTP listener's outcome.
pub open spec fn http_error_lines(http_err: Option<Seq<char>>) -> Seq<Seq<char>> {
    match http_err {
        Option::Some(e) => seq!["HTTP server error: "@ + e],
        Option::None => Seq::empty(),
    }
}

/// The whole failure report: the RPC listener's lines, then the HTTP
/// listener's.
pub open spec fn report_lines(
    grpc_err: Option<Seq<char>>,
    http_err: Option<Seq<char>>,
) -> Seq<Seq<char>> {
    grpc_error_lines(grpc_err) + http_error_lines(http_err)
}

/// The error of an outcome, if it has one, as its view.
pub open spec fn err_view_of(outcome: Result<(), String>) -> Option<Seq<char>> {
    match outcome {
        Result::Ok(_) => Option::None,
        Result::Err(e) => Option::Some(e@),
    }
}

/// Turns the two listeners' outcomes into the failure report: one line
/// per listener that terminated with an error, naming which server and
/// the error's detail, and nothing for one that did not.
pub fn failure_report(
    grpc_outcome: &Result<(), String>,
    http_outcome: &Result<(), String>,
) -> (lines: Vec<String>)
    ensures
        lines.deep_view() == report_lines(err_view_of(*grpc_outcome), err_view_of(*http_outcome)),
{
    let mut lines: Vec<String> = Vec::new();
    match grpc_outcome {
        Result::Ok(_) => {},
        Result::Err(e) => {
            let mut line = String::from_str("gRPC server error: ");
            line.append(e.as_str());
            lines.push(line);
        },
    }
    match http_outcome {
        Result::Ok(_) => {},
        Result::Err(e) => {
            let mut line = String::from_str("HTTP server error: ");
            line.append(e.as_str());
            lines.push(line);
        },
    }
    proof {
        assert(lines.deep_view() =~= report_lines(
            err_view_of(*grpc_outcome),
            err_view_of(*http_outcome),
        ));
    }
    lines
}

/// Fault isolation in the report: what is said of each listener depends
/// on that listener's outcome alone.  Changing one side's outcome
/// leaves the other side's lines as they were.
pub proof fn lemma_report_isolation(
    grpc_a: Option<Seq<char>>,
    grpc_b: Option<Seq<char>>,
    http_a: Option<Seq<char>>,
    http_b: Option<Seq<char>>,
)
    ensures
        report_lines(grpc_a, http_a).take(grpc_error_lines(grpc_a).len() as int)
            =~= report_lines(grpc_a, http_b).take(grpc_error_lines(grpc_a).len() as int),
        report_lines(grpc_a, http_a).skip(grpc_error_lines(grpc_a).len() as int)
            =~= report_lines(grpc_b, http_a).skip(grpc_error_lines(grpc_b).len() as int),
{
}

} // verus!
