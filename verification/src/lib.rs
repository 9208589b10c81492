//! A dual-protocol greeting service: one RPC greeter and one fixed HTTP
//! responder, each behind a logging layer, the RPC path behind a
//! concurrency limiter.  This crate holds the verified core: the
//! handlers' responses, the logging decorator, the limiter's admission
//! counter, and the launcher's banner and failure report.  The
//! listening sockets and the async runtime live outside it.

pub mod greeting;
pub mod http;
pub mod launcher;
pub mod limiter;
pub mod logger;
