use dual_greet::greeting::{HelloRequest, MyGreeter};
use dual_greet::http::HttpRequestMeta;
use dual_greet::launcher::{interception_line, logging_interceptor, RpcRequestMeta};
use dual_greet::logger::{EchoHandler, Handler, Logged};

#[test]
fn wrapped_response_equals_inner_response() {
    let inner = MyGreeter::default();
    let direct = inner.say_hello(HelloRequest {
        name: String::from("carol"),
    });
    let mut wrapped = Logged::new(MyGreeter::default());
    let via_wrapper = wrapped.call(HelloRequest {
        name: String::from("carol"),
    });
    assert_eq!(via_wrapper.message, direct.message);
}

#[test]
fn one_log_line_per_request() {
    let mut wrapped = Logged::new(MyGreeter::default());
    assert_eq!(wrapped.log.len(), 0);
    wrapped.call(HelloRequest {
        name: String::from("a"),
    });
    assert_eq!(wrapped.log.len(), 1);
    wrapped.call(HelloRequest {
        name: String::from("b"),
    });
    assert_eq!(wrapped.log.len(), 2);
    assert_eq!(wrapped.log[0], "Handling request: a");
    assert_eq!(wrapped.log[1], "Handling request: b");
}

#[test]
fn wraps_the_http_handler_too() {
    let mut wrapped = Logged::new(EchoHandler {});
    let resp = wrapped.call(HttpRequestMeta {
        method: String::from("PUT"),
        path: String::from("/echo"),
    });
    assert_eq!(resp.status, 200);
    assert_eq!(resp.body, "Hello from HTTP server!");
    assert_eq!(wrapped.log.len(), 1);
    assert_eq!(wrapped.log[0], "Handling request: PUT /echo");
}

#[test]
fn readiness_is_forwarded_unchanged() {
    let inner = MyGreeter::default();
    let inner_ready = inner.poll_ready();
    let wrapped = Logged::new(MyGreeter::default());
    assert_eq!(wrapped.poll_ready(), inner_ready);
    assert!(wrapped.poll_ready());
}

#[test]
fn interceptor_admits_every_call_unchanged() {
    let meta = RpcRequestMeta {
        remote_addr: Some(String::from("[::1]:40000")),
    };
    match logging_interceptor(meta) {
        Ok(passed) => assert_eq!(passed.remote_addr.as_deref(), Some("[::1]:40000")),
        Err(_) => panic!("the interceptor never rejects"),
    }
}

#[test]
fn interception_line_names_the_caller() {
    let known = RpcRequestMeta {
        remote_addr: Some(String::from("[::1]:40000")),
    };
    assert_eq!(
        interception_line(&known),
        "Received request from [::1]:40000"
    );
    let unknown = RpcRequestMeta { remote_addr: None };
    assert_eq!(interception_line(&unknown), "Received request from unknown");
}
