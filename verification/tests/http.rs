use dual_greet::http::{http_handler, HttpRequestMeta};

#[test]
fn always_status_200_with_the_fixed_body() {
    let resp = http_handler(HttpRequestMeta {
        method: String::from("GET"),
        path: String::from("/"),
    });
    assert_eq!(resp.status, 200);
    assert_eq!(resp.body, "Hello from HTTP server!");
}

#[test]
fn ignores_method_and_path() {
    let requests = [
        ("GET", "/"),
        ("POST", "/anything"),
        ("DELETE", "/a/b/c?x=1"),
        ("PATCH", ""),
    ];
    for (method, path) in requests {
        let resp = http_handler(HttpRequestMeta {
            method: String::from(method),
            path: String::from(path),
        });
        assert_eq!(resp.status, 200);
        assert_eq!(resp.body, "Hello from HTTP server!");
    }
}
