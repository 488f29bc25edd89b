use worker_pool::http::{page_file, response, route, status_line, Route};

#[test]
fn root_request_gets_the_greeting() {
    let r = route(&"GET / HTTP/1.1".to_string());
    assert_eq!(r, Route::Hello);
    assert_eq!(status_line(r), "HTTP/1.1 200 OK");
    assert_eq!(page_file(r), "webpages/hello.html");
}

#[test]
fn sleep_request_gets_the_greeting_late() {
    let r = route(&"GET /sleep HTTP/1.1".to_string());
    assert_eq!(r, Route::SlowHello);
    assert_eq!(status_line(r), "HTTP/1.1 200 OK");
    assert_eq!(page_file(r), "webpages/hello.html");
}

#[test]
fn other_requests_are_not_found() {
    for line in ["GET /other HTTP/1.1", "", "GET / HTTP/1.0", "get / HTTP/1.1", "GET / HTTP/1.1 "] {
        let r = route(&line.to_string());
        assert_eq!(r, Route::NotFound);
        assert_eq!(status_line(r), "HTTP/1.1 400 NOT FOUND");
        assert_eq!(page_file(r), "webpages/404.html");
    }
}

#[test]
fn response_carries_length_in_bytes() {
    assert_eq!(
        response("HTTP/1.1 200 OK", "<p>hi</p>"),
        "HTTP/1.1 200 OK\r\nContent-Length: 9\r\n\r\n<p>hi</p>"
    );
    assert_eq!(response("HTTP/1.1 200 OK", ""), "HTTP/1.1 200 OK\r\nContent-Length: 0\r\n\r\n");
    assert_eq!(response("S", "é"), "S\r\nContent-Length: 2\r\n\r\né");
    let body = "x".repeat(1234);
    assert_eq!(response("S", &body), format!("S\r\nContent-Length: 1234\r\n\r\n{}", body));
}
