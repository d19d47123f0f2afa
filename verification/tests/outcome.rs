use service_benchmark::http_bench_session::{failure_reason, request_outcome, response_stats};

fn response(status: u16, body: &'static str) -> reqwest::Response {
    let response = http::Response::builder()
        .status(status)
        .body(body)
        .expect("Response is built");
    reqwest::Response::from(response)
}

/// A body that does not say how long it is before it has been read.
struct Chunked(Option<&'static [u8]>);

impl http_body::Body for Chunked {
    type Data = &'static [u8];
    type Error = std::io::Error;

    fn poll_frame(
        mut self: std::pin::Pin<&mut Self>,
        _cx: &mut std::task::Context<'_>,
    ) -> std::task::Poll<Option<Result<http_body::Frame<Self::Data>, Self::Error>>> {
        std::task::Poll::Ready(self.0.take().map(|chunk| Ok(http_body::Frame::data(chunk))))
    }
}

fn status_error(status: u16) -> reqwest::Error {
    response(status, "")
        .error_for_status()
        .expect_err("The status is an error")
}

fn builder_error() -> reqwest::Error {
    reqwest::Client::new()
        .get("not a url")
        .build()
        .expect_err("The URL is invalid")
}

#[test]
fn stats_hold_the_declared_length_and_the_status() {
    let stats = response_stats(Some(5), "200 OK".to_string());
    assert_eq!(5, stats.bytes_processed);
    assert_eq!("200 OK".to_string(), stats.status);
}

#[test]
fn stats_count_no_bytes_without_a_declared_length() {
    let stats = response_stats(None, "204 No Content".to_string());
    assert_eq!(0, stats.bytes_processed);
    assert_eq!("204 No Content".to_string(), stats.status);
}

#[test]
fn stats_hold_a_large_length() {
    let stats = response_stats(Some(u32::MAX as u64), "".to_string());
    assert_eq!(u32::MAX as usize, stats.bytes_processed);
    assert_eq!("".to_string(), stats.status);
    let stats = response_stats(Some(0), "200 OK".to_string());
    assert_eq!(0, stats.bytes_processed);
}

#[test]
fn failure_is_reported_by_its_status_first() {
    assert_eq!(
        "302 Found".to_string(),
        failure_reason(Some("302 Found".to_string()), "error following redirect".to_string())
    );
    assert_eq!(
        "".to_string(),
        failure_reason(Some("".to_string()), "error following redirect".to_string())
    );
}

#[test]
fn failure_without_status_is_reported_by_its_message() {
    assert_eq!(
        "error sending request".to_string(),
        failure_reason(None, "error sending request".to_string())
    );
}

#[test]
fn response_is_a_success_whatever_its_status() {
    let cases = [
        (200, "200 OK"),
        (201, "201 Created"),
        (301, "301 Moved Permanently"),
        (404, "404 Not Found"),
        (418, "418 I'm a teapot"),
        (500, "500 Internal Server Error"),
        (503, "503 Service Unavailable"),
        (599, "599 <unknown status code>"),
    ];
    for (code, line) in cases {
        let stats = request_outcome(Ok(response(code, "world"))).expect(line);
        assert_eq!(5, stats.bytes_processed);
        assert_eq!(line.to_string(), stats.status);
    }
}

#[test]
fn empty_body_counts_no_bytes() {
    let stats = request_outcome(Ok(response(200, ""))).unwrap();
    assert_eq!(0, stats.bytes_processed);
    assert_eq!("200 OK".to_string(), stats.status);
}

#[test]
fn body_is_counted_in_bytes() {
    let stats = request_outcome(Ok(response(200, "w\u{f6}rld"))).unwrap();
    assert_eq!(6, stats.bytes_processed);
}

#[test]
fn failure_with_a_status_is_reported_by_the_status_line() {
    let reason = request_outcome(Err(status_error(500))).unwrap_err();
    assert_eq!("500 Internal Server Error".to_string(), reason);
    let reason = request_outcome(Err(status_error(404))).unwrap_err();
    assert_eq!("404 Not Found".to_string(), reason);
}

#[test]
fn failure_without_a_status_is_reported_by_the_error() {
    let error = builder_error();
    assert!(error.status().is_none());
    let message = error.to_string();
    let reason = request_outcome(Err(error)).unwrap_err();
    assert_eq!(message, reason);
    assert_eq!("builder error".to_string(), reason);
}

#[test]
fn body_of_unknown_length_counts_no_bytes() {
    let response = http::Response::builder()
        .status(200)
        .body(reqwest::Body::wrap(Chunked(Some(b"world"))))
        .expect("Response is built");
    let response = reqwest::Response::from(response);
    assert_eq!(None, response.content_length());
    let stats = request_outcome(Ok(response)).unwrap();
    assert_eq!(0, stats.bytes_processed);
    assert_eq!("200 OK".to_string(), stats.status);
}
