use proxibly::{build_client, sanitize, UPSTREAM_FAILURE_STATUS};
use surf::http::Response as HttpResponse;
use surf::{Response, StatusCode};

fn upstream_response() -> Response {
    let mut inner = HttpResponse::new(StatusCode::Ok);
    inner.insert_header("ETag", "\"abc\"");
    inner.insert_header("Transfer-Encoding", "chunked");
    inner.insert_header("Content-Encoding", "gzip");
    inner.insert_header("X-Keep", "yes");
    inner.set_body("hello");
    Response::from(inner)
}

fn value(res: &Response, name: &str) -> Option<String> {
    res.header(name).map(|v| v.last().as_str().to_string())
}

fn body(res: &mut Response) -> String {
    async_std::task::block_on(res.body_string()).unwrap()
}

#[test]
fn caching_strips_etag_and_encodings() {
    let mut res = upstream_response();
    sanitize(&mut res, true);
    assert_eq!(value(&res, "etag"), None);
    assert_eq!(value(&res, "transfer-encoding"), None);
    assert_eq!(value(&res, "content-encoding"), None);
    assert_eq!(value(&res, "x-keep"), Some("yes".to_string()));
    assert_eq!(res.status(), StatusCode::Ok);
    assert_eq!(body(&mut res), "hello");
}

#[test]
fn without_caching_only_etag_goes() {
    let mut res = upstream_response();
    sanitize(&mut res, false);
    assert_eq!(value(&res, "etag"), None);
    assert_eq!(value(&res, "transfer-encoding"), Some("chunked".to_string()));
    assert_eq!(value(&res, "content-encoding"), Some("gzip".to_string()));
    assert_eq!(value(&res, "x-keep"), Some("yes".to_string()));
    assert_eq!(res.status(), StatusCode::Ok);
    assert_eq!(body(&mut res), "hello");
}

#[test]
fn sanitizing_twice_changes_nothing_more() {
    for caching in [false, true] {
        let mut once = upstream_response();
        sanitize(&mut once, caching);
        let mut twice = upstream_response();
        sanitize(&mut twice, caching);
        sanitize(&mut twice, caching);
        for name in ["etag", "transfer-encoding", "content-encoding", "x-keep"] {
            assert_eq!(value(&once, name), value(&twice, name));
        }
        assert_eq!(once.status(), twice.status());
    }
}

#[test]
fn clean_response_passes_unchanged() {
    let mut inner = HttpResponse::new(StatusCode::NotFound);
    inner.insert_header("X-Keep", "yes");
    let mut res = Response::from(inner);
    sanitize(&mut res, true);
    assert_eq!(value(&res, "x-keep"), Some("yes".to_string()));
    assert_eq!(res.status(), StatusCode::NotFound);
}

#[test]
fn build_client_reports_caching() {
    for caching in [false, true] {
        if let Some(client) = build_client(caching) {
            assert_eq!(client.caching(), caching);
        }
    }
}

#[test]
fn finish_sanitizes_or_reports_failure() {
    for caching in [false, true] {
        if let Some(client) = build_client(caching) {
            let res = client.finish(Ok(upstream_response())).ok().unwrap();
            assert_eq!(value(&res, "etag"), None);
            assert_eq!(value(&res, "x-keep"), Some("yes".to_string()));
            assert_eq!(value(&res, "content-encoding").is_none(), caching);
            let error = surf::Error::from_str(StatusCode::BadGateway, "connection refused");
            let failure = client.finish(Err(error)).err().unwrap();
            assert_eq!(failure.status, UPSTREAM_FAILURE_STATUS);
        }
    }
}
