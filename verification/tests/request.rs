use sentry_actix::pairs::lookup;
use sentry_actix::request::{
    clone_text, collect_headers, request_url, sentry_request_from_http, snapshot, target_path,
    transaction_name, RequestInfo, RequestSnapshot,
};

fn pair(name: &str, value: &str) -> (String, String) {
    (name.to_string(), value.to_string())
}

fn header(name: &str, value: Option<&str>) -> (String, Option<String>) {
    (name.to_string(), value.map(String::from))
}

fn request() -> RequestInfo {
    RequestInfo {
        scheme: "https".to_string(),
        host: "example.com".to_string(),
        uri: "/items/7?full=1".to_string(),
        method: "POST".to_string(),
        headers: vec![
            header("content-type", Some("application/json")),
            header("x-trace", Some("one")),
            header("X-Trace", Some("two")),
        ],
        peer_addr: Some("192.0.2.1".to_string()),
        match_name: Some("item".to_string()),
        match_pattern: Some("/items/{id}".to_string()),
    }
}

#[test]
fn url_text_is_scheme_host_and_path() {
    assert_eq!(request_url(&request()), "https://example.com/items/7");

    let mut bare = request();
    bare.scheme = String::new();
    bare.host = String::new();
    bare.uri = String::new();
    assert_eq!(request_url(&bare), "://");
}

#[test]
fn transaction_is_name_then_pattern_then_none() {
    let mut info = request();
    assert_eq!(transaction_name(&info), Some("item".to_string()));
    info.match_name = None;
    assert_eq!(transaction_name(&info), Some("/items/{id}".to_string()));
    info.match_pattern = None;
    assert_eq!(transaction_name(&info), None);
    info.match_name = Some(String::new());
    assert_eq!(transaction_name(&info), Some(String::new()));
}

#[test]
fn snapshot_of_a_request() {
    let (transaction, snapshot) = sentry_request_from_http(&request(), false);
    assert_eq!(transaction, Some("item".to_string()));
    assert_eq!(
        snapshot.url,
        Some("https://example.com/items/7".to_string())
    );
    assert_eq!(snapshot.method, Some("POST".to_string()));
    assert_eq!(snapshot.data, None);
    assert_eq!(snapshot.query_string, None);
    assert_eq!(snapshot.cookies, None);
    assert_eq!(
        snapshot.headers,
        vec![
            pair("content-type", "application/json"),
            pair("x-trace", "one"),
            pair("X-Trace", "two"),
        ]
    );
    assert!(snapshot.env.is_empty());
}

#[test]
fn snapshot_with_personal_data_has_the_address() {
    let (_, snapshot) = sentry_request_from_http(&request(), true);
    assert_eq!(snapshot.env, vec![pair("REMOTE_ADDR", "192.0.2.1")]);
    assert_eq!(
        lookup(&snapshot.env, "REMOTE_ADDR"),
        Some("192.0.2.1".to_string())
    );

    let mut unknown = request();
    unknown.peer_addr = None;
    let (_, snapshot) = sentry_request_from_http(&unknown, true);
    assert!(snapshot.env.is_empty());
}

#[test]
fn url_is_normalised_by_the_parser() {
    let mut info = request();
    info.scheme = "HTTP".to_string();
    info.host = "Example.COM:80".to_string();
    info.uri = "/a b/../c".to_string();
    assert_eq!(request_url(&info), "HTTP://Example.COM:80/a b/../c");
    let (_, snapshot) = sentry_request_from_http(&info, false);
    assert_eq!(snapshot.url, Some("http://example.com/c".to_string()));
}

#[test]
fn url_that_does_not_parse_is_left_out() {
    let mut info = request();
    info.scheme = String::new();
    let (transaction, snapshot) = sentry_request_from_http(&info, false);
    assert_eq!(transaction, Some("item".to_string()));
    assert_eq!(snapshot.url, None);
    assert_eq!(snapshot.method, Some("POST".to_string()));

    let mut info = request();
    info.host = "[::1".to_string();
    let (_, snapshot) = sentry_request_from_http(&info, false);
    assert_eq!(snapshot.url, None);
}

#[test]
fn later_header_of_one_name_stays() {
    let headers = vec![
        header("accept", Some("text/html")),
        header("cookie", Some("a=1")),
        header("accept", Some("text/plain")),
        header("cookie", Some("b=2")),
        header("host", Some("example.com")),
    ];
    let pairs = collect_headers(&headers);
    assert_eq!(
        pairs,
        vec![
            pair("accept", "text/plain"),
            pair("cookie", "b=2"),
            pair("host", "example.com"),
        ]
    );
    assert_eq!(lookup(&pairs, "accept"), Some("text/plain".to_string()));
    assert_eq!(lookup(&pairs, "Accept"), None);
}

#[test]
fn header_value_that_is_no_text_is_empty() {
    let headers = vec![
        header("x-binary", None),
        header("x-text", Some("plain")),
        header("x-late", Some("first")),
        header("x-late", None),
    ];
    let pairs = collect_headers(&headers);
    assert_eq!(
        pairs,
        vec![
            pair("x-binary", ""),
            pair("x-text", "plain"),
            pair("x-late", ""),
        ]
    );
    assert!(collect_headers(&vec![]).is_empty());
}

#[test]
fn snapshot_takes_the_url_it_is_given() {
    let built = snapshot(&request(), Some("https://elsewhere.test/".to_string()), true);
    assert_eq!(built.url, Some("https://elsewhere.test/".to_string()));
    assert_eq!(built.method, Some("POST".to_string()));
    assert_eq!(built.headers.len(), 3);
    assert_eq!(built.env, vec![pair("REMOTE_ADDR", "192.0.2.1")]);

    let built = snapshot(&request(), None, false);
    assert_eq!(built.url, None);
    assert!(built.env.is_empty());
}

#[test]
fn clone_keeps_every_field() {
    let source = RequestSnapshot {
        url: Some("http://localhost/".to_string()),
        method: Some("PUT".to_string()),
        data: Some("{}".to_string()),
        query_string: Some("a=b".to_string()),
        cookies: Some("c=d".to_string()),
        headers: vec![pair("a", "1"), pair("b", "2")],
        env: vec![pair("REMOTE_ADDR", "::1")],
    };
    let copy = source.clone();
    assert_eq!(copy.url, source.url);
    assert_eq!(copy.method, source.method);
    assert_eq!(copy.data, source.data);
    assert_eq!(copy.query_string, source.query_string);
    assert_eq!(copy.cookies, source.cookies);
    assert_eq!(copy.headers, source.headers);
    assert_eq!(copy.env, source.env);

    assert_eq!(clone_text(&None), None);
    assert_eq!(clone_text(&Some("x".to_string())), Some("x".to_string()));
}

#[test]
fn path_is_the_target_before_its_query() {
    assert_eq!(target_path("/test?x=1"), "/test");
    assert_eq!(target_path("/test"), "/test");
    assert_eq!(target_path("/a?b?c"), "/a");
    assert_eq!(target_path("/a/b/?"), "/a/b/");
    assert_eq!(target_path("?x"), "");
    assert_eq!(target_path(""), "");
    assert_eq!(target_path("/caf\u{e9}/\u{1f600}?q=\u{e9}"), "/caf\u{e9}/\u{1f600}");
}

#[test]
fn url_is_built_without_the_query() {
    let info = RequestInfo {
        scheme: "http".to_string(),
        host: "localhost:8080".to_string(),
        uri: "/test?x=1".to_string(),
        method: "GET".to_string(),
        headers: vec![],
        peer_addr: None,
        match_name: None,
        match_pattern: None,
    };
    assert_eq!(request_url(&info), "http://localhost:8080/test");
    let (_, snapshot) = sentry_request_from_http(&info, false);
    assert_eq!(snapshot.url, Some("http://localhost:8080/test".to_string()));
    assert_eq!(snapshot.query_string, None);
}
