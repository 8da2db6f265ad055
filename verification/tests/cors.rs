use user_colors::cors::{names_match, Edit, Header, Kind, Method, Response};
use user_colors::CORS;

const METHODS: [Method; 9] = [
    Method::Get,
    Method::Put,
    Method::Post,
    Method::Delete,
    Method::Options,
    Method::Head,
    Method::Trace,
    Method::Connect,
    Method::Patch,
];

fn values(response: &Response, name: &str) -> Vec<String> {
    response
        .headers
        .iter()
        .filter(|h| h.name.eq_ignore_ascii_case(name))
        .map(|h| h.value.clone())
        .collect()
}

fn assert_cors_headers(response: &Response) {
    assert_eq!(values(response, "Access-Control-Allow-Origin"), vec!["*"]);
    assert_eq!(
        values(response, "Access-Control-Allow-Methods"),
        vec!["POST, GET, DELETE, OPTIONS"]
    );
    assert_eq!(values(response, "Access-Control-Allow-Headers"), vec!["*"]);
    assert_eq!(values(response, "Access-Control-Allow-Credentials"), vec!["true"]);
}

#[test]
fn info_names_the_hook() {
    let info = CORS.info();
    assert_eq!(info.name, "Add CORS headers to responses");
    assert_eq!(info.kind, Kind::Response);
}

#[test]
fn every_response_carries_the_four_headers() {
    for method in METHODS {
        for status in [200u16, 404, 500] {
            let mut response = Response::new();
            response.set_status(status);
            response.set_sized_body(b"body".to_vec());
            CORS.on_response(method, &mut response);
            assert_cors_headers(&response);
        }
    }
}

#[test]
fn other_methods_keep_status_and_body() {
    for method in METHODS {
        if method == Method::Options {
            continue;
        }
        let mut response = Response::new();
        response.set_status(404);
        response.set_sized_body(b"not found".to_vec());
        response.set_header(Header::new("Content-Type", "application/json"));
        CORS.on_response(method, &mut response);
        assert_eq!(response.status, 404);
        assert_eq!(response.body, b"not found".to_vec());
        assert_eq!(values(&response, "Content-Type"), vec!["application/json"]);
        assert_eq!(response.headers.len(), 5);
    }
}

#[test]
fn preflight_is_overwritten() {
    let mut response = Response::new();
    response.set_status(404);
    response.set_sized_body(b"no such route".to_vec());
    response.set_header(Header::new("content-type", "text/html"));
    CORS.on_response(Method::Options, &mut response);
    assert_eq!(response.status, 200);
    assert!(response.body.is_empty());
    assert_eq!(values(&response, "Content-Type"), vec!["text/plain; charset=utf-8"]);
    assert_cors_headers(&response);
    assert_eq!(response.headers.len(), 5);
}

#[test]
fn headers_set_before_are_replaced() {
    let mut response = Response::new();
    response.set_header(Header::new("access-control-allow-origin", "https://example.org"));
    response.set_header(Header::new("X-Other", "kept"));
    response.headers.push(Header::new("ACCESS-CONTROL-ALLOW-ORIGIN", "null"));
    CORS.on_response(Method::Get, &mut response);
    assert_cors_headers(&response);
    assert_eq!(values(&response, "x-other"), vec!["kept"]);
    assert_eq!(response.headers.len(), 5);
}

#[test]
fn set_header_tells_whether_it_replaced() {
    let mut response = Response::new();
    assert!(!response.set_header(Header::new("X-A", "1")));
    assert!(!response.set_header(Header::new("X-B", "2")));
    assert!(response.set_header(Header::new("x-a", "3")));
    assert_eq!(
        response.headers,
        vec![Header::new("X-B", "2"), Header::new("x-a", "3")]
    );
}

#[test]
fn edits_are_the_policy() {
    let fixed = vec![
        Edit::SetHeader(Header::new("Access-Control-Allow-Origin", "*")),
        Edit::SetHeader(Header::new("Access-Control-Allow-Methods", "POST, GET, DELETE, OPTIONS")),
        Edit::SetHeader(Header::new("Access-Control-Allow-Headers", "*")),
        Edit::SetHeader(Header::new("Access-Control-Allow-Credentials", "true")),
    ];
    assert_eq!(CORS.edits(Method::Get), fixed);
    assert_eq!(CORS.edits(Method::Post), fixed);
    let mut preflight = fixed;
    preflight.push(Edit::SetHeader(Header::new("Content-Type", "text/plain; charset=utf-8")));
    preflight.push(Edit::SetBody(Vec::new()));
    preflight.push(Edit::SetStatus(200));
    assert_eq!(CORS.edits(Method::Options), preflight);
}

#[test]
fn applying_the_edits_is_on_response() {
    for method in METHODS {
        let mut by_hook = Response::new();
        by_hook.set_status(500);
        by_hook.set_header(Header::new("Content-Type", "text/html"));
        let mut by_edits = Response::new();
        by_edits.set_status(500);
        by_edits.set_header(Header::new("Content-Type", "text/html"));
        CORS.on_response(method, &mut by_hook);
        by_edits.apply_all(CORS.edits(method));
        assert_eq!(by_hook, by_edits);
    }
}

#[test]
fn names_match_ignores_ascii_case_only() {
    assert!(names_match("Content-Type", "content-type"));
    assert!(names_match("CONTENT-TYPE", "content-type"));
    assert!(names_match("", ""));
    assert!(!names_match("Content-Type", "Content-Typ"));
    assert!(!names_match("Content-Type", "Content_Type"));
    assert!(!names_match("É", "é"));
    assert!(!names_match("@", "`"));
    assert!(!names_match("[", "{"));
}
