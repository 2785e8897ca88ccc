use nothing_as_a_service::cors::{is_cors_header, ALLOW_HEADERS, ALLOW_METHODS, ALLOW_ORIGIN, ANY};
use nothing_as_a_service::message::find_header;
use nothing_as_a_service::{with_cors, Header, Response};

fn response(headers: Vec<Header>) -> Response {
    Response { status: 418, headers, body: "tea".to_string() }
}

fn pairs(response: &Response) -> Vec<(String, String)> {
    response.headers.iter().map(|h| (h.name.clone(), h.value.clone())).collect()
}

fn pair(name: &str, value: &str) -> (String, String) {
    (name.to_string(), value.to_string())
}

#[test]
fn header_new_holds_name_and_value() {
    let header = Header::new("content-type", "application/json");
    assert_eq!(header.name, "content-type");
    assert_eq!(header.value, "application/json");
}

#[test]
fn duplicate_is_an_equal_header() {
    let header = Header::new("x-a", "1");
    let copy = header.duplicate();
    assert_eq!(copy.name, "x-a");
    assert_eq!(copy.value, "1");
}

#[test]
fn find_header_returns_the_first_of_a_name() {
    let headers = vec![
        Header::new("accept", "text/html"),
        Header::new("x-a", "1"),
        Header::new("x-a", "2"),
    ];
    assert_eq!(find_header(&headers, "x-a"), Some("1"));
    assert_eq!(find_header(&headers, "accept"), Some("text/html"));
}

#[test]
fn find_header_returns_none_for_a_missing_name() {
    let headers = vec![Header::new("accept", "text/html")];
    assert_eq!(find_header(&headers, "origin"), None);
    assert_eq!(find_header(&headers, "Accept"), None);
    assert_eq!(find_header(&Vec::new(), "accept"), None);
}

#[test]
fn policy_names_are_the_three_allow_headers() {
    assert_eq!(ALLOW_ORIGIN, "access-control-allow-origin");
    assert_eq!(ALLOW_METHODS, "access-control-allow-methods");
    assert_eq!(ALLOW_HEADERS, "access-control-allow-headers");
    assert_eq!(ANY, "*");
    assert!(is_cors_header(&Header::new("access-control-allow-origin", "https://a.example")));
    assert!(is_cors_header(&Header::new("access-control-allow-methods", "GET")));
    assert!(is_cors_header(&Header::new("access-control-allow-headers", "")));
    assert!(!is_cors_header(&Header::new("access-control-max-age", "*")));
    assert!(!is_cors_header(&Header::new("content-type", "*")));
    assert!(!is_cors_header(&Header::new("", "access-control-allow-origin")));
}

#[test]
fn policy_adds_three_headers_and_keeps_status_and_body() {
    let out = with_cors(response(vec![Header::new("content-type", "text/plain")]));
    assert_eq!(out.status, 418);
    assert_eq!(out.body, "tea");
    assert_eq!(
        pairs(&out),
        vec![
            pair("content-type", "text/plain"),
            pair("access-control-allow-origin", "*"),
            pair("access-control-allow-methods", "*"),
            pair("access-control-allow-headers", "*"),
        ]
    );
}

#[test]
fn policy_on_a_response_without_headers() {
    let out = with_cors(response(Vec::new()));
    assert_eq!(
        pairs(&out),
        vec![
            pair("access-control-allow-origin", "*"),
            pair("access-control-allow-methods", "*"),
            pair("access-control-allow-headers", "*"),
        ]
    );
}

#[test]
fn policy_replaces_what_the_handler_set_for_its_three_names() {
    let out = with_cors(response(vec![
        Header::new("access-control-allow-origin", "https://only.example"),
        Header::new("x-a", "1"),
        Header::new("access-control-allow-methods", "GET"),
        Header::new("x-b", "2"),
        Header::new("access-control-allow-headers", "x-a"),
        Header::new("access-control-allow-origin", "https://other.example"),
    ]));
    assert_eq!(
        pairs(&out),
        vec![
            pair("x-a", "1"),
            pair("x-b", "2"),
            pair("access-control-allow-origin", "*"),
            pair("access-control-allow-methods", "*"),
            pair("access-control-allow-headers", "*"),
        ]
    );
    assert_eq!(out.header("access-control-allow-origin"), Some("*"));
    assert_eq!(out.header("x-b"), Some("2"));
}

#[test]
fn policy_applied_twice_changes_nothing_more() {
    let once = with_cors(response(vec![Header::new("x-a", "1")]));
    let expected = pairs(&once);
    let twice = with_cors(once);
    assert_eq!(pairs(&twice), expected);
}
