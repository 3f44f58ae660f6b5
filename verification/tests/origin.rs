use f5_programmability::header::Header;
use f5_programmability::origin::{can_show_headers, origin_route, reader_body, show_headers, OriginRoute};

fn h(name: &str, value: &[u8]) -> Header {
    Header { name: name.to_owned(), value: value.to_vec() }
}

#[test]
fn origin_routes() {
    assert_eq!(origin_route("/show_headers"), OriginRoute::ShowHeaders);
    assert_eq!(origin_route("/image.png"), OriginRoute::Image);
    assert_eq!(origin_route("/people.json"), OriginRoute::People);
    assert_eq!(origin_route("/metrics.json"), OriginRoute::Metrics);
    assert_eq!(origin_route("/reader"), OriginRoute::Reader);
    assert_eq!(origin_route("/"), OriginRoute::NotFound);
}

#[test]
fn show_headers_echoes_prefixed_headers() {
    let headers = vec![
        h("host", b"example"),
        h("x-response-header-cache-control", b"no-store"),
        h("accept", b"*/*"),
    ];
    assert!(can_show_headers(&headers));
    let shown = show_headers(&headers);
    assert_eq!(
        shown.body,
        "request header host: \"example\"\nresponse header cache-control: \"no-store\"\nrequest header accept: \"*/*\""
    );
    assert_eq!(shown.response_headers.len(), 1);
    assert_eq!(shown.response_headers[0].name, "cache-control");
    assert_eq!(shown.response_headers[0].value, b"no-store".to_vec());
}

#[test]
fn show_headers_of_nothing() {
    let shown = show_headers(&vec![]);
    assert_eq!(shown.body, "");
    assert!(shown.response_headers.is_empty());
}

#[test]
fn bare_prefix_cannot_be_shown() {
    assert!(!can_show_headers(&vec![h("x-response-header-", b"v")]));
    assert!(!can_show_headers(&vec![h("host", b"bad\x7f")]));
}

#[test]
fn reader_answers() {
    assert_eq!(
        reader_body("hello"),
        "this response is from the origin server.\nrequest body was: \"hello\"\n"
    );
    assert_eq!(
        reader_body("cat /etc/passwd"),
        "this response is from the origin server.\nrequest body was: \"cat /etc/passwd\"\nthe root passwd is hunter2\n"
    );
}
