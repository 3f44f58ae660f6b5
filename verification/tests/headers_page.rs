use f5_programmability::header::Header;
use f5_programmability::headers_page::{headers_page, PageError};

fn h(name: &str, value: &[u8]) -> Header {
    Header { name: name.to_owned(), value: value.to_vec() }
}

const HEAD: &str = "<!DOCTYPE html>\n<html>\n<body>\n<h1>Request Contents:</h1>\n<h2>Headers:</h2>\n";
const TAIL: &str = "</body>\n</html>\n";

#[test]
fn lists_headers_and_notes_curl() {
    let headers = vec![h("host", b"10.1.1.4:8000"), h("user-agent", b"curl/8.5.0"), h("accept", b"*/*")];
    let page = headers_page(&headers, &Some(b"curl/8.5.0".to_vec())).unwrap();
    let expected = format!(
        "{HEAD}<p>host: \"10.1.1.4:8000\"</p>\n<p>user-agent: \"curl/8.5.0\"</p>\n<p>accept: \"*/*\"</p>\n<h3>The user agent was curl</h3>\n{TAIL}"
    );
    assert_eq!(page, expected);
}

#[test]
fn curl_is_found_in_any_case() {
    let page = headers_page(&vec![h("user-agent", b"Mozilla CURL-ish")], &Some(b"Mozilla CURL-ish".to_vec())).unwrap();
    assert!(page.contains("<h3>The user agent was curl</h3>"));
    let page = headers_page(&vec![h("user-agent", b"Mozilla/5.0")], &Some(b"Mozilla/5.0".to_vec())).unwrap();
    assert!(!page.contains("curl</h3>"));
}

#[test]
fn no_user_agent_no_note() {
    let page = headers_page(&vec![], &None).unwrap();
    assert_eq!(page, format!("{HEAD}{TAIL}"));
}

#[test]
fn values_are_shown_escaped() {
    let page = headers_page(&vec![h("x-odd", b"a\"b\tc\xff")], &None).unwrap();
    assert_eq!(page, format!("{HEAD}<p>x-odd: \"a\\\"b\tc\\xff\"</p>\n{TAIL}"));
}

#[test]
fn user_agent_that_is_no_text_fails() {
    assert_eq!(
        headers_page(&vec![h("user-agent", b"curl\x80")], &Some(b"curl\x80".to_vec())),
        Err(PageError::UserAgentNotText)
    );
}

#[test]
fn the_user_agent_given_decides() {
    let page = headers_page(&vec![h("user-agent", b"wget"), h("user-agent", b"curl")], &Some(b"wget".to_vec())).unwrap();
    assert!(!page.contains("<h3>"));
}
