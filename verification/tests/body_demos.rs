use f5_programmability::body_demos::{
    dog_greeting, echo_greeting, more_body_route, not_found_body, plan_forward,
    read_write_body_route, BodyRoute, Forward,
};

#[test]
fn routes_of_the_read_write_demo() {
    assert_eq!(read_write_body_route("/"), BodyRoute::Root);
    assert_eq!(read_write_body_route("/vec_of_u8"), BodyRoute::VecOfU8);
    assert_eq!(read_write_body_route("/request_body"), BodyRoute::RequestBody);
    assert_eq!(read_write_body_route("/forward_response_body"), BodyRoute::ForwardResponseBody);
    assert_eq!(read_write_body_route("/stream_response_body"), BodyRoute::NotFound);
    assert_eq!(read_write_body_route("/something"), BodyRoute::NotFound);
}

#[test]
fn routes_of_the_more_mechanisms_demo() {
    assert_eq!(more_body_route("/"), BodyRoute::Root);
    assert_eq!(more_body_route("/stream_response_body"), BodyRoute::StreamResponseBody);
    assert_eq!(more_body_route("/request_body/"), BodyRoute::NotFound);
}

#[test]
fn not_found_quotes_the_path() {
    assert_eq!(not_found_body("/something"), "not found: \"/something\"");
    assert_eq!(not_found_body("/a\"b\n"), "not found: \"/a\\\"b\\n\"");
}

#[test]
fn greetings() {
    assert_eq!(
        echo_greeting("Hello, F5 Wasm Programmability!"),
        "Hello, world!\nRequest body was:\nHello, F5 Wasm Programmability!"
    );
    let dogs = ["Gussie", "Willa", "Sparky", "Benny"];
    let all: String = dogs.iter().map(|d| dog_greeting(d)).collect();
    assert_eq!(all, "Hello, Gussie\nHello, Willa\nHello, Sparky\nHello, Benny\n");
}

#[test]
fn forwarding_plans() {
    assert!(matches!(plan_forward(500, Some(b"0.1.0".to_vec()), "x-upstream-example"), Forward::UpstreamFailed));
    match plan_forward(200, Some(b"0.1.0".to_vec()), "x-upstream-example") {
        Forward::Forward { extra_header: Some(h) } => {
            assert_eq!(h.name, "x-upstream-example");
            assert_eq!(h.value, b"0.1.0".to_vec());
        }
        _ => panic!("expected a forwarded header"),
    }
    assert!(matches!(plan_forward(200, None, "upstream-server"), Forward::Forward { extra_header: None }));
}
