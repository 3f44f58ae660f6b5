//! Routing and bodies of the two body demos: the one that reads and writes
//! bodies, and the one that shows more body mechanisms (echoing, streaming).
use vstd::prelude::*;

use crate::header::Header;
use crate::text::{debug_text, push_str, str_debug, text_eq};

verus! {

/// The paths the body demos answer.
#[derive(Clone, Copy, PartialEq, Eq, Structural, Debug)]
pub enum BodyRoute {
    /// `/`
    Root,
    /// `/vec_of_u8`
    VecOfU8,
    /// `/request_body`
    RequestBody,
    /// `/forward_response_body`
    ForwardResponseBody,
    /// `/stream_response_body`
    StreamResponseBody,
    /// Any other path.
    NotFound,
}

/// The route of a path in the demo that reads and writes bodies.
pub open spec fn spec_read_write_body_route(path: Seq<char>) -> BodyRoute {
    if path == "/"@ {
        BodyRoute::Root
    } else if path == "/vec_of_u8"@ {
        BodyRoute::VecOfU8
    } else if path == "/request_body"@ {
        BodyRoute::RequestBody
    } else if path == "/forward_response_body"@ {
        BodyRoute::ForwardResponseBody
    } else {
        BodyRoute::NotFound
    }
}

/// The route of a path in the demo of more body mechanisms, which also
/// streams.
pub open spec fn spec_more_body_route(path: Seq<char>) -> BodyRoute {
    if path == "/stream_response_body"@ {
        BodyRoute::StreamResponseBody
    } else {
        spec_read_write_body_route(path)
    }
}

/// Law: in the demo that reads and writes bodies, each route is taken by
/// exactly one path: `/` is the root, `/vec_of_u8` the bytes,
/// `/request_body` the echo, `/forward_response_body` the forwarding, and
/// every other path (streaming included) is not found.
pub proof fn lemma_read_write_body_routes(path: Seq<char>)
    ensures
        (spec_read_write_body_route(path) == BodyRoute::Root) == (path == "/"@),
        (spec_read_write_body_route(path) == BodyRoute::VecOfU8) == (path == "/vec_of_u8"@),
        (spec_read_write_body_route(path) == BodyRoute::RequestBody) == (path == "/request_body"@),
        (spec_read_write_body_route(path) == BodyRoute::ForwardResponseBody) == (path
            == "/forward_response_body"@),
        spec_read_write_body_route(path) != BodyRoute::StreamResponseBody,
        (spec_read_write_body_route(path) == BodyRoute::NotFound) == (path != "/"@ && path
            != "/vec_of_u8"@ && path != "/request_body"@ && path != "/forward_response_body"@),
{
    reveal_strlit("/");
    reveal_strlit("/vec_of_u8");
    reveal_strlit("/request_body");
    reveal_strlit("/forward_response_body");
    assert("/"@.len() == 1 && "/vec_of_u8"@.len() == 10);
    assert("/request_body"@.len() == 13 && "/forward_response_body"@.len() == 22);
}

/// Law: in the demo of more body mechanisms, each route is taken by
/// exactly one path: the four of the other demo, `/stream_response_body`
/// for streaming, and every other path is not found.
pub proof fn lemma_more_body_routes(path: Seq<char>)
    ensures
        (spec_more_body_route(path) == BodyRoute::Root) == (path == "/"@),
        (spec_more_body_route(path) == BodyRoute::VecOfU8) == (path == "/vec_of_u8"@),
        (spec_more_body_route(path) == BodyRoute::RequestBody) == (path == "/request_body"@),
        (spec_more_body_route(path) == BodyRoute::ForwardResponseBody) == (path
            == "/forward_response_body"@),
        (spec_more_body_route(path) == BodyRoute::StreamResponseBody) == (path
            == "/stream_response_body"@),
        (spec_more_body_route(path) == BodyRoute::NotFound) == (path != "/"@ && path
            != "/vec_of_u8"@ && path != "/request_body"@ && path != "/forward_response_body"@
            && path != "/stream_response_body"@),
{
    lemma_read_write_body_routes(path);
    reveal_strlit("/");
    reveal_strlit("/vec_of_u8");
    reveal_strlit("/request_body");
    reveal_strlit("/forward_response_body");
    reveal_strlit("/stream_response_body");
    assert("/"@.len() == 1 && "/vec_of_u8"@.len() == 10);
    assert("/request_body"@.len() == 13 && "/forward_response_body"@.len() == 22);
    assert("/stream_response_body"@.len() == 21);
}

/// Routes a request path in the demo that reads and writes bodies.
pub fn read_write_body_route(path: &str) -> (r: BodyRoute)
    ensures
        r == spec_read_write_body_route(path@),
{
    if text_eq(path, "/") {
        BodyRoute::Root
    } else if text_eq(path, "/vec_of_u8") {
        BodyRoute::VecOfU8
    } else if text_eq(path, "/request_body") {
        BodyRoute::RequestBody
    } else if text_eq(path, "/forward_response_body") {
        BodyRoute::ForwardResponseBody
    } else {
        BodyRoute::NotFound
    }
}

/// Routes a request path in the demo of more body mechanisms.
pub fn more_body_route(path: &str) -> (r: BodyRoute)
    ensures
        r == spec_more_body_route(path@),
{
    if text_eq(path, "/stream_response_body") {
        BodyRoute::StreamResponseBody
    } else {
        read_write_body_route(path)
    }
}

/// The body of the answer to a path nobody serves: `not found: ` and the
/// path as `Debug` shows it.
pub fn not_found_body(path: &str) -> (b: String)
    ensures
        b@ == "not found: "@ + str_debug(path@),
{
    let mut b = String::new();
    push_str(&mut b, "not found: ");
    let shown = debug_text(path);
    push_str(&mut b, shown.as_str());
    b
}

/// The greeting that echoes a request body.
pub fn echo_greeting(request_body: &str) -> (g: String)
    ensures
        g@ == "Hello, world!\nRequest body was:\n"@ + request_body@,
{
    let mut g = String::new();
    push_str(&mut g, "Hello, world!\nRequest body was:\n");
    push_str(&mut g, request_body);
    g
}

/// One line of the streamed greeting.
pub fn dog_greeting(dog: &str) -> (g: String)
    ensures
        g@ == "Hello, "@ + dog@ + "\n"@,
{
    let mut g = String::new();
    push_str(&mut g, "Hello, ");
    push_str(&mut g, dog);
    push_str(&mut g, "\n");
    g
}

/// What to answer after fetching from the upstream server.
pub enum Forward {
    /// The upstream answered with another status than 200: report it.
    UpstreamFailed,
    /// Forward the upstream body, with this header added when the upstream
    /// sent the header looked for.
    Forward { extra_header: Option<Header> },
}

/// What to answer for an upstream answer with this status and this value
/// of the upstream header looked for (the one `HeaderMap::get` gives):
/// report a status other than 200, else forward, copying that value, if
/// any, as a `to` header.
pub fn plan_forward(status: u16, upstream_value: Option<Vec<u8>>, to: &str) -> (f: Forward)
    ensures
        status != 200 ==> f is UpstreamFailed,
        status == 200 ==> match f {
            Forward::UpstreamFailed => false,
            Forward::Forward { extra_header: None } => upstream_value is None,
            Forward::Forward { extra_header: Some(h) } => h.name@ == to@
                && (upstream_value matches Some(v) && h.value@ == v@),
        },
{
    if status != 200 {
        return Forward::UpstreamFailed;
    }
    match upstream_value {
        None => Forward::Forward { extra_header: None },
        Some(value) => Forward::Forward {
            extra_header: Some(Header { name: to.to_owned(), value }),
        },
    }
}

} // verus!
