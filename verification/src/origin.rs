//! The example origin server: its routes, the page that shows request
//! headers (and echoes some of them back as response headers), and the
//! reader's answer.
use vstd::prelude::*;

use crate::header::{valid_value, valid_values, Header};
use crate::text::{
    chars_of, contains_text, lower_char, lower_text, debug_header_value, debug_text, header_value_debug, occurs_in,
    push_char, push_str, str_debug, text_eq,
};

verus! {

/// The paths the origin serves.
#[derive(Clone, Copy, PartialEq, Eq, Structural, Debug)]
pub enum OriginRoute {
    /// `/show_headers`
    ShowHeaders,
    /// `/image.png`
    Image,
    /// `/people.json`
    People,
    /// `/metrics.json`
    Metrics,
    /// `/reader`
    Reader,
    /// Any other path: answered with 404.
    NotFound,
}

/// The route of a path.
pub open spec fn spec_origin_route(path: Seq<char>) -> OriginRoute {
    if path == "/show_headers"@ {
        OriginRoute::ShowHeaders
    } else if path == "/image.png"@ {
        OriginRoute::Image
    } else if path == "/people.json"@ {
        OriginRoute::People
    } else if path == "/metrics.json"@ {
        OriginRoute::Metrics
    } else if path == "/reader"@ {
        OriginRoute::Reader
    } else {
        OriginRoute::NotFound
    }
}

/// Law: each route of the origin is taken by exactly one path, and every
/// other path is not found.
pub proof fn lemma_origin_routes(path: Seq<char>)
    ensures
        (spec_origin_route(path) == OriginRoute::ShowHeaders) == (path == "/show_headers"@),
        (spec_origin_route(path) == OriginRoute::Image) == (path == "/image.png"@),
        (spec_origin_route(path) == OriginRoute::People) == (path == "/people.json"@),
        (spec_origin_route(path) == OriginRoute::Metrics) == (path == "/metrics.json"@),
        (spec_origin_route(path) == OriginRoute::Reader) == (path == "/reader"@),
        (spec_origin_route(path) == OriginRoute::NotFound) == (path != "/show_headers"@ && path
            != "/image.png"@ && path != "/people.json"@ && path != "/metrics.json"@ && path
            != "/reader"@),
{
    reveal_strlit("/show_headers");
    reveal_strlit("/image.png");
    reveal_strlit("/people.json");
    reveal_strlit("/metrics.json");
    reveal_strlit("/reader");
    assert("/show_headers"@[1] != "/image.png"@[1]);
    assert("/show_headers"@[1] != "/people.json"@[1]);
    assert("/show_headers"@[1] != "/metrics.json"@[1]);
    assert("/show_headers"@[1] != "/reader"@[1]);
    assert("/image.png"@[1] != "/people.json"@[1]);
    assert("/image.png"@[1] != "/metrics.json"@[1]);
    assert("/image.png"@[1] != "/reader"@[1]);
    assert("/people.json"@[1] != "/metrics.json"@[1]);
    assert("/people.json"@[1] != "/reader"@[1]);
    assert("/metrics.json"@[1] != "/reader"@[1]);
}

/// Routes a request path.
pub fn origin_route(path: &str) -> (r: OriginRoute)
    ensures
        r == spec_origin_route(path@),
{
    if text_eq(path, "/show_headers") {
        OriginRoute::ShowHeaders
    } else if text_eq(path, "/image.png") {
        OriginRoute::Image
    } else if text_eq(path, "/people.json") {
        OriginRoute::People
    } else if text_eq(path, "/metrics.json") {
        OriginRoute::Metrics
    } else if text_eq(path, "/reader") {
        OriginRoute::Reader
    } else {
        OriginRoute::NotFound
    }
}

/// A text of ASCII characters.
pub open spec fn ascii_chars(s: Seq<char>) -> bool {
    forall|i: int| 0 <= i < s.len() ==> #[trigger] s[i] <= '\u{7f}'
}

/// The prefix of the request headers that are echoed as response headers.
pub open spec fn echo_prefix() -> Seq<char> {
    "x-response-header-"@
}

/// The name of the response header that a request header asks for: what
/// follows the prefix in its lowercased name, if it has the prefix.
pub open spec fn echo_name(name: Seq<char>) -> Option<Seq<char>> {
    let l = lower_text(name);
    if l.len() >= echo_prefix().len() && l.take(echo_prefix().len() as int) == echo_prefix() {
        Some(l.skip(echo_prefix().len() as int))
    } else {
        None
    }
}

/// Law: a request header asks for the response header `n` exactly when
/// its lowercased name is `x-response-header-` followed by `n`.
pub proof fn lemma_echo_name(name: Seq<char>, n: Seq<char>)
    ensures
        (echo_name(name) == Some(n)) == (lower_text(name) == "x-response-header-"@ + n),
        (echo_name(name) is None) == (forall|m: Seq<char>| lower_text(name) != "x-response-header-"@ + m),
{
    let l = lower_text(name);
    let p = "x-response-header-"@;
    if l == p + n {
        assert(l.take(p.len() as int) =~= p);
        assert(l.skip(p.len() as int) =~= n);
    }
    if echo_name(name) is Some {
        assert(l =~= p + l.skip(p.len() as int));
    } else {
        assert forall|m: Seq<char>| l != p + m by {
            if l == p + m {
                assert(l.take(p.len() as int) =~= p);
            }
        }
    }
}

/// The line shown for one request header.
pub open spec fn show_line(h: Header) -> Seq<char> {
    match echo_name(h.name@) {
        Some(n) => "response header "@ + n + ": "@ + header_value_debug(h.value@),
        None => "request header "@ + h.name@ + ": "@ + header_value_debug(h.value@),
    }
}

/// The lines for a list of headers, joined with newlines.
pub open spec fn show_lines(hs: Seq<Header>) -> Seq<char>
    decreases hs.len(),
{
    if hs.len() == 0 {
        seq![]
    } else if hs.len() == 1 {
        show_line(hs[0])
    } else {
        show_lines(hs.drop_last()) + "\n"@ + show_line(hs.last())
    }
}

/// Law: the body of `/show_headers` has one line per request header, in
/// order, separated by newlines: cut the headers anywhere inside and the
/// body is the first part's lines, a newline, and the rest's lines; a
/// single header gives its own line, and no header an empty body.
pub proof fn lemma_show_lines_split(hs: Seq<Header>, k: int)
    requires
        0 < k < hs.len(),
    ensures
        show_lines(hs) == show_lines(hs.take(k)) + "\n"@ + show_lines(hs.skip(k)),
        show_lines(Seq::<Header>::empty()) == Seq::<char>::empty(),
        forall|h: Header| #[trigger] show_lines(seq![h]) == show_line(h),
    decreases hs.len(),
{
    let rest = hs.drop_last();
    if k == hs.len() - 1 {
        assert(hs.take(k) =~= rest);
        assert(hs.skip(k) =~= seq![hs.last()]);
        assert(show_lines(seq![hs.last()]) == show_line(hs.last()));
        assert(show_lines(hs) =~= show_lines(hs.take(k)) + "\n"@ + show_lines(hs.skip(k)));
    } else {
        lemma_show_lines_split(rest, k);
        assert(rest.take(k) =~= hs.take(k));
        assert(hs.skip(k).drop_last() =~= rest.skip(k));
        assert(hs.skip(k).last() == hs.last());
        assert(hs.skip(k).len() >= 2);
        assert(show_lines(hs) =~= show_lines(hs.take(k)) + "\n"@ + show_lines(hs.skip(k)));
    }
}

/// The response headers to insert, in order: for each request header with
/// the prefix, the name after the prefix and the same value.
pub open spec fn echoed_headers(hs: Seq<Header>) -> Seq<(Seq<char>, Seq<u8>)>
    decreases hs.len(),
{
    if hs.len() == 0 {
        seq![]
    } else {
        let rest = echoed_headers(hs.drop_last());
        match echo_name(hs.last().name@) {
            Some(n) => rest.push((n, hs.last().value@)),
            None => rest,
        }
    }
}

/// The request headers that ask to be echoed: those whose lowercased name
/// has the prefix.
pub open spec fn asks_echo() -> spec_fn(Header) -> bool {
    |h: Header| echo_name(h.name@) is Some
}

/// Law: the echoed response headers are exactly the request headers that
/// have the prefix: one per such request header, each request header with
/// the prefix is echoed (with the rest of its name and its value), and
/// every echoed header comes from such a request header.
pub proof fn lemma_echoed_headers_are_the_prefixed_ones(hs: Seq<Header>)
    ensures
        echoed_headers(hs).len() == hs.filter(asks_echo()).len(),
        forall|i: int|
            0 <= i < hs.len() && (#[trigger] echo_name(hs[i].name@)) is Some ==> echoed_headers(
                hs,
            ).contains((echo_name(hs[i].name@)->0, hs[i].value@)),
        forall|j: int|
            0 <= j < echoed_headers(hs).len() ==> exists|i: int|
                0 <= i < hs.len() && echo_name(hs[i].name@) == Some(
                    (#[trigger] echoed_headers(hs)[j]).0,
                ) && echoed_headers(hs)[j].1 == hs[i].value@,
    decreases hs.len(),
{
    reveal(Seq::filter);
    if hs.len() > 0 {
        let rest = hs.drop_last();
        lemma_echoed_headers_are_the_prefixed_ones(rest);
        let er = echoed_headers(rest);
        let e = echoed_headers(hs);
        let last = hs.len() - 1;
        assert(hs.filter(asks_echo()) == if asks_echo()(hs.last()) {
            rest.filter(asks_echo()).push(hs.last())
        } else {
            rest.filter(asks_echo())
        });
        assert forall|i: int|
            0 <= i < hs.len() && (#[trigger] echo_name(hs[i].name@)) is Some implies e.contains(
                (echo_name(hs[i].name@)->0, hs[i].value@),
            ) by {
            if i < last {
                assert(hs[i] == rest[i]);
                assert(echo_name(rest[i].name@) is Some);
                let k = choose|k: int| 0 <= k < er.len() && er[k] == (echo_name(rest[i].name@)->0, rest[i].value@);
                assert(e[k] == er[k]);
            } else {
                assert(e[e.len() - 1] == (echo_name(hs[i].name@)->0, hs[i].value@));
            }
        }
        assert forall|j: int| 0 <= j < e.len() implies exists|i: int|
            0 <= i < hs.len() && echo_name(hs[i].name@) == Some((#[trigger] e[j]).0) && e[j].1
                == hs[i].value@ by {
            if j < er.len() {
                assert(e[j] == er[j]);
                let i = choose|i: int|
                    0 <= i < rest.len() && echo_name(rest[i].name@) == Some((#[trigger] er[j]).0)
                        && er[j].1 == rest[i].value@;
                assert(hs[i] == rest[i]);
            } else {
                assert(echo_name(hs[last].name@) == Some(e[j].0));
            }
        }
    }
}

/// The answer of `/show_headers`: a body, and headers to insert into the
/// response one after the other.
pub struct ShownHeaders {
    pub body: String,
    pub response_headers: Vec<Header>,
}

/// The response headers as name and value sequences.
pub open spec fn header_pairs(hs: Seq<Header>) -> Seq<(Seq<char>, Seq<u8>)> {
    Seq::new(hs.len(), |i: int| (hs[i].name@, hs[i].value@))
}

/// Request headers `/show_headers` can answer: names are ASCII, as header
/// names are, values are valid, and no name is the bare prefix (whose empty
/// remainder is no header name).
pub open spec fn showable(hs: Seq<Header>) -> bool {
    &&& valid_values(hs)
    &&& forall|i: int| 0 <= i < hs.len() ==> ascii_chars(#[trigger] hs[i].name@)
    &&& forall|i: int| 0 <= i < hs.len() ==> echo_name(#[trigger] hs[i].name@) != Some(Seq::<char>::empty())
}

/// The lowercased name and, when it has the prefix, what follows it.
fn echo_name_of(name: &str) -> (r: Option<String>)
    ensures
        match r {
            None => echo_name(name@) is None,
            Some(n) => echo_name(name@) == Some(n@),
        },
{
    let cs = chars_of(name);
    let prefix = chars_of("x-response-header-");
    proof {
        reveal_strlit("x-response-header-");
    }
    let mut lowered: Vec<char> = Vec::new();
    let mut i: usize = 0;
    while i < cs.len()
        invariant
            i <= cs.len(),
            cs@ == name@,
            lowered@ == lower_text(cs@.take(i as int)),
        decreases cs.len() - i,
    {
        let c = cs[i];
        let l = if 'A' <= c && c <= 'Z' {
            ((c as u8) + 32) as char
        } else {
            c
        };
        proof {
            assert(l == lower_char(c));
            assert(lower_text(cs@.take(i + 1)) =~= lower_text(cs@.take(i as int)).push(l));
        }
        lowered.push(l);
        i += 1;
    }
    proof {
        assert(cs@.take(cs@.len() as int) =~= cs@);
    }
    if lowered.len() < prefix.len() {
        return None;
    }
    let mut j: usize = 0;
    while j < prefix.len()
        invariant
            j <= prefix.len(),
            prefix.len() <= lowered.len(),
            prefix@ == echo_prefix(),
            lowered@ == lower_text(name@),
            forall|k: int| 0 <= k < j ==> lowered@[k] == prefix@[k],
        decreases prefix.len() - j,
    {
        if lowered[j] != prefix[j] {
            proof {
                assert(lowered@.take(prefix@.len() as int)[j as int] != prefix@[j as int]);
            }
            return None;
        }
        j += 1;
    }
    proof {
        assert(lowered@.take(prefix@.len() as int) =~= prefix@);
    }
    let mut rest = String::new();
    let mut k: usize = prefix.len();
    while k < lowered.len()
        invariant
            prefix.len() <= k <= lowered.len(),
            rest@ == lowered@.subrange(prefix@.len() as int, k as int),
            prefix@ == echo_prefix(),
            lowered@ == lower_text(name@),
            lowered@.take(prefix@.len() as int) == prefix@,
        decreases lowered.len() - k,
    {
        push_char(&mut rest, lowered[k]);
        proof {
            assert(lowered@.subrange(prefix@.len() as int, k + 1) =~= lowered@.subrange(
                prefix@.len() as int,
                k as int,
            ).push(lowered@[k as int]));
        }
        k += 1;
    }
    proof {
        assert(lowered@.subrange(prefix@.len() as int, lowered@.len() as int) =~= lowered@.skip(
            prefix@.len() as int,
        ));
    }
    Some(rest)
}

/// Whether a header value's bytes are all valid.
fn valid_value_bytes(value: &Vec<u8>) -> (r: bool)
    ensures
        r == valid_value(value@),
{
    let mut i: usize = 0;
    while i < value.len()
        invariant
            i <= value.len(),
            forall|j: int| 0 <= j < i ==> crate::text::header_value_byte(#[trigger] value@[j]),
        decreases value.len() - i,
    {
        let b = value[i];
        if !((b >= 32 && b != 127) || b == 9) {
            return false;
        }
        i += 1;
    }
    true
}

/// Whether a text is ASCII.
fn ascii_text(s: &str) -> (r: bool)
    ensures
        r == ascii_chars(s@),
{
    let cs = chars_of(s);
    let mut i: usize = 0;
    while i < cs.len()
        invariant
            i <= cs.len(),
            cs@ == s@,
            forall|j: int| 0 <= j < i ==> #[trigger] cs@[j] <= '\u{7f}',
        decreases cs.len() - i,
    {
        let c = cs[i];
        if c > '\u{7f}' {
            return false;
        }
        i += 1;
    }
    true
}

/// Whether `/show_headers` can answer a request with these headers.
pub fn can_show_headers(headers: &Vec<Header>) -> (r: bool)
    ensures
        r == showable(headers@),
{
    let mut i: usize = 0;
    while i < headers.len()
        invariant
            i <= headers.len(),
            forall|j: int| 0 <= j < i ==> valid_value(#[trigger] headers@[j].value@),
            forall|j: int| 0 <= j < i ==> ascii_chars(#[trigger] headers@[j].name@),
            forall|j: int| 0 <= j < i ==> echo_name(#[trigger] headers@[j].name@) != Some(Seq::<char>::empty()),
        decreases headers.len() - i,
    {
        let h = &headers[i];
        if !valid_value_bytes(&h.value) || !ascii_text(h.name.as_str()) {
            return false;
        }
        match echo_name_of(h.name.as_str()) {
            Some(n) => {
                if n.as_str().is_empty() {
                    proof {
                        assert(n@ =~= Seq::<char>::empty());
                    }
                    return false;
                }
            },
            None => {},
        }
        i += 1;
    }
    true
}

/// Answers `/show_headers`: a body with one line per request header,
/// joined with newlines, and the response headers the request asks for.
pub fn show_headers(headers: &Vec<Header>) -> (r: ShownHeaders)
    requires
        showable(headers@),
    ensures
        r.body@ == show_lines(headers@),
        header_pairs(r.response_headers@) == echoed_headers(headers@),
{
    let mut body = String::new();
    let mut echoed: Vec<Header> = Vec::new();
    let mut i: usize = 0;
    while i < headers.len()
        invariant
            i <= headers.len(),
            showable(headers@),
            body@ == show_lines(headers@.take(i as int)),
            header_pairs(echoed@) == echoed_headers(headers@.take(i as int)),
        decreases headers.len() - i,
    {
        let h = &headers[i];
        if i > 0 {
            push_str(&mut body, "\n");
        }
        let shown = debug_header_value(h.value.as_slice());
        match echo_name_of(h.name.as_str()) {
            Some(name) => {
                push_str(&mut body, "response header ");
                push_str(&mut body, name.as_str());
                push_str(&mut body, ": ");
                push_str(&mut body, shown.as_str());
                let ghost before = echoed@;
                echoed.push(Header { name, value: h.value.clone() });
                proof {
                    assert(header_pairs(echoed@) =~= header_pairs(before).push(
                        (echoed@.last().name@, echoed@.last().value@),
                    ));
                }
            },
            None => {
                push_str(&mut body, "request header ");
                push_str(&mut body, h.name.as_str());
                push_str(&mut body, ": ");
                push_str(&mut body, shown.as_str());
            },
        }
        proof {
            let hs = headers@.take(i + 1);
            assert(hs.drop_last() =~= headers@.take(i as int));
            assert(hs.last() == headers@[i as int]);
            if i == 0 {
                assert(hs.len() == 1);
                assert(hs[0] == headers@[0]);
            }
        }
        i += 1;
    }
    proof {
        assert(headers@.take(headers@.len() as int) =~= headers@);
    }
    ShownHeaders { body, response_headers: echoed }
}

/// The reader's answer to a request body: it quotes the body, and gives
/// away a secret when the body mentions `etc/passwd`.
pub open spec fn spec_reader_body(request_body: Seq<char>) -> Seq<char> {
    "this response is from the origin server.\nrequest body was: "@ + str_debug(request_body)
        + "\n"@ + if occurs_in(request_body, "etc/passwd"@) {
        "the root passwd is hunter2\n"@
    } else {
        Seq::<char>::empty()
    }
}

/// Law: the reader's answer starts with the same sentence and the quoted
/// request body for every request; what follows is the secret when the
/// request body mentions `etc/passwd`, and nothing otherwise.
pub proof fn lemma_reader_gives_secret_only_when_asked(request_body: Seq<char>)
    ensures
        ({
            let head = "this response is from the origin server.\nrequest body was: "@ + str_debug(
                request_body,
            ) + "\n"@;
            let answer = spec_reader_body(request_body);
            &&& answer.take(head.len() as int) == head
            &&& occurs_in(request_body, "etc/passwd"@) ==> answer.skip(head.len() as int)
                == "the root passwd is hunter2\n"@
            &&& !occurs_in(request_body, "etc/passwd"@) ==> answer == head
        }),
{
    let head = "this response is from the origin server.\nrequest body was: "@ + str_debug(
        request_body,
    ) + "\n"@;
    let answer = spec_reader_body(request_body);
    if occurs_in(request_body, "etc/passwd"@) {
        assert(answer == head + "the root passwd is hunter2\n"@);
        assert(answer.take(head.len() as int) =~= head);
        assert(answer.skip(head.len() as int) =~= "the root passwd is hunter2\n"@);
    } else {
        assert(answer =~= head);
        assert(answer.take(head.len() as int) =~= head);
    }
}

/// Answers `/reader`.
pub fn reader_body(request_body: &str) -> (b: String)
    ensures
        b@ == spec_reader_body(request_body@),
{
    let mut b = String::new();
    push_str(&mut b, "this response is from the origin server.\nrequest body was: ");
    let shown = debug_text(request_body);
    push_str(&mut b, shown.as_str());
    push_str(&mut b, "\n");
    if contains_text(request_body, "etc/passwd") {
        push_str(&mut b, "the root passwd is hunter2\n");
    }
    b
}

} // verus!
