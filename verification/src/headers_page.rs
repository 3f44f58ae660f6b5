//! The page that lists a request's headers.
//!
//! The page is HTML: a heading, one paragraph per request header with its
//! name and its value as `Debug` shows it, and, when the request's
//! `User-Agent` mentions curl, a note saying so.
use vstd::prelude::*;

use crate::header::{valid_values, Header};
use crate::token_counter::opt_bytes;
use crate::text::{
    byte_chars, chars_of, contains_chars, debug_header_value, header_value_debug, lower_char, lower_text,
    occurs_in, push_str, visible_ascii,
};

verus! {

/// Why the page could not be made.
#[derive(Clone, Copy, PartialEq, Eq, Structural, Debug)]
pub enum PageError {
    /// The `User-Agent` value is not visible ASCII, so it is no text
    /// (`HeaderValue::to_str` refuses it).
    UserAgentNotText,
}

/// The start of the page.
pub open spec fn page_head() -> Seq<char> {
    "<!DOCTYPE html>\n<html>\n<body>\n"@ + "<h1>Request Contents:</h1>\n"@ + "<h2>Headers:</h2>\n"@
}

/// The end of the page.
pub open spec fn page_tail() -> Seq<char> {
    "</body>\n</html>\n"@
}

/// The note for a curl user agent.
pub open spec fn curl_note() -> Seq<char> {
    "<h3>The user agent was curl</h3>\n"@
}

/// The paragraph for one header.
pub open spec fn header_paragraph(h: Header) -> Seq<char> {
    "<p>"@ + h.name@ + ": "@ + header_value_debug(h.value@) + "</p>\n"@
}

/// The paragraphs for a list of headers, in order.
pub open spec fn header_paragraphs(hs: Seq<Header>) -> Seq<char>
    decreases hs.len(),
{
    if hs.len() == 0 {
        seq![]
    } else {
        header_paragraphs(hs.drop_last()) + header_paragraph(hs.last())
    }
}

/// Law: the paragraphs of a list of headers are the paragraphs of its
/// first part followed by those of the rest, wherever it is cut, and a
/// single header gives its own paragraph. So the page holds one paragraph
/// per request header, in the request's order.
pub proof fn lemma_paragraphs_split(hs: Seq<Header>, k: int)
    requires
        0 <= k <= hs.len(),
    ensures
        header_paragraphs(hs) == header_paragraphs(hs.take(k)) + header_paragraphs(hs.skip(k)),
        header_paragraphs(Seq::<Header>::empty()) == Seq::<char>::empty(),
        forall|h: Header| #[trigger] header_paragraphs(seq![h]) == header_paragraph(h),
    decreases hs.len(),
{
    assert forall|h: Header| #[trigger] header_paragraphs(seq![h]) == header_paragraph(h) by {
        assert(seq![h].drop_last() =~= Seq::<Header>::empty());
        assert(header_paragraphs(Seq::<Header>::empty()) =~= Seq::<char>::empty());
        assert(seq![h].last() == h);
        assert(header_paragraphs(seq![h]) =~= header_paragraphs(seq![h].drop_last()) + header_paragraph(h));
    }
    if k == hs.len() {
        assert(hs.take(k) =~= hs);
        assert(hs.skip(k) =~= Seq::<Header>::empty());
        assert(header_paragraphs(hs) =~= header_paragraphs(hs.take(k)) + header_paragraphs(hs.skip(k)));
    } else {
        let rest = hs.drop_last();
        lemma_paragraphs_split(rest, k);
        assert(rest.take(k) =~= hs.take(k));
        assert(hs.skip(k).drop_last() =~= rest.skip(k));
        assert(hs.skip(k).last() == hs.last());
        assert(header_paragraphs(hs) =~= header_paragraphs(hs.take(k)) + header_paragraphs(hs.skip(k)));
    }
}

/// Whether a user agent counts as curl: its text, lowercased as
/// `str::to_lowercase` lowers ASCII, contains `curl`.
pub open spec fn is_curl(user_agent: Seq<u8>) -> bool {
    occurs_in(lower_text(byte_chars(user_agent)), "curl"@)
}

/// The page for a request with these headers and this `User-Agent` value
/// (the one `HeaderMap::get` gives). It fails when the user agent is not
/// visible ASCII; it has the curl note when the user agent mentions curl
/// in any case.
pub open spec fn spec_headers_page(headers: Seq<Header>, user_agent: Option<Seq<u8>>) -> Result<Seq<char>, PageError> {
    let body = page_head() + header_paragraphs(headers);
    match user_agent {
        None => Ok(body + page_tail()),
        Some(ua) => if !(forall|i: int| 0 <= i < ua.len() ==> visible_ascii(#[trigger] ua[i])) {
            Err(PageError::UserAgentNotText)
        } else if is_curl(ua) {
            Ok(body + curl_note() + page_tail())
        } else {
            Ok(body + page_tail())
        },
    }
}

/// Law: a user agent that is visible ASCII and spells `curl` in any mix of
/// cases gives the page with the curl note; the note depends on the user
/// agent only up to letter case; without a user agent the page has no note.
pub proof fn lemma_curl_note(headers: Seq<Header>, ua: Seq<u8>, other: Seq<u8>)
    ensures
        spec_headers_page(headers, None) == Ok::<Seq<char>, PageError>(
            page_head() + header_paragraphs(headers) + page_tail(),
        ),
        (forall|i: int| 0 <= i < ua.len() ==> visible_ascii(#[trigger] ua[i]))
            && occurs_in(lower_text(byte_chars(ua)), "curl"@) ==> spec_headers_page(headers, Some(ua))
            == Ok::<Seq<char>, PageError>(
            page_head() + header_paragraphs(headers) + curl_note() + page_tail(),
        ),
        (forall|i: int| 0 <= i < ua.len() ==> visible_ascii(#[trigger] ua[i]))
            && (forall|i: int| 0 <= i < other.len() ==> visible_ascii(#[trigger] other[i]))
            && lower_text(byte_chars(ua)) == lower_text(byte_chars(other)) ==> spec_headers_page(
            headers,
            Some(ua),
        ) == spec_headers_page(headers, Some(other)),
        occurs_in(byte_chars(ua), "curl"@) ==> occurs_in(lower_text(byte_chars(ua)), "curl"@),
{
    if occurs_in(byte_chars(ua), "curl"@) {
        reveal_strlit("curl");
        let b = byte_chars(ua);
        let i = choose|i: int| crate::text::occurs_at(b, "curl"@, i);
        let t = lower_text(b);
        assert(t.subrange(i, i + 4) =~= "curl"@) by {
            assert forall|j: int| 0 <= j < 4 implies t.subrange(i, i + 4)[j] == "curl"@[j] by {
                assert(b.subrange(i, i + 4)[j] == "curl"@[j]);
                assert(b[i + j] == "curl"@[j]);
                assert(t[i + j] == lower_char(b[i + j]));
            }
        }
        assert(crate::text::occurs_at(t, "curl"@, i));
    }
}

/// The user agent's text, lowercased, if it is visible ASCII.
fn lowercase_user_agent(ua: &Vec<u8>) -> (r: Option<Vec<char>>)
    ensures
        match r {
            None => !(forall|i: int| 0 <= i < ua@.len() ==> visible_ascii(#[trigger] ua@[i])),
            Some(t) => (forall|i: int| 0 <= i < ua@.len() ==> visible_ascii(#[trigger] ua@[i]))
                && t@ == lower_text(byte_chars(ua@)),
        },
{
    let mut t: Vec<char> = Vec::new();
    let mut i: usize = 0;
    while i < ua.len()
        invariant
            i <= ua.len(),
            forall|j: int| 0 <= j < i ==> visible_ascii(#[trigger] ua@[j]),
            t@ == lower_text(byte_chars(ua@.take(i as int))),
        decreases ua.len() - i,
    {
        let b = ua[i];
        if !((32 <= b && b < 127) || b == 9) {
            return None;
        }
        let c = if 65 <= b && b <= 90 {
            (b + 32) as char
        } else {
            b as char
        };
        proof {
            assert(c == lower_char(b as char));
        }
        t.push(c);
        proof {
            assert(lower_text(byte_chars(ua@.take(i + 1))) =~= lower_text(byte_chars(ua@.take(i as int))).push(c));
        }
        i += 1;
    }
    proof {
        assert(ua@.take(ua@.len() as int) =~= ua@);
    }
    Some(t)
}

/// Makes the page that lists the request's headers, given them in the
/// header map's order and the map's `User-Agent` value.
pub fn headers_page(headers: &Vec<Header>, user_agent: &Option<Vec<u8>>) -> (r: Result<String, PageError>)
    requires
        valid_values(headers@),
    ensures
        match r {
            Ok(page) => spec_headers_page(headers@, opt_bytes(*user_agent)) == Ok::<Seq<char>, PageError>(page@),
            Err(e) => spec_headers_page(headers@, opt_bytes(*user_agent)) == Err::<Seq<char>, PageError>(e),
        },
{
    let mut page = String::new();
    push_str(&mut page, "<!DOCTYPE html>\n<html>\n<body>\n");
    push_str(&mut page, "<h1>Request Contents:</h1>\n");
    push_str(&mut page, "<h2>Headers:</h2>\n");
    let mut i: usize = 0;
    while i < headers.len()
        invariant
            i <= headers.len(),
            valid_values(headers@),
            page@ == page_head() + header_paragraphs(headers@.take(i as int)),
        decreases headers.len() - i,
    {
        let h = &headers[i];
        push_str(&mut page, "<p>");
        push_str(&mut page, h.name.as_str());
        push_str(&mut page, ": ");
        let shown = debug_header_value(h.value.as_slice());
        push_str(&mut page, shown.as_str());
        push_str(&mut page, "</p>\n");
        proof {
            let hs = headers@.take(i + 1);
            assert(hs.drop_last() =~= headers@.take(i as int));
            assert(hs.last() == headers@[i as int]);
        }
        i += 1;
    }
    proof {
        assert(headers@.take(headers@.len() as int) =~= headers@);
    }
    match user_agent {
        None => {},
        Some(ua) => {
            match lowercase_user_agent(ua) {
                None => return Err(PageError::UserAgentNotText),
                Some(lowered_ua) => {
                    let curl = chars_of("curl");
                    if contains_chars(&lowered_ua, &curl) {
                        push_str(&mut page, "<h3>The user agent was curl</h3>\n");
                    }
                },
            }
        },
    }
    push_str(&mut page, "</body>\n</html>\n");
    Ok(page)
}

} // verus!
