//! Text helpers: building `String`s, comparing and searching characters,
//! and the two `Debug` renderings the programs print (of a `str` and of an
//! HTTP header value).
use vstd::prelude::*;
use vstd::slice::slice_to_vec;
use vstd::string::StringExecFns;
use vstd::utf8::is_ascii_chars;

verus! {

broadcast use vstd::string::group_string_axioms;

/// The bytes of an ASCII text, one per character.
pub open spec fn ascii_bytes(s: Seq<char>) -> Seq<u8> {
    Seq::new(s.len(), |i: int| s[i] as u8)
}

/// The bytes of an ASCII text.
pub fn ascii_to_bytes(s: &str) -> (b: Vec<u8>)
    requires
        is_ascii_chars(s@),
    ensures
        b@ == ascii_bytes(s@),
{
    let b = slice_to_vec(s.as_bytes());
    proof {
        assert(vstd::string::is_ascii(s));
        assert(b@ =~= ascii_bytes(s@));
    }
    b
}

/// Appends a text to a `String`.
pub fn push_str(s: &mut String, t: &str)
    ensures
        final(s)@ == old(s)@ + t@,
{
    s.append(t);
}

/// `String::push`: appends one character.
#[verifier::external_body]
pub(crate) fn push_char(s: &mut String, c: char)
    ensures
        final(s)@ == old(s)@.push(c),
{
    s.push(c);
}

/// The characters of a text.
pub fn chars_of(s: &str) -> (v: Vec<char>)
    ensures
        v@ == s@,
{
    let mut v: Vec<char> = Vec::new();
    for c in it: s.chars()
        invariant
            it.seq() == s@,
            v@ == s@.take(it.index() as int),
    {
        proof {
            assert(s@.take(it.index() + 1) =~= s@.take(it.index() as int).push(c));
        }
        v.push(c);
    }
    proof {
        assert(s@.take(s@.len() as int) =~= s@);
    }
    v
}

/// Whether two texts are equal.
pub fn text_eq(a: &str, b: &str) -> (r: bool)
    ensures
        r == (a@ == b@),
{
    let x = chars_of(a);
    let y = chars_of(b);
    if x.len() != y.len() {
        return false;
    }
    let mut i: usize = 0;
    while i < x.len()
        invariant
            x@ == a@,
            y@ == b@,
            x.len() == y.len(),
            i <= x.len(),
            forall|j: int| 0 <= j < i ==> x@[j] == y@[j],
        decreases x.len() - i,
    {
        if x[i] != y[i] {
            return false;
        }
        i += 1;
    }
    proof {
        assert(x@ =~= y@);
    }
    true
}

/// Whether `needle` occurs in `hay` at position `i`.
pub open spec fn occurs_at<T>(hay: Seq<T>, needle: Seq<T>, i: int) -> bool {
    0 <= i && i + needle.len() <= hay.len() && hay.subrange(i, i + needle.len()) == needle
}

/// Whether `needle` occurs somewhere in `hay`.
pub open spec fn occurs_in<T>(hay: Seq<T>, needle: Seq<T>) -> bool {
    exists|i: int| occurs_at(hay, needle, i)
}

/// Whether `needle` occurs in `hay`, as `str::contains` answers.
pub fn contains_chars(hay: &Vec<char>, needle: &Vec<char>) -> (r: bool)
    ensures
        r == occurs_in(hay@, needle@),
{
    if needle.len() > hay.len() {
        proof {
            assert forall|i: int| !occurs_at(hay@, needle@, i) by {}
        }
        return false;
    }
    let last = hay.len() - needle.len();
    let mut i: usize = 0;
    while i <= last
        invariant
            last == hay.len() - needle.len(),
            needle.len() <= hay.len(),
            i <= last + 1,
            forall|k: int| 0 <= k < i ==> !occurs_at(hay@, needle@, k),
        decreases last + 1 - i,
    {
        let mut j: usize = 0;
        while j < needle.len() && hay[i + j] == needle[j]
            invariant
                last == hay.len() - needle.len(),
                i <= last,
                j <= needle.len(),
                forall|m: int| 0 <= m < j ==> hay@[i + m] == needle@[m],
            decreases needle.len() - j,
        {
            j += 1;
        }
        if j == needle.len() {
            proof {
                assert(hay@.subrange(i as int, i + needle.len()) =~= needle@);
                assert(occurs_at(hay@, needle@, i as int));
            }
            return true;
        }
        proof {
            assert(hay@[i + j] != needle@[j as int]);
            assert(!occurs_at(hay@, needle@, i as int)) by {
                if occurs_at(hay@, needle@, i as int) {
                    assert(hay@.subrange(i as int, i + needle.len())[j as int] == hay@[i + j]);
                }
            }
        }
        i += 1;
    }
    proof {
        assert forall|k: int| !occurs_at(hay@, needle@, k) by {
            if 0 <= k < i {
            } else if k >= i {
                assert(k > last);
            }
        }
    }
    false
}

/// Whether a text contains another one, as `str::contains` answers.
pub fn contains_text(hay: &str, needle: &str) -> (r: bool)
    ensures
        r == occurs_in(hay@, needle@),
{
    let h = chars_of(hay);
    let n = chars_of(needle);
    contains_chars(&h, &n)
}

/// How `format!("{:?}", s)` renders a text: Rust's `Debug` rendering of a
/// `str`, quoted and escaped.
pub uninterp spec fn str_debug(s: Seq<char>) -> Seq<char>;

/// Calls the standard library's `Debug` formatting of `str`
/// (`format!("{s:?}")`). Its rendering depends on the text alone, so the
/// contract names it [`str_debug`]; the escape rules (Unicode
/// printability, grapheme extenders) are not restated here.
#[verifier::external_body]
pub(crate) fn debug_text(s: &str) -> (r: String)
    ensures
        r@ == str_debug(s@),
{
    format!("{s:?}")
}

/// A character lowered as `to_lowercase` lowers ASCII: `A`–`Z` only.
pub open spec fn lower_char(c: char) -> char {
    if 'A' <= c <= 'Z' {
        ((c as u32) + 32) as char
    } else {
        c
    }
}

/// An ASCII text, lowercased.
pub open spec fn lower_text(s: Seq<char>) -> Seq<char> {
    Seq::new(s.len(), |i: int| lower_char(s[i]))
}

/// The characters of a text of bytes, one per byte.
pub open spec fn byte_chars(bs: Seq<u8>) -> Seq<char> {
    Seq::new(bs.len(), |i: int| bs[i] as char)
}

/// A byte the `http` crate accepts in a header value.
pub open spec fn header_value_byte(b: u8) -> bool {
    (b >= 32 && b != 127) || b == 9
}

/// A visible ASCII byte (or tab), as the `http` crate defines it.
pub open spec fn visible_ascii(b: u8) -> bool {
    (b >= 32 && b < 127) || b == 9
}

/// The lowercase hexadecimal digit for `d < 16`.
pub open spec fn hex_digit(d: int) -> char {
    if d < 10 {
        ('0' as int + d) as char
    } else {
        ('a' as int + (d - 10)) as char
    }
}

/// `{:x}` of a byte: lowercase hexadecimal, without leading zeros.
pub open spec fn lower_hex(b: u8) -> Seq<char> {
    if b < 16 {
        seq![hex_digit(b as int)]
    } else {
        seq![hex_digit(b as int / 16), hex_digit(b as int % 16)]
    }
}

/// How one byte of a header value is shown: `"` as `\"`, other visible
/// bytes as themselves, the rest as `\x` and their hexadecimal value.
pub open spec fn header_byte_debug(b: u8) -> Seq<char> {
    if b == 34 {
        seq!['\\', '"']
    } else if visible_ascii(b) {
        seq![b as char]
    } else {
        seq!['\\', 'x'] + lower_hex(b)
    }
}

/// How the bytes of a header value are shown, one after the other.
pub open spec fn header_bytes_debug(bs: Seq<u8>) -> Seq<char>
    decreases bs.len(),
{
    if bs.len() == 0 {
        seq![]
    } else {
        header_bytes_debug(bs.drop_last()) + header_byte_debug(bs.last())
    }
}

/// How `format!("{:?}", value)` renders a (not sensitive) header value:
/// its bytes, escaped, between double quotes.
pub open spec fn header_value_debug(bs: Seq<u8>) -> Seq<char> {
    seq!['"'] + header_bytes_debug(bs) + seq!['"']
}

/// Calls `Debug` of `http::HeaderValue` (through `wstd::http`) on a value
/// built by `HeaderValue::from_bytes`, which accepts exactly the bytes of
/// `requires` and makes a value that is not marked sensitive. The
/// contract restates that `Debug` impl: a double quote, each byte shown as
/// [`header_byte_debug`] says, a double quote.
#[verifier::external_body]
pub(crate) fn debug_header_value(value: &[u8]) -> (r: String)
    requires
        forall|i: int| 0 <= i < value@.len() ==> header_value_byte(#[trigger] value@[i]),
    ensures
        r@ == header_value_debug(value@),
{
    match wstd::http::HeaderValue::from_bytes(value) {
        Ok(v) => format!("{v:?}"),
        Err(_) => String::new(),
    }
}

} // verus!
