//! HTTP headers: reading the caller's `User-Agent` and building the headers
//! that every request to GitHub carries.

use vstd::prelude::*;
use vstd::string::StringExecFns;
use vstd::utf8::{encode_utf8, is_ascii_chars, is_ascii_chars_encode_utf8};
use reqwest::header::{HeaderMap, HeaderValue};

verus! {

#[verifier::external_type_specification]
#[verifier::external_body]
#[verifier::reject_recursive_types(T)]
pub struct ExHeaderMap<T>(reqwest::header::HeaderMap<T>);

#[verifier::external_type_specification]
#[verifier::external_body]
pub struct ExHeaderValue(reqwest::header::HeaderValue);

/// What a header map holds: for each (lower-case) header name, the bytes of
/// the values stored under it, in order.
pub uninterp spec fn header_entries(m: HeaderMap) -> Map<Seq<char>, Seq<Seq<u8>>>;

/// The bytes that a header value holds.
pub uninterp spec fn header_value_bytes(v: HeaderValue) -> Seq<u8>;

/// A character that a header value may hold: tab, or anything from the space
/// up except DEL. (Characters above ASCII encode to bytes of 0x80 and more,
/// which header values accept.)
pub open spec fn header_value_char(c: char) -> bool {
    c == '\t' || (32 <= (c as u32) && (c as u32) != 127)
}

/// Text that `HeaderValue::from_str` accepts.
pub open spec fn header_value_text(s: Seq<char>) -> bool {
    forall|i: int| 0 <= i < s.len() ==> #[trigger] header_value_char(s[i])
}

/// A byte that `HeaderValue::to_str` accepts: tab or visible ASCII.
pub open spec fn visible_ascii(b: u8) -> bool {
    (32 <= b && b < 127) || b == 9
}

/// Bytes that `HeaderValue::to_str` accepts.
pub open spec fn visible_ascii_bytes(b: Seq<u8>) -> bool {
    forall|i: int| 0 <= i < b.len() ==> #[trigger] visible_ascii(b[i])
}

/// The characters of ASCII bytes.
pub open spec fn ascii_chars(b: Seq<u8>) -> Seq<char> {
    Seq::new(b.len(), |i: int| b[i] as char)
}

/// The character set used for the header names that this crate writes:
/// ASCII letters, digits and `-`, at most 64 of them.
pub open spec fn static_header_name(s: Seq<char>) -> bool {
    &&& 0 < s.len() <= 64
    &&& forall|i: int|
        0 <= i < s.len() ==> {
            let c = #[trigger] s[i];
            ('a' <= c && c <= 'z') || ('A' <= c && c <= 'Z') || ('0' <= c && c <= '9') || c == '-'
        }
}

/// ASCII upper-case letters turned to lower case, every other character kept.
pub open spec fn ascii_lowercase(s: Seq<char>) -> Seq<char> {
    Seq::new(
        s.len(),
        |i: int| if 'A' <= s[i] && s[i] <= 'Z' { ((s[i] as u32) + 32) as char } else { s[i] },
    )
}

/// A header map that holds nothing.
pub open spec fn no_headers() -> Map<Seq<char>, Seq<Seq<u8>>> {
    Map::empty()
}

/// `HeaderMap::new`: the new map holds nothing.
#[verifier::external_body]
fn header_map_new() -> (m: HeaderMap)
    ensures
        header_entries(m) == no_headers(),
{
    HeaderMap::new()
}

/// `HeaderMap::insert` with a `&'static str` name: the name is stored in
/// lower case and the value replaces every value stored under it. The source
/// panics on names it cannot parse, and when an insertion would grow the
/// table past its largest size; that can only happen to a map of 6554 names
/// or more (once long probe sequences have doubled its table early), which
/// `requires` rules out.
#[verifier::external_body]
fn header_map_insert(m: &mut HeaderMap, name: &'static str, value: HeaderValue)
    requires
        static_header_name(name@),
        header_entries(*old(m)).dom().finite(),
        header_entries(*old(m)).dom().len() < 6554,
    ensures
        header_entries(*final(m)) == header_entries(*old(m)).insert(
            ascii_lowercase(name@),
            seq![header_value_bytes(value)],
        ),
{
    m.insert(name, value);
}

/// `HeaderValue::from_str`: succeeds exactly on text whose bytes are all tab
/// or at least 32 and not 127, and then holds those bytes.
#[verifier::external_body]
fn header_value_from_str(s: &str) -> (r: Option<HeaderValue>)
    ensures
        r is Some <==> header_value_text(s@),
        r matches Some(v) ==> header_value_bytes(v) == encode_utf8(s@),
{
    HeaderValue::from_str(s).ok()
}

/// `HeaderValue::to_str`: succeeds exactly when every byte is tab or visible
/// ASCII, and then yields those bytes as characters.
#[verifier::external_body]
fn header_value_to_str(v: &HeaderValue) -> (r: Option<&str>)
    ensures
        r is Some <==> visible_ascii_bytes(header_value_bytes(*v)),
        r matches Some(s) ==> s@ == ascii_chars(header_value_bytes(*v)),
{
    v.to_str().ok()
}

/// Whether text can be written as a header value.
pub fn is_header_value_text(s: &str) -> (ok: bool)
    ensures
        ok == header_value_text(s@),
{
    header_value_from_str(s).is_some()
}

/// The `User-Agent` text reported back to a caller: the header's text when it
/// is present and readable as visible ASCII, and "Desconocido" otherwise.
pub open spec fn user_agent_text(header: Option<Seq<u8>>) -> Seq<char> {
    match header {
        Some(b) => if visible_ascii_bytes(b) { ascii_chars(b) } else { "Desconocido"@ },
        None => "Desconocido"@,
    }
}

/// The bytes of an optional header value.
pub open spec fn header_bytes(header: Option<&HeaderValue>) -> Option<Seq<u8>> {
    match header {
        Some(h) => Some(header_value_bytes(*h)),
        None => None,
    }
}

/// The `User-Agent` of a request, given the header as the request holds it.
pub fn get_user_agent(header: Option<&HeaderValue>) -> (ua: String)
    ensures
        ua@ == user_agent_text(header_bytes(header)),
{
    match header {
        Some(h) => match header_value_to_str(h) {
            Some(s) => s.to_owned(),
            None => "Desconocido".to_owned(),
        },
        None => "Desconocido".to_owned(),
    }
}

/// A readable `User-Agent` is reported back exactly: the text's UTF-8 bytes
/// are the header's bytes.
pub proof fn user_agent_echoed(b: Seq<u8>)
    requires
        visible_ascii_bytes(b),
    ensures
        encode_utf8(user_agent_text(Some(b))) == b,
{
    let chars = ascii_chars(b);
    assert(is_ascii_chars(chars)) by {
        assert forall|i: int| 0 <= i < chars.len() implies '\0' <= #[trigger] chars[i] <= '\u{7f}' by {
            assert(visible_ascii(b[i]));
        }
    }
    is_ascii_chars_encode_utf8(chars);
    assert(encode_utf8(chars) =~= b);
}

/// The headers that every request to GitHub carries: the client's name, the
/// JSON content type and, when a token is configured, its bearer credential.
pub open spec fn github_header_entries(token: Option<Seq<char>>) -> Map<Seq<char>, Seq<Seq<u8>>> {
    let base = no_headers()
        .insert("user-agent"@, seq![encode_utf8("RustAPI-GraphQL/1.0"@)])
        .insert("content-type"@, seq![encode_utf8("application/json"@)]);
    match token {
        Some(t) => base.insert("authorization"@, seq![encode_utf8("Bearer "@ + t)]),
        None => base,
    }
}

/// GitHub is sent a credential exactly when a token is configured, and then
/// only that one: three headers with a token, two without.
pub proof fn authorization_only_with_token(token: Option<Seq<char>>)
    ensures
        github_header_entries(token).dom().contains("authorization"@) <==> token is Some,
        github_header_entries(token).dom().len() == (if token is Some { 3nat } else { 2nat }),
        token matches Some(t) ==> github_header_entries(token)["authorization"@] == seq![encode_utf8("Bearer "@ + t)],
{
    reveal_strlit("user-agent");
    reveal_strlit("content-type");
    reveal_strlit("authorization");
    assert("user-agent"@ != "content-type"@) by {
        assert("user-agent"@[0] != "content-type"@[0]);
    }
    assert("authorization"@ != "content-type"@) by {
        assert("authorization"@[0] != "content-type"@[0]);
    }
    assert("authorization"@ != "user-agent"@) by {
        assert("authorization"@[0] != "user-agent"@[0]);
    }
}

/// Whatever the token, GitHub is told the same client name and the JSON
/// content type; a token only adds the authorization entry, and no other
/// header is ever sent.
pub proof fn fixed_headers_whatever_the_token(token: Option<Seq<char>>)
    ensures
        github_header_entries(token).dom().contains("user-agent"@),
        github_header_entries(token)["user-agent"@] == seq![encode_utf8("RustAPI-GraphQL/1.0"@)],
        github_header_entries(token).dom().contains("content-type"@),
        github_header_entries(token)["content-type"@] == seq![encode_utf8("application/json"@)],
        forall|name: Seq<char>|
            #[trigger] github_header_entries(token).dom().contains(name) ==> name == "user-agent"@
                || name == "content-type"@ || (name == "authorization"@ && token is Some),
{
    authorization_only_with_token(token);
}

/// The token as a sequence of characters.
pub open spec fn token_text(token: &Option<String>) -> Option<Seq<char>> {
    match token {
        Some(t) => Some(t@),
        None => None,
    }
}

/// Builds the headers for a request to GitHub. A token must be writable as a
/// header value (the request cannot carry it otherwise).
pub fn get_github_headers(token: &Option<String>) -> (headers: HeaderMap)
    requires
        token matches Some(t) ==> header_value_text(t@),
    ensures
        header_entries(headers) == github_header_entries(token_text(token)),
{
    let mut headers = header_map_new();
    proof {
        reveal_strlit("User-Agent");
        reveal_strlit("user-agent");
        reveal_strlit("RustAPI-GraphQL/1.0");
        reveal_strlit("Content-Type");
        reveal_strlit("content-type");
        reveal_strlit("application/json");
        reveal_strlit("Authorization");
        reveal_strlit("authorization");
        reveal_strlit("Bearer ");
    }
    assert(ascii_lowercase("User-Agent"@) =~= "user-agent"@);
    assert(ascii_lowercase("Content-Type"@) =~= "content-type"@);
    assert(ascii_lowercase("Authorization"@) =~= "authorization"@);
    let agent = header_value_from_str("RustAPI-GraphQL/1.0");
    assert(agent is Some);
    header_map_insert(&mut headers, "User-Agent", agent.unwrap());
    let content_type = header_value_from_str("application/json");
    assert(content_type is Some);
    header_map_insert(&mut headers, "Content-Type", content_type.unwrap());
    match token {
        Some(t) => {
            let mut bearer = "Bearer ".to_owned();
            bearer.append(t.as_str());
            assert(header_value_text(bearer@));
            let auth = header_value_from_str(bearer.as_str());
            header_map_insert(&mut headers, "Authorization", auth.unwrap());
        },
        None => {},
    }
    headers
}

} // verus!
