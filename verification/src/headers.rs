//! The browser-like header set that both endpoints ask for.
//!
//! The set is held in a `reqwest::header::HeaderMap`. Verus does not look
//! inside that map: what it holds is named by `header_entries`, and the two
//! operations used here, creating a map and inserting into it, are stated
//! over that name without proof.

use vstd::prelude::*;
use vstd::string::StringExecFns;
use vstd::utf8::encode_utf8;

verus! {

/// `reqwest::header::HeaderMap`, the multimap of header names and values:
/// carried through, never looked into.
#[verifier::external_type_specification]
#[verifier::external_body]
#[verifier::reject_recursive_types(T)]
pub struct ExHeaderMap<T>(reqwest::header::HeaderMap<T>);

/// `reqwest::header::HeaderValue`, the kind of value that a `HeaderMap`
/// holds unless told otherwise: named in the type of the map only.
#[verifier::external_type_specification]
#[verifier::external_body]
pub struct ExHeaderValue(reqwest::header::HeaderValue);

/// A set of headers as a mathematical map: from each header name, in
/// lower case, to the bytes of its value.
pub type HeaderSet = Map<Seq<char>, Seq<u8>>;

/// What a `HeaderMap` holds: for each header name in it, in lower case,
/// the bytes of the first value stored under that name.
pub uninterp spec fn header_entries(headers: reqwest::header::HeaderMap) -> Map<Seq<char>, Seq<u8>>;

/// The number of names up to which inserting into a header map is known
/// not to fail.
pub const HEADER_ROOM: usize = 1024;

/// A character that may stand in a lower-case header name: a lower-case
/// ASCII letter, a digit or a hyphen.
pub open spec fn is_name_char(c: char) -> bool {
    ('a' <= c <= 'z') || ('0' <= c <= '9') || c == '-'
}

/// A lower-case header name of at most 64 characters.
pub open spec fn is_header_name(s: Seq<char>) -> bool {
    &&& 1 <= s.len() <= 64
    &&& forall|i: int| 0 <= i < s.len() ==> is_name_char(#[trigger] s[i])
}

/// A character that may stand in a header value: a tab, or anything from
/// the space upwards but the delete character.
pub open spec fn is_value_char(c: char) -> bool {
    c == '\t' || (' ' <= c && c != '\x7f')
}

/// A string that can be sent as a header value.
pub open spec fn is_header_value(s: Seq<char>) -> bool {
    forall|i: int| 0 <= i < s.len() ==> is_value_char(#[trigger] s[i])
}

/// `HeaderMap::new`: a map that holds no header.
#[verifier::external_body]
fn new_header_map() -> (headers: reqwest::header::HeaderMap)
    ensures
        header_entries(headers) == HeaderSet::empty(),
{
    reqwest::header::HeaderMap::new()
}

/// `HeaderMap::insert`, with the name made by `HeaderName::from_bytes` and
/// the value by `HeaderValue::from_str`.
///
/// Claimed of them: a lower-case name of letters, digits and hyphens, up to
/// 64 of them, is accepted as it stands; a string is accepted as a value
/// when each of its bytes is a tab or at least 32 and not 127, which for
/// UTF-8 text is `is_header_value`, every byte of a character beyond ASCII
/// being at least 128; the value holds the bytes of the string; and the
/// insertion leaves the name with this one value and the other names as
/// they were. The map fails only when it has to grow beyond 32768 slots,
/// which takes several thousand names: `HEADER_ROOM` is far below that.
#[verifier::external_body]
fn insert_header(headers: &mut reqwest::header::HeaderMap, name: &str, value: &str)
    requires
        is_header_name(name@),
        is_header_value(value@),
        header_entries(*old(headers)).dom().finite(),
        header_entries(*old(headers)).len() < HEADER_ROOM,
    ensures
        header_entries(*final(headers)) == header_entries(*old(headers)).insert(
            name@,
            encode_utf8(value@),
        ),
{
    let name = reqwest::header::HeaderName::from_bytes(name.as_bytes()).unwrap();
    let value = reqwest::header::HeaderValue::from_str(value).unwrap();
    headers.insert(name, value);
}

/// Whether `s` can be sent as a header value.
pub fn is_valid_header_value(s: &str) -> (b: bool)
    ensures
        b == is_header_value(s@),
{
    for c in it: s.chars()
        invariant
            it.seq() == s@,
            forall|i: int| 0 <= i < it.index() ==> is_value_char(#[trigger] s@[i]),
    {
        if !(c == '\t' || (' ' <= c && c != '\x7f')) {
            return false;
        }
    }
    true
}

/// The value of the session cookie for `token`.
pub open spec fn session_cookie(token: Seq<char>) -> Seq<char> {
    "SESSDATA="@ + token
}

/// The header set sent with every request: a fixed browser identity, the
/// referer, and the session cookie made of `token`.
pub open spec fn browser_headers(token: Seq<char>, referer: Seq<char>) -> HeaderSet {
    HeaderSet::empty().insert(
        "user-agent"@,
        encode_utf8(
            "Mozilla/5.0 (Macintosh; Intel Mac OS X 10_15_7) AppleWebKit/537.36 (KHTML, like Gecko) Chrome/120.0.0.0 Safari/537.36"@,
        ),
    ).insert("accept"@, encode_utf8("application/json, text/plain, */*"@)).insert(
        "accept-language"@,
        encode_utf8("zh-CN,zh;q=0.9,en;q=0.8"@),
    ).insert("accept-encoding"@, encode_utf8("gzip, deflate, br"@)).insert(
        "referer"@,
        encode_utf8(referer),
    ).insert("origin"@, encode_utf8("https://www.bilibili.com"@)).insert(
        "cookie"@,
        encode_utf8(session_cookie(token)),
    ).insert(
        "sec-ch-ua"@,
        encode_utf8("\"Not_A Brand\";v=\"8\", \"Chromium\";v=\"120\", \"Google Chrome\";v=\"120\""@),
    ).insert("sec-ch-ua-mobile"@, encode_utf8("?0"@)).insert(
        "sec-ch-ua-platform"@,
        encode_utf8("\"macOS\""@),
    ).insert("sec-fetch-dest"@, encode_utf8("empty"@)).insert(
        "sec-fetch-mode"@,
        encode_utf8("cors"@),
    ).insert("sec-fetch-site"@, encode_utf8("same-site"@)).insert("dnt"@, encode_utf8("1"@))
}

/// Builds the header set for a request made on behalf of `sessdata` from
/// the page `referer`. An empty `sessdata` gives the cookie `SESSDATA=`.
pub fn generate_headers(sessdata: &str, referer: &str) -> (headers: reqwest::header::HeaderMap)
    requires
        is_header_value(sessdata@),
        is_header_value(referer@),
    ensures
        header_entries(headers) == browser_headers(sessdata@, referer@),
{
    let mut cookie = String::from_str("SESSDATA=");
    cookie.append(sessdata);
    proof {
        reveal_strlit("SESSDATA=");
        reveal_strlit("user-agent");
        reveal_strlit("accept");
        reveal_strlit("accept-language");
        reveal_strlit("accept-encoding");
        reveal_strlit("referer");
        reveal_strlit("origin");
        reveal_strlit("cookie");
        reveal_strlit("sec-ch-ua");
        reveal_strlit("sec-ch-ua-mobile");
        reveal_strlit("sec-ch-ua-platform");
        reveal_strlit("sec-fetch-dest");
        reveal_strlit("sec-fetch-mode");
        reveal_strlit("sec-fetch-site");
        reveal_strlit("dnt");
        reveal_strlit(
            "Mozilla/5.0 (Macintosh; Intel Mac OS X 10_15_7) AppleWebKit/537.36 (KHTML, like Gecko) Chrome/120.0.0.0 Safari/537.36",
        );
        reveal_strlit("application/json, text/plain, */*");
        reveal_strlit("zh-CN,zh;q=0.9,en;q=0.8");
        reveal_strlit("gzip, deflate, br");
        reveal_strlit("https://www.bilibili.com");
        reveal_strlit("\"Not_A Brand\";v=\"8\", \"Chromium\";v=\"120\", \"Google Chrome\";v=\"120\"");
        reveal_strlit("?0");
        reveal_strlit("\"macOS\"");
        reveal_strlit("empty");
        reveal_strlit("cors");
        reveal_strlit("same-site");
        reveal_strlit("1");
        assert(is_header_value(cookie@));
    }
    let mut headers = new_header_map();
    insert_header(
        &mut headers,
        "user-agent",
        "Mozilla/5.0 (Macintosh; Intel Mac OS X 10_15_7) AppleWebKit/537.36 (KHTML, like Gecko) Chrome/120.0.0.0 Safari/537.36",
    );
    insert_header(&mut headers, "accept", "application/json, text/plain, */*");
    insert_header(&mut headers, "accept-language", "zh-CN,zh;q=0.9,en;q=0.8");
    insert_header(&mut headers, "accept-encoding", "gzip, deflate, br");
    insert_header(&mut headers, "referer", referer);
    insert_header(&mut headers, "origin", "https://www.bilibili.com");
    insert_header(&mut headers, "cookie", cookie.as_str());
    insert_header(
        &mut headers,
        "sec-ch-ua",
        "\"Not_A Brand\";v=\"8\", \"Chromium\";v=\"120\", \"Google Chrome\";v=\"120\"",
    );
    insert_header(&mut headers, "sec-ch-ua-mobile", "?0");
    insert_header(&mut headers, "sec-ch-ua-platform", "\"macOS\"");
    insert_header(&mut headers, "sec-fetch-dest", "empty");
    insert_header(&mut headers, "sec-fetch-mode", "cors");
    insert_header(&mut headers, "sec-fetch-site", "same-site");
    insert_header(&mut headers, "dnt", "1");
    headers
}

/// The two values of the header set that depend on the request: the
/// referer is the page given, and the cookie is `SESSDATA=` followed by
/// the token, so `SESSDATA=` alone for an empty token.
pub proof fn lemma_request_headers(token: Seq<char>, referer: Seq<char>)
    ensures
        browser_headers(token, referer).dom().contains("referer"@),
        browser_headers(token, referer)["referer"@] == encode_utf8(referer),
        browser_headers(token, referer).dom().contains("cookie"@),
        browser_headers(token, referer)["cookie"@] == encode_utf8("SESSDATA="@ + token),
        browser_headers(Seq::empty(), referer)["cookie"@] == encode_utf8("SESSDATA="@),
{
    reveal_strlit("referer");
    reveal_strlit("origin");
    reveal_strlit("cookie");
    reveal_strlit("sec-ch-ua");
    reveal_strlit("sec-ch-ua-mobile");
    reveal_strlit("sec-ch-ua-platform");
    reveal_strlit("sec-fetch-dest");
    reveal_strlit("sec-fetch-mode");
    reveal_strlit("sec-fetch-site");
    reveal_strlit("dnt");
    assert("referer"@.len() == 7);
    assert("origin"@.len() == 6);
    assert("cookie"@.len() == 6);
    assert("sec-ch-ua"@.len() == 9);
    assert("sec-ch-ua-mobile"@.len() == 16);
    assert("sec-ch-ua-platform"@.len() == 18);
    assert("sec-fetch-dest"@.len() == 14);
    assert("sec-fetch-mode"@.len() == 14);
    assert("sec-fetch-site"@.len() == 14);
    assert("dnt"@.len() == 3);
    assert("SESSDATA="@ + Seq::<char>::empty() =~= "SESSDATA="@);
}

} // verus!
