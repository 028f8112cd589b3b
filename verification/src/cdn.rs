//! Sending a media address to a reachable mirror.
//!
//! Single-file addresses sometimes point at an edge network of a third
//! party, or at a mirror that is no longer served. Such an address gets the
//! host of a first-party mirror; everything around the host stays.

use vstd::prelude::*;
use vstd::string::StringExecFns;
use crate::text::{
    find_from,
    find_in,
    find_sub,
    lemma_find_from,
    lemma_find_from_unique,
    lemma_find_sub_from,
    lemma_first_occurrence,
    matches_at,
    occurs_at,
    string_from,
    to_chars,
};

verus! {

/// What separates the scheme of an address from its host.
pub const SCHEME_MARK: &'static str = "://";

/// The domain of the edge network whose hosts are replaced.
pub const EDGE_DOMAIN: &'static str = "akamaized.net";

/// The mirror that takes the place of an edge host.
pub const MIRROR_HOST: &'static str = "upos-sz-mirror08c.bilivideo.com";

/// The label of the mirror that is no longer served.
pub const STALE_LABEL: &'static str = "mirrorcosov";

/// The label that takes the place of the stale one.
pub const FRESH_LABEL: &'static str = "mirror08c";

/// The characters that end a host: `/`, `?`, `#` and `:`, with which
/// whatever follows a host begins.
pub open spec fn host_stops() -> Set<char> {
    set!['/', '?', '#', ':']
}

/// Where the host of `url` starts: behind the first `://`.
pub open spec fn host_start(url: Seq<char>) -> Option<int> {
    match find_sub(url, SCHEME_MARK@) {
        Some(at) => Some(at + SCHEME_MARK@.len()),
        None => None,
    }
}

/// Where the host that starts at `start` ends.
pub open spec fn host_end(url: Seq<char>, start: int) -> int {
    find_from(url, host_stops(), start)
}

/// `host` is `domain` or a name under it.
pub open spec fn in_domain(host: Seq<char>, domain: Seq<char>) -> bool {
    host == domain || (host.len() > domain.len() && host.skip(host.len() - domain.len() - 1)
        == seq!['.'] + domain)
}

/// `s` with the characters from `from` up to `to` replaced by `with`.
pub open spec fn splice(s: Seq<char>, from: int, to: int, with: Seq<char>) -> Seq<char> {
    s.take(from) + with + s.skip(to)
}

/// The address that `url` is sent to.
///
/// A host in the edge domain is replaced by the mirror host. Otherwise the
/// first stale label in the host is replaced by the fresh one. An address
/// without `://`, or with any other host, stays as it is.
pub open spec fn rewritten(url: Seq<char>) -> Seq<char> {
    match host_start(url) {
        None => url,
        Some(start) => {
            let end: int = host_end(url, start);
            let host = url.subrange(start, end);
            if in_domain(host, EDGE_DOMAIN@) {
                splice(url, start, end, MIRROR_HOST@)
            } else {
                match find_sub(host, STALE_LABEL@) {
                    Some(at) => splice(
                        url,
                        start + at,
                        start + at + STALE_LABEL@.len(),
                        FRESH_LABEL@,
                    ),
                    None => url,
                }
            }
        },
    }
}

/// Where the host that starts at `start` ends.
fn scan_host(url: &Vec<char>, start: usize) -> (end: usize)
    requires
        start <= url.len(),
    ensures
        end == host_end(url@, start as int),
        start <= end <= url.len(),
{
    let mut i: usize = start;
    while i < url.len()
        invariant
            start <= i <= url.len(),
            host_end(url@, start as int) == find_from(url@, host_stops(), i as int),
        decreases url.len() - i,
    {
        let c = url[i];
        if c == '/' || c == '?' || c == '#' || c == ':' {
            return i;
        }
        i += 1;
    }
    i
}

/// Whether `host` is `domain` or a name under it.
fn host_in_domain(host: &Vec<char>, domain: &Vec<char>) -> (b: bool)
    ensures
        b == in_domain(host@, domain@),
{
    if host.len() == domain.len() {
        let same = matches_at(host, domain, 0);
        assert(host@.subrange(0, host@.len() as int) =~= host@);
        same
    } else if host.len() > domain.len() {
        let dot: usize = host.len() - domain.len() - 1;
        let tail = matches_at(host, domain, dot + 1);
        proof {
            let end = host@.skip(dot as int);
            let want = seq!['.'] + domain@;
            assert(end.len() == want.len());
            assert(end[0] == host@[dot as int]);
            assert(want[0] == '.');
            assert(end.subrange(1, end.len() as int) =~= host@.subrange(
                dot + 1,
                dot + 1 + domain@.len(),
            ));
            assert(want.subrange(1, want.len() as int) =~= domain@);
            if host[dot as int] == '.' && tail {
                assert(end =~= want);
            }
        }
        host[dot] == '.' && tail
    } else {
        false
    }
}

/// Sends a media address to a reachable mirror; see `rewritten`.
pub fn rewrite_cdn_host(url: &str) -> (r: String)
    ensures
        r@ == rewritten(url@),
{
    let chars = to_chars(url);
    let mark = to_chars(SCHEME_MARK);
    let start: usize = match find_in(&chars, &mark, 0) {
        Some(at) => {
            proof {
                lemma_find_sub_from(chars@, mark@, 0);
                assert(occurs_at(chars@, mark@, at as int));
            }
            at + mark.len()
        },
        None => {
            return String::from_str(url);
        },
    };
    let end: usize = scan_host(&chars, start);
    let mut host: Vec<char> = Vec::new();
    let mut i: usize = start;
    while i < end
        invariant
            start <= i <= end <= chars.len(),
            host@ == chars@.subrange(start as int, i as int),
        decreases end - i,
    {
        host.push(chars[i]);
        i += 1;
    }
    let domain = to_chars(EDGE_DOMAIN);
    if host_in_domain(&host, &domain) {
        let mut r = string_from(&chars, 0, start);
        r.append(MIRROR_HOST);
        let rest = string_from(&chars, end, chars.len());
        r.append(rest.as_str());
        return r;
    }
    let stale = to_chars(STALE_LABEL);
    match find_in(&host, &stale, 0) {
        Some(at) => {
            proof {
                lemma_find_sub_from(host@, stale@, 0);
                assert(occurs_at(host@, stale@, at as int));
            }
            let mut r = string_from(&chars, 0, start + at);
            r.append(FRESH_LABEL);
            let rest = string_from(&chars, start + at + stale.len(), chars.len());
            r.append(rest.as_str());
            r
        },
        None => String::from_str(url),
    }
}

/// An address put together from a scheme without colon, `://`, a host and
/// a rest that is empty or starts where a host ends.
pub open spec fn address(scheme: Seq<char>, host: Seq<char>, rest: Seq<char>) -> Seq<char> {
    scheme + SCHEME_MARK@ + host + rest
}

/// The parts fit an address: the scheme has no colon, the host none of
/// the characters that end a host, and the rest is empty or starts with
/// one of them.
pub open spec fn well_parted(scheme: Seq<char>, host: Seq<char>, rest: Seq<char>) -> bool {
    &&& forall|i: int| 0 <= i < scheme.len() ==> #[trigger] scheme[i] != ':'
    &&& forall|i: int| 0 <= i < host.len() ==> !host_stops().contains(#[trigger] host[i])
    &&& rest.len() > 0 ==> host_stops().contains(rest[0])
}

/// Where the host stands in an address put together from its parts.
pub open spec fn host_offset(scheme: Seq<char>) -> int {
    (scheme.len() + SCHEME_MARK@.len()) as int
}

/// The characters of an address put together from its parts.
proof fn lemma_address_chars(scheme: Seq<char>, host: Seq<char>, rest: Seq<char>)
    ensures
        SCHEME_MARK@.len() == 3,
        SCHEME_MARK@[0] == ':',
        host_offset(scheme) == scheme.len() + 3,
        address(scheme, host, rest).len() == scheme.len() + 3 + host.len() + rest.len(),
        forall|i: int|
            0 <= i < address(scheme, host, rest).len() ==> #[trigger] address(scheme, host, rest)[i]
                == if i < scheme.len() {
                scheme[i]
            } else if i < scheme.len() + 3 {
                SCHEME_MARK@[i - scheme.len()]
            } else if i < scheme.len() + 3 + host.len() {
                host[i - scheme.len() - 3]
            } else {
                rest[i - scheme.len() - 3 - host.len()]
            },
{
    reveal_strlit("://");
}

/// In an address put together from its parts, the first `://` is the one
/// behind the scheme.
proof fn lemma_mark_position(scheme: Seq<char>, host: Seq<char>, rest: Seq<char>)
    requires
        forall|i: int| 0 <= i < scheme.len() ==> #[trigger] scheme[i] != ':',
    ensures
        find_sub(address(scheme, host, rest), SCHEME_MARK@) == Some(scheme.len() as int),
{
    lemma_address_chars(scheme, host, rest);
    let url = address(scheme, host, rest);
    let mark = SCHEME_MARK@;
    let n: int = scheme.len() as int;
    assert forall|j: int| 0 <= j < n implies !occurs_at(url, mark, j) by {
        if j + 3 <= url.len() {
            let piece = url.subrange(j, j + 3);
            assert(piece[0] == url[j]);
            assert(url[j] == scheme[j]);
            assert(piece[0] != mark[0]);
        }
    }
    assert(occurs_at(url, mark, n)) by {
        let piece = url.subrange(n, n + 3);
        assert forall|k: int| 0 <= k < 3 implies piece[k] == mark[k] by {
            assert(piece[k] == url[n + k]);
        }
        assert(piece =~= mark);
    }
    lemma_first_occurrence(url, mark, n);
}

/// In an address put together from its parts, the host is found where it
/// was put.
pub proof fn lemma_host_position(scheme: Seq<char>, host: Seq<char>, rest: Seq<char>)
    requires
        well_parted(scheme, host, rest),
    ensures
        host_start(address(scheme, host, rest)) == Some(host_offset(scheme)),
        host_end(address(scheme, host, rest), host_offset(scheme)) == host_offset(scheme)
            + host.len(),
        address(scheme, host, rest).subrange(
            host_offset(scheme),
            host_offset(scheme) + host.len(),
        ) == host,
        address(scheme, host, rest).take(host_offset(scheme)) == scheme + SCHEME_MARK@,
        address(scheme, host, rest).skip(host_offset(scheme) + host.len()) == rest,
{
    lemma_address_chars(scheme, host, rest);
    lemma_mark_position(scheme, host, rest);
    let url = address(scheme, host, rest);
    let start: int = host_offset(scheme);
    let end: int = start + host.len();
    assert forall|j: int| start <= j < end implies !host_stops().contains(#[trigger] url[j]) by {
        assert(url[j] == host[j - start]);
    }
    if end < url.len() {
        assert(url[end] == rest[0]);
    }
    lemma_find_from_unique(url, host_stops(), start, end);
    assert(url.subrange(start, end) =~= host);
    assert(url.take(start) =~= scheme + SCHEME_MARK@);
    assert(url.skip(end) =~= rest);
}

/// An address whose host lies in the edge domain gets the mirror host;
/// its scheme and what follows the host stay.
pub proof fn lemma_edge_host_is_replaced(scheme: Seq<char>, host: Seq<char>, rest: Seq<char>)
    requires
        well_parted(scheme, host, rest),
        in_domain(host, EDGE_DOMAIN@),
    ensures
        rewritten(address(scheme, host, rest)) == address(scheme, MIRROR_HOST@, rest),
{
    lemma_host_position(scheme, host, rest);
}

/// An address whose host lies outside the edge domain and holds the stale
/// label gets the fresh label in place of the first stale one; all around
/// it stays.
pub proof fn lemma_stale_label_is_replaced(
    scheme: Seq<char>,
    before: Seq<char>,
    after: Seq<char>,
    rest: Seq<char>,
)
    requires
        well_parted(scheme, before + STALE_LABEL@ + after, rest),
        !in_domain(before + STALE_LABEL@ + after, EDGE_DOMAIN@),
        find_sub(before + STALE_LABEL@ + after, STALE_LABEL@) == Some(before.len() as int),
    ensures
        rewritten(address(scheme, before + STALE_LABEL@ + after, rest)) == address(
            scheme,
            before + FRESH_LABEL@ + after,
            rest,
        ),
{
    let host = before + STALE_LABEL@ + after;
    lemma_host_position(scheme, host, rest);
    let url = address(scheme, host, rest);
    let at: int = host_offset(scheme) + before.len();
    assert(url.take(at) =~= scheme + SCHEME_MARK@ + before);
    assert(url.skip(at + STALE_LABEL@.len()) =~= after + rest);
    assert(splice(url, at, at + STALE_LABEL@.len(), FRESH_LABEL@) =~= address(
        scheme,
        before + FRESH_LABEL@ + after,
        rest,
    ));
}

/// An address whose host lies outside the edge domain and holds no stale
/// label stays as it is; so does a text without `://`.
pub proof fn lemma_other_address_is_kept(scheme: Seq<char>, host: Seq<char>, rest: Seq<char>)
    requires
        well_parted(scheme, host, rest),
        !in_domain(host, EDGE_DOMAIN@),
        find_sub(host, STALE_LABEL@) is None,
    ensures
        rewritten(address(scheme, host, rest)) == address(scheme, host, rest),
        forall|text: Seq<char>| find_sub(text, SCHEME_MARK@) is None ==> #[trigger] rewritten(text)
            == text,
{
    lemma_host_position(scheme, host, rest);
}

/// Whatever the address, the rewrite touches the host and nothing else:
/// what stands before the host, scheme and `://`, and what stands behind
/// it come out as they went in.
pub proof fn lemma_rewrite_keeps_surroundings(url: Seq<char>)
    ensures
        match host_start(url) {
            None => rewritten(url) == url,
            Some(start) => {
                &&& 0 <= start <= host_end(url, start) <= url.len()
                &&& rewritten(url).take(start) == url.take(start)
                &&& exists|host: Seq<char>|
                    rewritten(url) == url.take(start) + host + url.skip(host_end(url, start))
            },
        },
{
    reveal_strlit("://");
    reveal_strlit("mirrorcosov");
    if let Some(start) = host_start(url) {
        let mark_at: int = find_sub(url, SCHEME_MARK@)->0;
        lemma_find_sub_from(url, SCHEME_MARK@, 0);
        assert(occurs_at(url, SCHEME_MARK@, mark_at));
        lemma_find_from(url, host_stops(), start);
        let end: int = host_end(url, start);
        let host = url.subrange(start, end);
        if in_domain(host, EDGE_DOMAIN@) {
            assert(rewritten(url) == url.take(start) + MIRROR_HOST@ + url.skip(end));
            assert(rewritten(url).take(start) =~= url.take(start));
        } else {
            match find_sub(host, STALE_LABEL@) {
                Some(at) => {
                    lemma_find_sub_from(host, STALE_LABEL@, 0);
                    assert(occurs_at(host, STALE_LABEL@, at));
                    let stale_end: int = at + STALE_LABEL@.len();
                    let fresh = host.take(at) + FRESH_LABEL@ + host.skip(stale_end);
                    assert(url.take(start + at) =~= url.take(start) + host.take(at));
                    assert(url.skip(start + stale_end) =~= host.skip(stale_end) + url.skip(end));
                    assert(rewritten(url) =~= url.take(start) + fresh + url.skip(end));
                    assert(rewritten(url).take(start) =~= url.take(start));
                },
                None => {
                    assert(url =~= url.take(start) + host + url.skip(end));
                },
            }
        }
    }
}

} // verus!
