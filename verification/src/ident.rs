//! Finding the video identifier in a page address.
//!
//! The identifier is what the pattern `IDENTIFIER_PATTERN` first matches in
//! the address cut at its first `?`. The matching is done by the `regex`
//! crate. Verus does not follow it: what the engine makes of a pattern and
//! a text is named by `pattern_refusal` and `first_match`, and the contracts
//! here are stated over those names.

use vstd::prelude::*;
use crate::error::{outcome, ErrorModel, ResolveError};
use crate::text::{find_from, is_slice_of, lemma_find_from, lemma_find_from_unique, occurs_at};

verus! {

/// The pattern of a video identifier: the letters `BV`, then one or more
/// ASCII letters or digits.
pub const IDENTIFIER_PATTERN: &'static str = "BV[a-zA-Z0-9]+";

/// The message with which the pattern engine refuses `pattern`; `None`
/// when it accepts the pattern.
pub uninterp spec fn pattern_refusal(pattern: Seq<char>) -> Option<Seq<char>>;

/// The text of the first match of `pattern` in `haystack`, as the pattern
/// engine finds it; `None` when there is no match.
pub uninterp spec fn first_match(pattern: Seq<char>, haystack: Seq<char>) -> Option<Seq<char>>;

/// `Regex::new` on `pattern`, then `Regex::find` on `haystack`, the match
/// turned into its text by `Match::as_str`.
///
/// Claimed of them: both are functions of their arguments alone, and the
/// text of a match is a contiguous piece of the haystack. An error of
/// `Regex::new` is handed on as its message.
#[verifier::external_body]
fn search(pattern: &str, haystack: &str) -> (found: Result<Option<String>, String>)
    ensures
        match found {
            Ok(Some(text)) => {
                &&& pattern_refusal(pattern@) is None
                &&& first_match(pattern@, haystack@) == Some(text@)
                &&& is_slice_of(text@, haystack@)
            },
            Ok(None) => pattern_refusal(pattern@) is None && first_match(pattern@, haystack@) is None,
            Err(message) => pattern_refusal(pattern@) == Some(message@),
        },
{
    match regex::Regex::new(pattern) {
        Ok(re) => match re.find(haystack) {
            Some(m) => Ok(Some(m.as_str().to_string())),
            None => Ok(None),
        },
        Err(e) => Err(e.to_string()),
    }
}

/// Where the query of `url` starts: the position of its first `?`, or its
/// length when it has none.
pub open spec fn query_start(url: Seq<char>) -> int {
    find_from(url, set!['?'], 0)
}

/// `url` without its query: what stands before the first `?`.
pub open spec fn strip_query(url: Seq<char>) -> Seq<char> {
    url.take(query_start(url))
}

/// `id` stands in `url` and ends before the query starts.
pub open spec fn lies_before_query(id: Seq<char>, url: Seq<char>) -> bool {
    exists|at: int| occurs_at(url, id, at) && at + id.len() <= query_start(url)
}

/// What a search for the identifier comes to: the match when there is
/// one, `NotFound` when there is none, and the engine's message when it
/// refused the pattern.
pub open spec fn identifier_of(found: Result<Option<Seq<char>>, Seq<char>>) -> Result<
    Seq<char>,
    ErrorModel,
> {
    match found {
        Ok(Some(text)) => Ok(text),
        Ok(None) => Err(ErrorModel::NotFound),
        Err(message) => Err(ErrorModel::Pattern(message)),
    }
}

/// What the pattern engine makes of `pattern` and `haystack`.
pub open spec fn search_result(pattern: Seq<char>, haystack: Seq<char>) -> Result<
    Option<Seq<char>>,
    Seq<char>,
> {
    match pattern_refusal(pattern) {
        Some(message) => Err(message),
        None => Ok(first_match(pattern, haystack)),
    }
}

/// The identifier of the video that `url` names: the first match of the
/// identifier pattern in `url` without its query.
pub open spec fn extraction(url: Seq<char>) -> Result<Seq<char>, ErrorModel> {
    identifier_of(search_result(IDENTIFIER_PATTERN@, strip_query(url)))
}

/// Cuts `url` at its first `?`: the query holds nothing of the page's
/// identity and may hold what looks like an identifier.
pub fn clean_url(url: &str) -> (clean: String)
    ensures
        clean@ == strip_query(url@),
{
    let mut clean = String::new();
    for c in it: url.chars()
        invariant
            it.seq() == url@,
            clean@ == url@.take(it.index()),
            query_start(url@) == find_from(url@, set!['?'], it.index()),
    {
        if c == '?' {
            return clean;
        }
        clean.push(c);
    }
    clean
}

/// Turns the result of a search for the identifier into the outcome of the
/// extraction.
pub fn identifier_from_search(found: Result<Option<String>, String>) -> (r: Result<
    String,
    ResolveError,
>)
    ensures
        match found {
            Ok(Some(text)) => outcome(r) == Ok::<Seq<char>, ErrorModel>(text@),
            Ok(None) => outcome(r) == Err::<Seq<char>, ErrorModel>(ErrorModel::NotFound),
            Err(message) => outcome(r) == Err::<Seq<char>, ErrorModel>(
                ErrorModel::Pattern(message@),
            ),
        },
{
    match found {
        Ok(Some(text)) => Ok(text),
        Ok(None) => Err(ResolveError::NotFound),
        Err(message) => Err(ResolveError::Pattern(message)),
    }
}

/// The identifier of the video that the page address `url` names.
///
/// Fails with `NotFound` when the engine finds no match of the pattern
/// before the query, and with `Pattern` when it refuses the pattern. An
/// identifier that is returned stands in `url` before the query.
pub fn extract_bvid(url: &str) -> (r: Result<String, ResolveError>)
    ensures
        outcome(r) == extraction(url@),
        r matches Ok(id) ==> lies_before_query(id@, url@),
{
    let clean = clean_url(url);
    let found = search(IDENTIFIER_PATTERN, clean.as_str());
    proof {
        if let Ok(Some(text)) = &found {
            lemma_slice_of_stripped(text@, url@);
        }
    }
    identifier_from_search(found)
}

/// A piece of an address without its query lies in the address before the
/// query.
pub proof fn lemma_slice_of_stripped(id: Seq<char>, url: Seq<char>)
    requires
        is_slice_of(id, strip_query(url)),
    ensures
        lies_before_query(id, url),
{
    lemma_find_from(url, set!['?'], 0);
    let at: int = choose|at: int| occurs_at(strip_query(url), id, at);
    assert(url.subrange(at, at + id.len()) =~= strip_query(url).subrange(at, at + id.len()));
    assert(occurs_at(url, id, at) && at + id.len() <= query_start(url));
}

/// What stands after the first `?` never reaches the extraction: an
/// address without `?`, followed by `?` and any query, gives what the
/// address alone gives.
pub proof fn lemma_query_is_ignored(base: Seq<char>, query: Seq<char>)
    requires
        !base.contains('?'),
    ensures
        strip_query(base + seq!['?'] + query) == base,
        strip_query(base) == base,
        extraction(base + seq!['?'] + query) == extraction(base),
{
    let url = base + seq!['?'] + query;
    assert forall|j: int| 0 <= j < base.len() implies !set!['?'].contains(#[trigger] url[j]) by {
        assert(url[j] == base[j]);
        assert(base.contains(base[j]));
    }
    assert(url[base.len() as int] == '?');
    lemma_find_from_unique(url, set!['?'], 0, base.len() as int);
    assert(strip_query(url) =~= base);
    assert forall|j: int| 0 <= j < base.len() implies !set!['?'].contains(#[trigger] base[j]) by {
        assert(base.contains(base[j]));
    }
    lemma_find_from_unique(base, set!['?'], 0, base.len() as int);
    assert(strip_query(base) =~= base);
}

/// Two addresses that agree before their queries give the same outcome.
pub proof fn lemma_extraction_reads_no_query(a: Seq<char>, b: Seq<char>)
    requires
        strip_query(a) == strip_query(b),
    ensures
        extraction(a) == extraction(b),
{
}

} // verus!
