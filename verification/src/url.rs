//! URLs, as the `url` crate that `reqwest` re-exports reads and writes them.
//!
//! A URL is held as text. Each function here hands text to the outside crate
//! and takes text back; what the crate makes of a text is a function of that
//! text, and the contracts give it a name without saying what it is.

use vstd::prelude::*;

verus! {

/// What `text` parses to as an absolute URL: the URL written out in
/// normal form, or `None` where `text` is no absolute URL.
pub uninterp spec fn absolute_url(text: Seq<char>) -> Option<Seq<char>>;

/// What `reference` resolves to against the URL `base`, written out; `None`
/// where `base` is no absolute URL or cannot serve as a base for
/// `reference`.
pub uninterp spec fn joined_url(base: Seq<char>, reference: Seq<char>) -> Option<Seq<char>>;

/// The URL `url` with `pairs` appended to its query in form encoding, written
/// out; `None` where `url` is no absolute URL.
pub uninterp spec fn url_with_pairs(url: Seq<char>, pairs: Seq<(Seq<char>, Seq<char>)>) -> Option<
    Seq<char>,
>;

/// `reqwest::Url::parse`: parses `text` as an absolute URL and writes the
/// result out again. The contract claims only that the outcome is a function
/// of `text`.
#[verifier::external_body]
pub(crate) fn parse_url(text: &str) -> (r: Option<String>)
    ensures
        r.deep_view() == absolute_url(text@),
{
    match reqwest::Url::parse(text) {
        Ok(url) => Some(url.into()),
        Err(_) => None,
    }
}

/// `reqwest::Url::join`, on the URL that `base` parses to: resolves
/// `reference` against it and writes the result out. The contract claims
/// only that the outcome is a function of the two texts.
#[verifier::external_body]
pub(crate) fn join_url(base: &str, reference: &str) -> (r: Option<String>)
    ensures
        r.deep_view() == joined_url(base@, reference@),
{
    match reqwest::Url::parse(base) {
        Ok(url) => match url.join(reference) {
            Ok(joined) => Some(joined.into()),
            Err(_) => None,
        },
        Err(_) => None,
    }
}

/// `extend_pairs` on the `query_pairs_mut` of the URL that `url` parses to:
/// appends each pair to the query, percent-encoded, and writes the result
/// out. The contract claims only that the outcome is a function of the text
/// and the pairs.
#[verifier::external_body]
pub(crate) fn append_query_pairs(url: &str, pairs: &Vec<(String, String)>) -> (r: Option<String>)
    ensures
        r.deep_view() == url_with_pairs(url@, pairs.deep_view()),
{
    match reqwest::Url::parse(url) {
        Ok(mut parsed) => {
            parsed.query_pairs_mut().extend_pairs(pairs);
            Some(parsed.into())
        },
        Err(_) => None,
    }
}

/// The URL of a call: `path` resolved against `base`, with `pairs` as its
/// query.
pub open spec fn request_url(
    base: Seq<char>,
    path: Seq<char>,
    pairs: Seq<(Seq<char>, Seq<char>)>,
) -> Option<Seq<char>> {
    match joined_url(base, path) {
        Some(joined) => url_with_pairs(joined, pairs),
        None => None,
    }
}

/// Builds the URL of a call.
pub fn build_request_url(base: &str, path: &str, pairs: &Vec<(String, String)>) -> (r: Option<
    String,
>)
    ensures
        r.deep_view() == request_url(base@, path@, pairs.deep_view()),
{
    match join_url(base, path) {
        Some(joined) => append_query_pairs(joined.as_str(), pairs),
        None => None,
    }
}

} // verus!
