//! URLs as text.

use url::Url;
use vstd::prelude::*;
use crate::fields::fields;

verus! {

/// A URL, `url::Url`.
#[verifier::external_type_specification]
#[verifier::external_body]
pub struct ExUrl(url::Url);

/// The text of a URL, as `Url::as_str` gives it.
pub uninterp spec fn url_text(url: Url) -> Seq<char>;

/// The URL that `Url::parse` gives; else the message of the error.
pub uninterp spec fn parsed_url(text: Seq<char>) -> Result<Url, Seq<char>>;

/// What a reference comes to against a URL, as `Url::join` gives it; else the message of the
/// error.
pub uninterp spec fn joined_url(url: Url, reference: Seq<char>) -> Result<Url, Seq<char>>;

/// A URL with parameters added to its query, as the serializer of `Url::query_pairs_mut` adds
/// them.
pub uninterp spec fn url_with_query(url: Url, pairs: Seq<(Seq<char>, Seq<char>)>) -> Url;

/// `Url::as_str` depends on the URL alone.
#[verifier::external_body]
pub(crate) fn url_string(url: &Url) -> (r: String)
    ensures
        r@ == url_text(*url),
{
    url.as_str().to_owned()
}

/// `Url::parse` depends on the text alone.
#[verifier::external_body]
pub(crate) fn parse_url(text: &str) -> (r: Result<Url, String>)
    ensures
        match r {
            Ok(url) => parsed_url(text@) == Ok::<Url, Seq<char>>(url),
            Err(m) => parsed_url(text@) == Err::<Url, Seq<char>>(m@),
        },
{
    Url::parse(text).map_err(|e| e.to_string())
}

/// `Url::join` depends on the URL and the reference alone.
#[verifier::external_body]
pub(crate) fn join_url(url: &Url, reference: &str) -> (r: Result<Url, String>)
    ensures
        match r {
            Ok(joined) => joined_url(*url, reference@) == Ok::<Url, Seq<char>>(joined),
            Err(m) => joined_url(*url, reference@) == Err::<Url, Seq<char>>(m@),
        },
{
    url.join(reference).map_err(|e| e.to_string())
}

/// The serializer of `Url::query_pairs_mut` adds each pair to the query in order; what comes
/// out depends on the URL and the pairs alone.
#[verifier::external_body]
pub(crate) fn add_query(url: &mut Url, pairs: &Vec<(String, String)>)
    ensures
        *final(url) == url_with_query(*old(url), fields(pairs@)),
{
    url.query_pairs_mut().extend_pairs(pairs);
}

/// The text of a URL, or why there is none.
pub open spec fn text_of(url: Result<Url, Seq<char>>) -> Result<Seq<char>, Seq<char>> {
    match url {
        Ok(u) => Ok(url_text(u)),
        Err(m) => Err(m),
    }
}

/// The normal form of a URL, or why a text is none.
pub open spec fn normal_url_spec(text: Seq<char>) -> Result<Seq<char>, Seq<char>> {
    text_of(parsed_url(text))
}

/// The normal form of a URL, or why a text is none.
pub fn normal_url(text: &str) -> (r: Result<String, String>)
    ensures
        match r {
            Ok(url) => normal_url_spec(text@) == Ok::<Seq<char>, Seq<char>>(url@),
            Err(m) => normal_url_spec(text@) == Err::<Seq<char>, Seq<char>>(m@),
        },
{
    match parse_url(text) {
        Ok(url) => Ok(url_string(&url)),
        Err(m) => Err(m),
    }
}

} // verus!
