//! Resolution of artwork references against the hub's base URL: an
//! absolute URL is kept as parsed, a relative reference is joined against
//! the base, and anything else does not resolve. The parsing itself is the
//! url crate's; its outcomes are named here and everything around them is
//! verified.

use vstd::prelude::*;

verus! {

/// Whether the url crate parses `s` as an absolute URL. The parse depends
/// on the text alone, so its outcome can carry a name.
pub uninterp spec fn url_parses(s: Seq<char>) -> bool;

/// Whether the url crate rejects `s` only for want of a base: text that is
/// a valid relative reference. Never true together with `url_parses`.
pub uninterp spec fn url_relative(s: Seq<char>) -> bool;

/// The serialization of the absolute URL that `s` parses to, when
/// `url_parses(s)` holds.
pub uninterp spec fn url_text(s: Seq<char>) -> Seq<char>;

/// Whether `base` parses as an absolute URL and `rel` resolves against it.
pub uninterp spec fn url_join_ok(base: Seq<char>, rel: Seq<char>) -> bool;

/// The serialization of resolving `rel` against `base`, when
/// `url_join_ok(base, rel)` holds.
pub uninterp spec fn url_join_text(base: Seq<char>, rel: Seq<char>) -> Seq<char>;

/// How the url crate's parser classifies a piece of text.
pub enum UrlParseOutcome {
    /// An absolute URL, carrying its serialization.
    Absolute(String),
    /// Rejected only for want of a base URL.
    Relative,
    /// Rejected for any other reason.
    Invalid,
}

/// Relies on `url::Url::parse`: parses text as an absolute URL, and fails
/// with `RelativeUrlWithoutBase` exactly on text that only a base URL
/// would complete; `url::Url::as_str` hands back the parsed
/// serialization. The outcome is a function of the text alone.
#[verifier::external_body]
fn classify_url(s: &str) -> (r: UrlParseOutcome)
    ensures
        (r is Absolute) == url_parses(s@),
        (r is Relative) == url_relative(s@),
        (r is Invalid) == (!url_parses(s@) && !url_relative(s@)),
        r matches UrlParseOutcome::Absolute(t) ==> t@ == url_text(s@),
{
    match url::Url::parse(s) {
        Ok(u) => UrlParseOutcome::Absolute(u.as_str().to_owned()),
        Err(url::ParseError::RelativeUrlWithoutBase) => UrlParseOutcome::Relative,
        Err(_) => UrlParseOutcome::Invalid,
    }
}

/// Relies on `url::Url::parse` and `url::Url::join`: parses `base` as an
/// absolute URL and resolves `rel` against it; `None` when `base` does not
/// parse or the join fails. The outcome is a function of the two texts
/// alone.
#[verifier::external_body]
fn join_url(base: &str, rel: &str) -> (r: Option<String>)
    ensures
        (r is Some) == url_join_ok(base@, rel@),
        r matches Some(t) ==> t@ == url_join_text(base@, rel@),
{
    match url::Url::parse(base) {
        Ok(b) => match b.join(rel) {
            Ok(u) => Some(u.as_str().to_owned()),
            Err(_) => None,
        },
        Err(_) => None,
    }
}

/// Where a raw artwork reference resolves to against the hub's base URL,
/// if anywhere.
pub open spec fn spec_resolve_art_url(raw: Seq<char>, base: Seq<char>) -> Option<Seq<char>> {
    if url_parses(raw) {
        Some(url_text(raw))
    } else if url_relative(raw) && url_join_ok(base, raw) {
        Some(url_join_text(base, raw))
    } else {
        None
    }
}

/// Resolves a raw artwork reference against the hub's base URL: kept
/// verbatim as parsed when absolute, joined against the base when
/// relative, and `None` when it is neither parseable nor joinable.
pub fn resolve_art_url(raw: &str, base: &str) -> (r: Option<String>)
    ensures
        (r is Some) == (spec_resolve_art_url(raw@, base@) is Some),
        r matches Some(t) ==> spec_resolve_art_url(raw@, base@) == Some(t@),
{
    match classify_url(raw) {
        UrlParseOutcome::Absolute(t) => Some(t),
        UrlParseOutcome::Relative => join_url(base, raw),
        UrlParseOutcome::Invalid => None,
    }
}

} // verus!
