use vstd::prelude::*;
use vstd::string::*;

use crate::error::FetchError;

verus! {

/// The pieces of a URI that http has parsed, each as text.
pub struct UriParts {
    /// The URI as http writes it out (its `Display`).
    pub text: String,
    /// The scheme, where there is one.
    pub scheme: Option<String>,
    /// The authority (host and port), where there is one.
    pub authority: Option<String>,
    /// The path and query, where http gives them.
    pub path_and_query: Option<String>,
}

/// The text that an optional string stands for.
pub open spec fn opt_text(s: Option<String>) -> Option<Seq<char>> {
    match s {
        Some(t) => Some(t@),
        None => None,
    }
}

/// The view of parsed URI pieces: text, scheme, authority, path and query.
pub type UriView = (Seq<char>, Option<Seq<char>>, Option<Seq<char>>, Option<Seq<char>>);

/// The view of parsed URI pieces.
pub open spec fn parts_view(p: UriParts) -> UriView {
    (p.text@, opt_text(p.scheme), opt_text(p.authority), opt_text(p.path_and_query))
}

/// What `http::Uri`'s `FromStr` makes of a text: the pieces of the URI (its
/// display, `scheme_str`, `authority` and `path_and_query`), or the display of
/// the error where it refuses the text.
pub uninterp spec fn spec_uri_parse(text: Seq<char>) -> Result<UriView, Seq<char>>;

/// What `url::Url::parse` makes of a text as a base: `None` where it accepts
/// it, else the display of its error.
pub uninterp spec fn spec_url_parse_error(text: Seq<char>) -> Option<Seq<char>>;

/// What `url::Url::join` gives for the URL that `base` parses to and the
/// reference `reference`: the serialization of the resolved URL
/// (`Url::as_str`), or the display of its error.
pub uninterp spec fn spec_url_join(base: Seq<char>, reference: Seq<char>) -> Result<Seq<char>, Seq<char>>;

/// Calls `http::Uri`'s `FromStr` on `text`, and converts what it returns:
/// the URI into its pieces as text, the error into its display.
///
/// Claimed: the result is the one named by `spec_uri_parse` for the text.
#[verifier::external_body]
pub(crate) fn parse_uri(text: &str) -> (r: Result<UriParts, String>)
    ensures
        parse_view(r) == spec_uri_parse(text@),
{
    match text.parse::<http::Uri>() {
        Ok(u) => Ok(UriParts {
            text: u.to_string(),
            scheme: u.scheme_str().map(|s| s.to_string()),
            authority: u.authority().map(|a| a.as_str().to_string()),
            path_and_query: u.path_and_query().map(|p| p.as_str().to_string()),
        }),
        Err(e) => Err(e.to_string()),
    }
}

/// Why a URL could not be resolved against a base.
pub enum JoinFailure {
    /// The base is no URL; the text of url's error.
    Base(String),
    /// The reference does not resolve against the base; the text of url's error.
    Reference(String),
}

/// Calls `url::Url::parse` on `base` and, where it accepts it, `Url::join`
/// with `reference`; gives the serialization of the result (`Url::as_str`) or
/// the display of the error that came.
///
/// Claimed: the base fails, with its error's display, exactly as
/// `spec_url_parse_error` says, and the join gives the result named by
/// `spec_url_join`.
#[verifier::external_body]
pub(crate) fn url_join(base: &str, reference: &str) -> (r: Result<String, JoinFailure>)
    ensures
        match spec_url_parse_error(base@) {
            Some(e) => join_view(r) == Err::<Seq<char>, (bool, Seq<char>)>((true, e)),
            None => match spec_url_join(base@, reference@) {
                Ok(j) => join_view(r) == Ok::<Seq<char>, (bool, Seq<char>)>(j),
                Err(e) => join_view(r) == Err::<Seq<char>, (bool, Seq<char>)>((false, e)),
            },
        },
{
    match url::Url::parse(base) {
        Err(e) => Err(JoinFailure::Base(e.to_string())),
        Ok(b) => match b.join(reference) {
            Ok(u) => Ok(u.as_str().to_string()),
            Err(e) => Err(JoinFailure::Reference(e.to_string())),
        },
    }
}

/// The message of a URL error that is a heading followed by the text of an
/// outside error.
pub open spec fn headed(heading: Seq<char>, text: Seq<char>) -> Seq<char> {
    heading + text
}

/// The outcome of resolving a redirect, given what url made of the join and,
/// where it succeeded, what http made of the resolved URL.
pub open spec fn spec_redirect_target(
    joined: Result<Seq<char>, (bool, Seq<char>)>,
    parsed: Option<Result<UriView, Seq<char>>>,
) -> Result<Seq<char>, Seq<char>> {
    match joined {
        Err((true, e)) => Err(headed("Invalid base URL: "@, e)),
        Err((false, e)) => Err(headed("Invalid redirect URL: "@, e)),
        Ok(_) => match parsed {
            Some(Ok(p)) => Ok(p.0),
            Some(Err(e)) => Err(headed("Invalid redirect URL: "@, e)),
            None => Err(Seq::empty()),
        },
    }
}

/// The view of a join's result: the resolved text, or whether the base failed
/// and the error's text.
pub open spec fn join_view(r: Result<String, JoinFailure>) -> Result<Seq<char>, (bool, Seq<char>)> {
    match r {
        Ok(s) => Ok(s@),
        Err(JoinFailure::Base(e)) => Err((true, e@)),
        Err(JoinFailure::Reference(e)) => Err((false, e@)),
    }
}

/// The view of a URI parse's result.
pub open spec fn parse_view(r: Result<UriParts, String>) -> Result<UriView, Seq<char>> {
    match r {
        Ok(p) => Ok(parts_view(p)),
        Err(e) => Err(e@),
    }
}

/// The view of an optional URI parse's result.
pub open spec fn opt_parse_view(r: Option<Result<UriParts, String>>) -> Option<Result<UriView, Seq<char>>> {
    match r {
        Some(p) => Some(parse_view(p)),
        None => None,
    }
}

/// The view of an outcome that is a text or a URL error.
pub open spec fn url_outcome(r: Result<String, FetchError>) -> Result<Seq<char>, Seq<char>> {
    match r {
        Ok(s) => Ok(s@),
        Err(FetchError::Url(m)) => Err(m@),
        Err(_) => Err(arbitrary()),
    }
}

/// Decides the target of a redirect from what url made of the join and what
/// http made of the resolved URL (`parsed` is given where the join
/// succeeded): the target is the resolved URI as http writes it, and each
/// failure is a URL error whose message names the step that failed. A
/// successful join given without http's parse is a URL error with no message.
pub fn redirect_target(joined: Result<String, JoinFailure>, parsed: Option<Result<UriParts, String>>) -> (r: Result<String, FetchError>)
    ensures
        r is Ok || r is Err && r->Err_0 is Url,
        url_outcome(r) == spec_redirect_target(
            join_view(joined),
            opt_parse_view(parsed),
        ),
{
    match joined {
        Err(JoinFailure::Base(e)) => Err(FetchError::Url(String::from_str("Invalid base URL: ").concat(e.as_str()))),
        Err(JoinFailure::Reference(e)) => Err(FetchError::Url(String::from_str("Invalid redirect URL: ").concat(e.as_str()))),
        Ok(_) => match parsed {
            Some(Ok(p)) => Ok(p.text),
            Some(Err(e)) => Err(FetchError::Url(String::from_str("Invalid redirect URL: ").concat(e.as_str()))),
            None => Err(FetchError::Url(String::new())),
        },
    }
}

/// What resolving a redirect's `location` against `base` gives: the resolved
/// URI as http writes it, or the message of the URL error, which names the
/// step that failed and carries the outside error's text.
pub open spec fn spec_resolve(base: Seq<char>, location: Seq<char>) -> Result<Seq<char>, Seq<char>> {
    match spec_url_parse_error(base) {
        Some(e) => Err(headed("Invalid base URL: "@, e)),
        None => match spec_url_join(base, location) {
            Err(e) => Err(headed("Invalid redirect URL: "@, e)),
            Ok(j) => match spec_uri_parse(j) {
                Ok(p) => Ok(p.0),
                Err(e) => Err(headed("Invalid redirect URL: "@, e)),
            },
        },
    }
}

/// Resolves a redirect's `location` against the URI `base`, as a browser
/// would: url joins the two, and http parses the result.
pub fn resolve_redirect(base: &str, location: &str) -> (r: Result<String, FetchError>)
    ensures
        r is Ok || r is Err && r->Err_0 is Url,
        url_outcome(r) == spec_resolve(base@, location@),
{
    let joined = url_join(base, location);
    let parsed = match &joined {
        Ok(s) => Some(parse_uri(s.as_str())),
        Err(_) => None,
    };
    redirect_target(joined, parsed)
}

} // verus!
