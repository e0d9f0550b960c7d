//! The root of a URL: its scheme and authority, the key under which a store
//! client is filed.

use crate::error::SaError;
use url::Position;
use url::Url;
use vstd::prelude::*;
use vstd::string::*;

verus! {

/// The error of `url::Url::parse`.
#[verifier::external_type_specification]
#[verifier::external_body]
pub struct ExUrlParseError(url::ParseError);

/// The scheme of `uri` and its authority without credentials (host, and port
/// where one is written), as `url::Url::parse` reads them; `None` where it
/// rejects `uri`.
pub uninterp spec fn spec_url_parts(uri: Seq<char>) -> Option<(Seq<char>, Seq<char>)>;

/// Calls `url::Url::parse` on `uri`. On success the result holds the parsed
/// URL's scheme and the text between the start of its host and the end of its
/// port; the contract names this pair `spec_url_parts(uri)` and claims no more
/// about it.
#[verifier::external_body]
fn url_parts(uri: &str) -> (r: Result<(String, String), url::ParseError>)
    ensures
        match r {
            Ok(parts) => spec_url_parts(uri@) == Some((parts.0@, parts.1@)),
            Err(_) => spec_url_parts(uri@).is_none(),
        },
{
    let url = Url::parse(uri)?;
    Ok((url.scheme().to_string(), url[Position::BeforeHost..Position::AfterPort].to_string()))
}

/// The root made of a scheme and an authority: `scheme://authority`.
pub open spec fn spec_root_of(scheme: Seq<char>, authority: Seq<char>) -> Seq<char> {
    scheme + "://"@ + authority
}

/// The root of `uri`, where it is a URL.
pub open spec fn spec_url_root(uri: Seq<char>) -> Option<Seq<char>> {
    match spec_url_parts(uri) {
        Some(parts) => Some(spec_root_of(parts.0, parts.1)),
        None => None,
    }
}

/// Joins a scheme and an authority into a root.
pub fn root_of(scheme: &str, authority: &str) -> (r: String)
    ensures
        r@ == spec_root_of(scheme@, authority@),
{
    String::from_str(scheme).concat("://").concat(authority)
}

/// The root of `uri`: `s3://bucket/a/b.csv` has the root `s3://bucket`.
/// `None` where `uri` is not a URL.
pub fn url_root(uri: &str) -> (r: Option<String>)
    ensures
        match r {
            Some(root) => spec_url_root(uri@) == Some(root@),
            None => spec_url_root(uri@).is_none(),
        },
{
    match url_parts(uri) {
        Ok(parts) => Some(root_of(parts.0.as_str(), parts.1.as_str())),
        Err(_) => None,
    }
}

/// A URL that was parsed, with its root.
#[derive(Debug)]
pub struct ParsedUrl {
    text: String,
    root: String,
}

impl ParsedUrl {
    /// The text that was parsed.
    pub closed spec fn spec_text(&self) -> Seq<char> {
        self.text@
    }

    /// The root of the URL.
    pub closed spec fn spec_root(&self) -> Seq<char> {
        self.root@
    }

    /// Parses `text`. What is not a URL is a parse error.
    pub fn parse(text: &str) -> (r: Result<ParsedUrl, SaError>)
        ensures
            match r {
                Ok(url) => url.spec_text() == text@ && spec_url_root(text@) == Some(url.spec_root()),
                Err(e) => e == SaError::ParseError && spec_url_root(text@).is_none(),
            },
    {
        match url_root(text) {
            Some(root) => Ok(ParsedUrl { text: String::from_str(text), root }),
            None => Err(SaError::ParseError),
        }
    }

    /// The text that was parsed.
    pub fn as_str(&self) -> (r: &str)
        ensures
            r@ == self.spec_text(),
    {
        self.text.as_str()
    }

    /// The root of the URL: scheme, `://`, host and port.
    pub fn root(&self) -> (r: &str)
        ensures
            r@ == self.spec_root(),
    {
        self.root.as_str()
    }
}

} // verus!
