//! Resource locators.
use vstd::prelude::*;

use crate::error::UrlResourceError;

verus! {

#[verifier::external_type_specification]
#[verifier::external_body]
pub struct ExUrlParseError(url::ParseError);

/// What `url::Url::parse` makes of a string when it accepts it: the URL's
/// lower-cased scheme and its serialization. `None` where it refuses it.
pub uninterp spec fn parsed_url(s: Seq<char>) -> Option<(Seq<char>, Seq<char>)>;

/// Relies on `url::Url::parse`, then reads the parsed URL through
/// `Url::scheme` and `Url::as_str`.
#[verifier::external_body]
fn parse_url(s: &str) -> (r: Result<(String, String), url::ParseError>)
    ensures
        r matches Ok((scheme, href)) ==> parsed_url(s@) == Some((scheme@, href@)),
        r is Err ==> parsed_url(s@) is None,
{
    let url = url::Url::parse(s)?;
    Ok((url.scheme().to_owned(), url.as_str().to_owned()))
}

/// A resource locator: a URL held as its scheme, which selects the fetch
/// adapter, and its serialization.
#[derive(Clone, Debug, PartialEq, Eq)]
pub struct Locator {
    scheme: String,
    href: String,
}

impl Locator {
    /// Parses an absolute URL. A string that is no URL is a failed
    /// precondition.
    pub fn parse(s: &str) -> (r: Result<Locator, UrlResourceError>)
        ensures
            parsed_url(s@) is None <==> r is Err,
            r matches Err(e) ==> e is FailedPrecondition,
            r matches Ok(l) ==> parsed_url(s@) == Some((l.spec_scheme(), l.spec_href())),
    {
        match parse_url(s) {
            Ok((scheme, href)) => Ok(Locator { scheme, href }),
            Err(_) => Err(
                UrlResourceError::new_failed_precondition(
                    String::from_str("Configured URL resource invalid: ").concat(s),
                ),
            ),
        }
    }

    pub closed spec fn spec_scheme(&self) -> Seq<char> {
        self.scheme@
    }

    pub closed spec fn spec_href(&self) -> Seq<char> {
        self.href@
    }

    /// The URL's scheme, lower-cased, without the `:` delimiter.
    pub fn scheme(&self) -> (r: &str)
        ensures
            r@ == self.spec_scheme(),
    {
        self.scheme.as_str()
    }

    /// The URL's serialization.
    pub fn as_str(&self) -> (r: &str)
        ensures
            r@ == self.spec_href(),
    {
        self.href.as_str()
    }
}

} // verus!
