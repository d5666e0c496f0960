//! Parsing and validation of the probe target.
//!
//! A raw string becomes an [`Address`] only by passing URL syntax
//! validation; construction is the sole validation gate. The scheme is
//! kept as a plain string so that dispatch can reason about it, while the
//! parsed URL itself is carried along opaquely for handshake construction.

use vstd::prelude::*;

verus! {

/// Whether `url::Url::parse` accepts the string as an absolute URL.
/// The outcome depends on the characters of the string alone.
pub uninterp spec fn url_parse_ok(s: Seq<char>) -> bool;

/// The scheme component of the URL that `url::Url::parse` reads out of
/// the string (already lowercased by the parser), for a string it accepts.
pub uninterp spec fn url_scheme_of(s: Seq<char>) -> Seq<char>;

/// The display text of the `url::ParseError` that `url::Url::parse`
/// reports, for a string it rejects. Each error renders as a fixed text.
pub uninterp spec fn url_parse_err_of(s: Seq<char>) -> Seq<char>;

#[verifier::external_type_specification]
#[verifier::external_body]
pub struct ExUrl(url::Url);

/// Relies on `url::Url::parse` (a pure function of its input, with the
/// default parse options), on `url::Url::scheme` (the scheme slice of the
/// parsed URL), and on `url::ParseError`'s display text (a fixed string
/// per error): all three depend on the input characters alone.
#[verifier::external_body]
fn parse_absolute_url(raw: &str) -> (r: Result<(url::Url, String), String>)
    ensures
        r is Ok <==> url_parse_ok(raw@),
        r matches Ok(p) ==> p.1@ == url_scheme_of(raw@),
        r matches Err(m) ==> m@ == url_parse_err_of(raw@),
{
    match url::Url::parse(raw) {
        Ok(u) => {
            let scheme = u.scheme().to_string();
            Ok((u, scheme))
        },
        Err(e) => Err(e.to_string()),
    }
}

/// The diagnostic produced for a string that fails URL syntax validation:
/// the parser's own message behind a fixed prefix.
pub open spec fn invalid_url_message(detail: Seq<char>) -> Seq<char> {
    "Invalid URL: "@ + detail
}

/// A validated probe target: the scheme the URL declared, plus the parsed
/// URL retained opaquely for handshake construction.
///
/// The scheme's *value* is deliberately not checked here; any scheme that
/// parses is accepted, and unsupported ones are rejected at dispatch time.
#[derive(Debug)]
pub struct Address {
    scheme: String,
    url: url::Url,
}

impl Address {
    /// The scheme this address declared, as a sequence of characters.
    pub closed spec fn scheme_spec(&self) -> Seq<char> {
        self.scheme@
    }

    pub fn scheme(&self) -> (r: &String)
        ensures
            r@ == self.scheme_spec(),
    {
        &self.scheme
    }

    /// The parsed URL, for the collaborator that opens the connection.
    pub fn url(&self) -> &url::Url {
        &self.url
    }
}

/// A string that failed URL syntax validation, with its diagnostic.
#[derive(Debug)]
pub struct InvalidAddressError {
    pub message: String,
}

/// Parses and validates a candidate endpoint string.
///
/// Succeeds exactly on the strings that the URL parser accepts; on
/// failure the error carries the parser's message, verbatim, behind the
/// fixed `Invalid URL: ` prefix.
pub fn validate(raw: &str) -> (r: Result<Address, InvalidAddressError>)
    ensures
        r is Ok <==> url_parse_ok(raw@),
        r matches Ok(a) ==> a.scheme_spec() == url_scheme_of(raw@),
        r matches Err(e) ==> e.message@ == invalid_url_message(url_parse_err_of(raw@)),
{
    match parse_absolute_url(raw) {
        Ok((u, scheme)) => Ok(Address { scheme, url: u }),
        Err(detail) => {
            let prefix: String = "Invalid URL: ".to_owned();
            Err(InvalidAddressError { message: prefix.concat(detail.as_str()) })
        },
    }
}

} // verus!
