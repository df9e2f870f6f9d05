//! Absolute URLs as the library reads them: the parts that its rules look
//! at, parsed by the `url` crate.
use vstd::prelude::*;
use crate::text::same_text;

verus! {

/// What the rules read of a parsed URL: its scheme, its host (if it has one)
/// and its serialization.
pub struct UrlView {
    pub scheme: Seq<char>,
    pub host: Option<Seq<char>>,
    pub href: Seq<char>,
}

/// An absolute URL, held by the parts that the library reads of it.
#[derive(Debug)]
pub struct Url {
    scheme: String,
    host: Option<String>,
    href: String,
}

/// A URL that could not be parsed, with the parser's description of why.
#[derive(Debug)]
pub struct UrlError {
    message: String,
}

/// An optional string, by its characters.
pub open spec fn opt_text(o: Option<String>) -> Option<Seq<char>> {
    match o {
        Some(t) => Some(t@),
        None => None,
    }
}

impl View for Url {
    type V = UrlView;

    closed spec fn view(&self) -> UrlView {
        UrlView { scheme: self.scheme@, host: opt_text(self.host), href: self.href@ }
    }
}

impl View for UrlError {
    type V = Seq<char>;

    closed spec fn view(&self) -> Seq<char> {
        self.message@
    }
}

/// What `url::Url::parse` makes of a string: on success the scheme, the host
/// and the serialization of the URL, on failure the text of the parse error.
pub uninterp spec fn url_parse_result(input: Seq<char>) -> Result<
    (Seq<char>, Option<Seq<char>>, Seq<char>),
    Seq<char>,
>;

/// The outcome of parsing `input`, by views.
pub open spec fn spec_parse(input: Seq<char>) -> Result<UrlView, Seq<char>> {
    match url_parse_result(input) {
        Ok(p) => Ok(UrlView { scheme: p.0, host: p.1, href: p.2 }),
        Err(e) => Err(e),
    }
}

/// The outcome of a parse, by views.
pub open spec fn parse_outcome(r: Result<Url, UrlError>) -> Result<UrlView, Seq<char>> {
    match r {
        Ok(u) => Ok(u@),
        Err(e) => Err(e@),
    }
}

/// Calls `url::Url::parse`, WHATWG URL parsing of an absolute URL. On success
/// it keeps `scheme()`, `host_str()` and `as_str()` of the result; on failure
/// the `Display` text of the `url::ParseError`. The contract claims only that
/// this outcome is a function of the input, named `url_parse_result`.
#[verifier::external_body]
fn parse_with_url_crate(input: &str) -> (r: Result<Url, UrlError>)
    ensures
        match r {
            Ok(u) => url_parse_result(input@) == Ok::<
                (Seq<char>, Option<Seq<char>>, Seq<char>),
                Seq<char>,
            >((u@.scheme, u@.host, u@.href)),
            Err(e) => url_parse_result(input@) == Err::<
                (Seq<char>, Option<Seq<char>>, Seq<char>),
                Seq<char>,
            >(e@),
        },
{
    match url::Url::parse(input) {
        Ok(u) => Ok(
            Url {
                scheme: u.scheme().to_string(),
                host: u.host_str().map(|h| h.to_string()),
                href: u.as_str().to_string(),
            },
        ),
        Err(e) => Err(UrlError { message: e.to_string() }),
    }
}

impl Url {
    /// Parses an absolute URL.
    pub fn parse(input: &str) -> (r: Result<Url, UrlError>)
        ensures
            parse_outcome(r) == spec_parse(input@),
    {
        parse_with_url_crate(input)
    }

    /// The scheme, lower-cased, without the `:`.
    pub fn scheme(&self) -> (r: &str)
        ensures
            r@ == self@.scheme,
    {
        self.scheme.as_str()
    }

    /// The host, where the URL has one.
    pub fn host_str(&self) -> (r: Option<&str>)
        ensures
            match r {
                Some(h) => self@.host == Some(h@),
                None => self@.host is None,
            },
    {
        match &self.host {
            Some(h) => Some(h.as_str()),
            None => None,
        }
    }

    /// The host as an owned string, where the URL has one.
    pub fn host_string(&self) -> (r: Option<String>)
        ensures
            opt_text(r) == self@.host,
    {
        match &self.host {
            Some(h) => Some(h.clone()),
            None => None,
        }
    }

    /// The serialization of the URL.
    pub fn as_str(&self) -> (r: &str)
        ensures
            r@ == self@.href,
    {
        self.href.as_str()
    }

    /// Whether the scheme is `scheme`.
    pub fn has_scheme(&self, scheme: &str) -> (r: bool)
        ensures
            r == (self@.scheme == scheme@),
    {
        same_text(self.scheme.as_str(), scheme)
    }
}

impl UrlError {
    /// The parser's description of the error.
    pub fn message(&self) -> (r: &str)
        ensures
            r@ == self@,
    {
        self.message.as_str()
    }
}

} // verus!
