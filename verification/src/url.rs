//! URL validation and domain extraction.

use vstd::prelude::*;
use vstd::string::StringExecFns;
use crate::strings::{followed_by, same_text};

verus! {

/// The parts of an absolute URL that the scraper reads.
#[derive(Debug, PartialEq, Eq)]
pub struct UrlParts {
    /// The scheme, without the colon.
    pub scheme: String,
    /// The host, where the URL has one.
    pub host: Option<String>,
}

/// The mathematical value of a [`UrlParts`].
pub struct UrlPartsModel {
    pub scheme: Seq<char>,
    pub host: Option<Seq<char>>,
}

impl View for UrlParts {
    type V = UrlPartsModel;

    open spec fn view(&self) -> UrlPartsModel {
        UrlPartsModel { scheme: self.scheme@, host: self.host.deep_view() }
    }
}

/// The outcome of parsing a URL, over mathematical values: the parts, or the
/// parser's message.
pub open spec fn outcome_model(parsed: Result<UrlParts, String>) -> Result<
    UrlPartsModel,
    Seq<char>,
> {
    match parsed {
        Ok(parts) => Ok(parts@),
        Err(message) => Err(message@),
    }
}

/// What the URL parser makes of `input`, read as an absolute URL: the scheme
/// and host of the parsed URL, or the message of the parser's error.
pub uninterp spec fn parsed_url(input: Seq<char>) -> Result<UrlPartsModel, Seq<char>>;

/// Parses `input` with `reqwest::Url::parse`. From a parsed URL it takes
/// `Url::scheme` and `Url::host_str`; from an error, the text that the error
/// displays. The parser reads nothing but `input`, so the outcome is the value
/// that `parsed_url` names; nothing else is claimed of it.
#[verifier::external_body]
pub(crate) fn parse_url(input: &str) -> (parsed: Result<UrlParts, String>)
    ensures
        outcome_model(parsed) == parsed_url(input@),
{
    match reqwest::Url::parse(input) {
        Ok(url) => Ok(
            UrlParts {
                scheme: url.scheme().to_string(),
                host: url.host_str().map(|host| host.to_string()),
            },
        ),
        Err(error) => Err(error.to_string()),
    }
}

/// Why a URL is refused.
#[derive(Debug, PartialEq, Eq)]
pub enum UrlError {
    /// The text is no absolute URL; the parser's message says why.
    Malformed(String),
    /// The URL is neither `http` nor `https`.
    SchemeNotAllowed,
}

/// The mathematical value of a [`UrlError`].
pub enum UrlErrorModel {
    Malformed(Seq<char>),
    SchemeNotAllowed,
}

impl View for UrlError {
    type V = UrlErrorModel;

    open spec fn view(&self) -> UrlErrorModel {
        match self {
            UrlError::Malformed(message) => UrlErrorModel::Malformed(message@),
            UrlError::SchemeNotAllowed => UrlErrorModel::SchemeNotAllowed,
        }
    }
}

/// Whether `scheme` is one that may be scraped.
pub open spec fn scheme_allowed(scheme: Seq<char>) -> bool {
    scheme == "http"@ || scheme == "https"@
}

/// The verdict on a parsed URL: accepted when it parsed and its scheme is
/// allowed, refused with the reason otherwise.
pub open spec fn verdict(parsed: Result<UrlPartsModel, Seq<char>>) -> Result<(), UrlErrorModel> {
    match parsed {
        Err(message) => Err(UrlErrorModel::Malformed(message)),
        Ok(parts) => if scheme_allowed(parts.scheme) {
            Ok(())
        } else {
            Err(UrlErrorModel::SchemeNotAllowed)
        },
    }
}

/// The verdict of [`check_url`] over mathematical values.
pub open spec fn verdict_model(checked: Result<(), UrlError>) -> Result<(), UrlErrorModel> {
    match checked {
        Ok(()) => Ok(()),
        Err(error) => Err(error@),
    }
}

/// The domain of a parsed URL: its host, or `unknown` where it has none or
/// did not parse.
pub open spec fn domain_text(parsed: Result<UrlPartsModel, Seq<char>>) -> Seq<char> {
    match parsed {
        Ok(parts) => match parts.host {
            Some(host) => host,
            None => "unknown"@,
        },
        Err(_) => "unknown"@,
    }
}

/// The message that reports `error`.
pub open spec fn error_text(error: UrlErrorModel) -> Seq<char> {
    match error {
        UrlErrorModel::Malformed(message) => "Invalid URL: "@ + message,
        UrlErrorModel::SchemeNotAllowed => "Only http and https schemes are allowed"@,
    }
}

impl UrlError {
    /// The message that reports this error.
    pub fn message(&self) -> (text: String)
        ensures
            text@ == error_text(self@),
    {
        match self {
            UrlError::Malformed(message) => followed_by("Invalid URL: ", message.as_str()),
            UrlError::SchemeNotAllowed => String::from_str(
                "Only http and https schemes are allowed",
            ),
        }
    }
}

/// Judges the outcome of parsing a URL: only a URL that parsed and whose
/// scheme is `http` or `https` is accepted.
pub fn check_parsed(parsed: Result<UrlParts, String>) -> (checked: Result<(), UrlError>)
    ensures
        verdict_model(checked) == verdict(outcome_model(parsed)),
{
    match parsed {
        Err(message) => Err(UrlError::Malformed(message)),
        Ok(parts) => {
            if same_text(parts.scheme.as_str(), "http") || same_text(
                parts.scheme.as_str(),
                "https",
            ) {
                Ok(())
            } else {
                Err(UrlError::SchemeNotAllowed)
            }
        },
    }
}

/// Checks that `url` is an absolute URL whose scheme is `http` or `https`.
pub fn check_url(url: &str) -> (checked: Result<(), UrlError>)
    ensures
        verdict_model(checked) == verdict(parsed_url(url@)),
{
    check_parsed(parse_url(url))
}

/// The domain of a parsed URL: its host, or `unknown`.
pub fn domain_of(parsed: Result<UrlParts, String>) -> (domain: String)
    ensures
        domain@ == domain_text(outcome_model(parsed)),
{
    match parsed {
        Ok(parts) => match parts.host {
            Some(host) => host,
            None => String::from_str("unknown"),
        },
        Err(_) => String::from_str("unknown"),
    }
}

/// The host of `url`, or `unknown` where `url` has none or is no URL.
pub fn extract_domain(url: &str) -> (domain: String)
    ensures
        domain@ == domain_text(parsed_url(url@)),
{
    domain_of(parse_url(url))
}

} // verus!
