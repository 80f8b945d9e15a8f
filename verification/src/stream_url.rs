//! Vetting of stream URLs before they may reach the player process.
//!
//! A URL may come from an untrusted network response, so only absolute
//! `http` and `https` URLs that do not point at this machine or at a private
//! network are let through.

use crate::text::{str_eq, str_starts_with};
use vstd::prelude::*;

verus! {

/// The two parts of a parsed URL that the vetting reads.
#[derive(Debug, Clone)]
pub struct UrlParts {
    /// The scheme, without the `:`.
    pub scheme: String,
    /// The host as the parser serialises it, if the URL has one.
    pub host: Option<String>,
}

impl UrlParts {
    /// The parts as sequences of characters.
    pub open spec fn view(&self) -> (Seq<char>, Option<Seq<char>>) {
        (
            self.scheme@,
            match self.host {
                Some(h) => Some(h@),
                None => None,
            },
        )
    }
}

/// Why a URL is turned away.
#[derive(Debug, Clone, Copy, PartialEq, Eq, Structural)]
pub enum UrlError {
    /// The text is not an absolute URL.
    InvalidFormat,
    /// The scheme is neither `http` nor `https`.
    SchemeNotAllowed,
    /// The host is this machine or lies in a private range.
    LocalHost,
}

/// Scheme and host of `input` parsed as an absolute URL, or `None` where it
/// does not parse.
pub uninterp spec fn parsed_parts(input: Seq<char>) -> Option<(Seq<char>, Option<Seq<char>>)>;

/// `url::Url::parse`, followed on success by `Url::scheme` and
/// `Url::host_str` of the parsed URL. The contract claims only that the
/// outcome is a function of the input text: it names it `parsed_parts`.
#[verifier::external_body]
pub(crate) fn parse_parts(input: &str) -> (r: Option<UrlParts>)
    ensures
        match r {
            Some(parts) => parsed_parts(input@) == Some(parts@),
            None => parsed_parts(input@) is None,
        },
{
    match url::Url::parse(input) {
        Ok(parsed) => Some(
            UrlParts {
                scheme: parsed.scheme().to_string(),
                host: match parsed.host_str() {
                    Some(h) => Some(h.to_string()),
                    None => None,
                },
            },
        ),
        Err(_) => None,
    }
}

/// The scheme `http`.
pub open spec fn scheme_http() -> Seq<char> {
    seq!['h', 't', 't', 'p']
}

/// The scheme `https`.
pub open spec fn scheme_https() -> Seq<char> {
    seq!['h', 't', 't', 'p', 's']
}

/// The host name of this machine.
pub open spec fn host_localhost() -> Seq<char> {
    seq!['l', 'o', 'c', 'a', 'l', 'h', 'o', 's', 't']
}

/// The loopback address.
pub open spec fn host_loopback() -> Seq<char> {
    seq!['1', '2', '7', '.', '0', '.', '0', '.', '1']
}

/// How the addresses of the private range 192.168.0.0/16 begin.
pub open spec fn prefix_192_168() -> Seq<char> {
    seq!['1', '9', '2', '.', '1', '6', '8', '.']
}

/// How the addresses of the private range 10.0.0.0/8 begin.
pub open spec fn prefix_10() -> Seq<char> {
    seq!['1', '0', '.']
}

/// How the addresses of the private range 172.16.0.0/16 begin.
pub open spec fn prefix_172_16() -> Seq<char> {
    seq!['1', '7', '2', '.', '1', '6', '.']
}

/// The schemes a stream may use.
pub open spec fn is_web_scheme(scheme: Seq<char>) -> bool {
    scheme == scheme_http() || scheme == scheme_https()
}

/// Hosts that name this machine or a private network. The host is judged as
/// text: by these two names and these three beginnings.
pub open spec fn is_local_host(host: Seq<char>) -> bool {
    ||| host == host_localhost()
    ||| host == host_loopback()
    ||| prefix_192_168().is_prefix_of(host)
    ||| prefix_10().is_prefix_of(host)
    ||| prefix_172_16().is_prefix_of(host)
}

/// The verdict on a URL, given what parsing it gave.
pub open spec fn verdict(parts: Option<(Seq<char>, Option<Seq<char>>)>) -> Result<(), UrlError> {
    match parts {
        None => Err(UrlError::InvalidFormat),
        Some((scheme, host)) => if !is_web_scheme(scheme) {
            Err(UrlError::SchemeNotAllowed)
        } else if host is Some && is_local_host(host->0) {
            Err(UrlError::LocalHost)
        } else {
            Ok(())
        },
    }
}

/// What is said of a text that is no URL.
pub open spec fn message_invalid_format() -> Seq<char> {
    "Invalid URL format"@
}

/// What is said of a scheme that is not allowed.
pub open spec fn message_scheme_not_allowed() -> Seq<char> {
    "Only http/https URLs are allowed"@
}

/// What is said of a local or private host.
pub open spec fn message_local_host() -> Seq<char> {
    "Local/private URLs not allowed"@
}

impl UrlError {
    /// The text that describes this rejection.
    pub open spec fn message_spec(self) -> Seq<char> {
        match self {
            UrlError::InvalidFormat => message_invalid_format(),
            UrlError::SchemeNotAllowed => message_scheme_not_allowed(),
            UrlError::LocalHost => message_local_host(),
        }
    }

    /// The text that describes this rejection.
    pub fn message(&self) -> (m: &'static str)
        ensures
            m@ == self.message_spec(),
    {
        match self {
            UrlError::InvalidFormat => "Invalid URL format",
            UrlError::SchemeNotAllowed => "Only http/https URLs are allowed",
            UrlError::LocalHost => "Local/private URLs not allowed",
        }
    }
}

fn web_scheme(scheme: &str) -> (r: bool)
    ensures
        r == is_web_scheme(scheme@),
{
    proof {
        reveal_strlit("http");
        reveal_strlit("https");
        assert("http"@ =~= scheme_http());
        assert("https"@ =~= scheme_https());
    }
    str_eq(scheme, "http") || str_eq(scheme, "https")
}

fn local_host(host: &str) -> (r: bool)
    ensures
        r == is_local_host(host@),
{
    proof {
        reveal_strlit("localhost");
        reveal_strlit("127.0.0.1");
        reveal_strlit("192.168.");
        reveal_strlit("10.");
        reveal_strlit("172.16.");
        assert("localhost"@ =~= host_localhost());
        assert("127.0.0.1"@ =~= host_loopback());
        assert("192.168."@ =~= prefix_192_168());
        assert("10."@ =~= prefix_10());
        assert("172.16."@ =~= prefix_172_16());
    }
    str_eq(host, "localhost") || str_eq(host, "127.0.0.1") || str_starts_with(host, "192.168.")
        || str_starts_with(host, "10.") || str_starts_with(host, "172.16.")
}

/// Judges a URL from what parsing it gave: `None` where it did not parse.
pub fn judge(parts: Option<&UrlParts>) -> (r: Result<(), UrlError>)
    ensures
        r == verdict(
            match parts {
                Some(p) => Some(p@),
                None => None,
            },
        ),
{
    match parts {
        None => Err(UrlError::InvalidFormat),
        Some(p) => {
            if !web_scheme(p.scheme.as_str()) {
                return Err(UrlError::SchemeNotAllowed);
            }
            match &p.host {
                Some(h) => {
                    if local_host(h.as_str()) {
                        return Err(UrlError::LocalHost);
                    }
                },
                None => {},
            }
            Ok(())
        },
    }
}

/// Parses `url` and judges it.
pub fn check_url(url: &str) -> (r: Result<(), UrlError>)
    ensures
        r == verdict(parsed_parts(url@)),
{
    let parts = parse_parts(url);
    judge(parts.as_ref())
}

/// Parses `url` and judges it, describing a rejection in words.
pub fn validate_url(url: &str) -> (r: Result<(), &'static str>)
    ensures
        match r {
            Ok(_) => verdict(parsed_parts(url@)) is Ok,
            Err(m) => verdict(parsed_parts(url@)) is Err && m@ == verdict(
                parsed_parts(url@),
            )->Err_0.message_spec(),
        },
{
    match check_url(url) {
        Ok(_) => Ok(()),
        Err(e) => Err(e.message()),
    }
}

/// A URL whose scheme is neither `http` nor `https` is never accepted.
pub proof fn lemma_other_schemes_rejected(
    input: Seq<char>,
    scheme: Seq<char>,
    host: Option<Seq<char>>,
)
    requires
        parsed_parts(input) == Some((scheme, host)),
        !is_web_scheme(scheme),
    ensures
        verdict(parsed_parts(input)) == Err::<(), UrlError>(UrlError::SchemeNotAllowed),
{
}

/// A URL whose host is local or private is never accepted, whatever the rest
/// of it holds: the verdict reads nothing but scheme and host.
pub proof fn lemma_local_hosts_rejected(input: Seq<char>, scheme: Seq<char>, host: Seq<char>)
    requires
        parsed_parts(input) == Some((scheme, Some(host))),
        is_local_host(host),
    ensures
        verdict(parsed_parts(input)) is Err,
        is_web_scheme(scheme) ==> verdict(parsed_parts(input)) == Err::<(), UrlError>(
            UrlError::LocalHost,
        ),
{
}

/// A URL that parses, has scheme `http` or `https` and a host that is not
/// local or private is accepted.
pub proof fn lemma_public_web_urls_accepted(
    input: Seq<char>,
    scheme: Seq<char>,
    host: Option<Seq<char>>,
)
    requires
        parsed_parts(input) == Some((scheme, host)),
        is_web_scheme(scheme),
        host matches Some(h) ==> !is_local_host(h),
    ensures
        verdict(parsed_parts(input)) is Ok,
{
}

} // verus!
