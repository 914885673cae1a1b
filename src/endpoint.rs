//! The Elasticsearch endpoint that the upstream service reports: its base URL
//! (scheme, host and any explicit port) and its index prefix (the first path
//! segment).

use vstd::prelude::*;

use crate::error::{Error, ErrorModel};
use crate::text::{decimal, decimal_spec};

verus! {

/// The parts of a URL that the endpoint is made of, as the url crate reads
/// them.
pub struct UrlParts {
    /// The scheme, without its `:`.
    pub scheme: String,
    /// The host, where the URL has one.
    pub host: Option<String>,
    /// The port, where the URL gives one other than its scheme's default.
    pub port: Option<u16>,
    /// The first path segment, where the URL can have a path.
    pub first_segment: Option<String>,
}

/// The model of an optional string.
pub open spec fn opt_view(s: Option<String>) -> Option<Seq<char>> {
    match s {
        Some(x) => Some(x@),
        None => None,
    }
}

impl View for UrlParts {
    type V = (Seq<char>, Option<Seq<char>>, Option<u16>, Option<Seq<char>>);

    open spec fn view(&self) -> (Seq<char>, Option<Seq<char>>, Option<u16>, Option<Seq<char>>) {
        (self.scheme@, opt_view(self.host), self.port, opt_view(self.first_segment))
    }
}

/// What the url crate reads from `s`: scheme, host, port and first path
/// segment; none where `s` is not an absolute URL.
pub uninterp spec fn url_parts_of(s: Seq<char>) -> Option<
    (Seq<char>, Option<Seq<char>>, Option<u16>, Option<Seq<char>>),
>;

/// The url crate's `ParseError`, opaque here: it is only told apart from a
/// parsed URL, never read.
#[verifier::external_type_specification]
#[verifier::external_body]
pub struct ExParseError(url::ParseError);

/// Relies on url::Url::parse, read through Url::scheme, Url::host_str,
/// Url::port and the first item of Url::path_segments: the parts of `s` where
/// it is an absolute URL, else the parser's error.
#[verifier::external_body]
fn parse_url(s: &str) -> (r: Result<UrlParts, url::ParseError>)
    ensures
        match r {
            Ok(p) => url_parts_of(s@) == Some(p@),
            Err(_) => url_parts_of(s@) is None,
        },
{
    match url::Url::parse(s) {
        Ok(u) => Ok(UrlParts {
            scheme: String::from(u.scheme()),
            host: u.host_str().map(String::from),
            port: u.port(),
            first_segment: match u.path_segments() {
                Some(mut segments) => segments.next().map(String::from),
                None => None,
            },
        }),
        Err(e) => Err(e),
    }
}

/// The index prefix that stands where the endpoint names none.
pub open spec fn default_index_prefix() -> Seq<char> {
    "munin"@
}

/// The base URL of a scheme, a host and an optional port:
/// `scheme://host` or `scheme://host:port`.
pub open spec fn base_url_spec(scheme: Seq<char>, host: Seq<char>, port: Option<u16>) -> Seq<char> {
    match port {
        None => scheme + "://"@ + host,
        Some(p) => scheme + "://"@ + host + ":"@ + decimal_spec(p as nat),
    }
}

/// The index prefix of a first path segment: the segment where it is not
/// empty, else the default.
pub open spec fn index_prefix_spec(first: Option<Seq<char>>) -> Seq<char> {
    match first {
        Some(s) => if s.len() > 0 {
            s
        } else {
            default_index_prefix()
        },
        None => default_index_prefix(),
    }
}

/// Base URL and index prefix of the URL parts `p`; none where there is no host.
pub open spec fn endpoint_spec(
    p: (Seq<char>, Option<Seq<char>>, Option<u16>, Option<Seq<char>>),
) -> Option<(Seq<char>, Seq<char>)> {
    match p.1 {
        Some(host) => Some((base_url_spec(p.0, host, p.2), index_prefix_spec(p.3))),
        None => None,
    }
}

/// What deriving the endpoint written `s` gives: base URL and index prefix,
/// or the error that names `s`.
pub open spec fn derive_endpoint_spec(s: Seq<char>) -> Result<(Seq<char>, Seq<char>), ErrorModel> {
    match url_parts_of(s) {
        Some(p) => match endpoint_spec(p) {
            Some(x) => Ok(x),
            None => Err(ErrorModel::ElasticsearchURLNotReadable { url: s, source: "the URL has no host"@ }),
        },
        None => Err(ErrorModel::ElasticsearchURLNotReadable { url: s, source: "not an absolute URL"@ }),
    }
}

/// Builds base URL and index prefix from the parts of a URL; none where the
/// URL has no host.
pub fn endpoint_of(parts: &UrlParts) -> (r: Option<(String, String)>)
    ensures
        match r {
            Some((u, p)) => endpoint_spec(parts@) == Some((u@, p@)),
            None => endpoint_spec(parts@) is None,
        },
{
    let host = match &parts.host {
        Some(h) => h,
        None => return None,
    };
    let mut url = String::from_str(parts.scheme.as_str());
    url.append("://");
    url.append(host.as_str());
    match parts.port {
        Some(port) => {
            url.append(":");
            let digits = decimal(port as u64);
            url.append(digits.as_str());
        },
        None => {},
    }
    let prefix = match &parts.first_segment {
        Some(s) => if s.unicode_len() > 0 {
            s.clone()
        } else {
            String::from_str("munin")
        },
        None => String::from_str("munin"),
    };
    Some((url, prefix))
}

/// Derives the base URL and the index prefix of the Elasticsearch endpoint
/// written `s`. Where `s` is no absolute URL, or one without a host, the error
/// is `ElasticsearchURLNotReadable` for `s`.
pub fn derive_endpoint(s: &str) -> (r: Result<(String, String), Error>)
    ensures
        match r {
            Ok((u, p)) => derive_endpoint_spec(s@) == Ok::<_, ErrorModel>((u@, p@)),
            Err(e) => derive_endpoint_spec(s@) == Err::<(Seq<char>, Seq<char>), _>(e@),
        },
{
    match parse_url(s) {
        Ok(parts) => match endpoint_of(&parts) {
            Some(x) => Ok(x),
            None => Err(
                Error::ElasticsearchURLNotReadable {
                    url: String::from_str(s),
                    source: String::from_str("the URL has no host"),
                },
            ),
        },
        Err(_) => Err(
            Error::ElasticsearchURLNotReadable {
                url: String::from_str(s),
                source: String::from_str("not an absolute URL"),
            },
        ),
    }
}

} // verus!
