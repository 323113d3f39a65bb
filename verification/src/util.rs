//! The public endpoint of a session: a URL with a host and nothing behind it.

use vstd::prelude::*;
use vstd::string::StringExecFns;
use crate::address::Address;

verus! {

/// `url::Url`, a parsed URL: an opaque value.
#[verifier::external_type_specification]
#[verifier::external_body]
pub struct ExUrl(url::Url);

/// `url::ParseError`, the reason why a text is no URL: an opaque value.
#[verifier::external_type_specification]
#[verifier::external_body]
pub struct ExParseError(url::ParseError);

/// Whether `url::Url::parse` accepts `text`.
pub uninterp spec fn url_parses(text: Seq<char>) -> bool;

/// The path segments of the URL that `text` parses to, as
/// `url::Url::path_segments` hands them out; `None` for a URL that cannot be
/// a base.
pub uninterp spec fn url_path_segments(text: Seq<char>) -> Option<Seq<Seq<char>>>;

/// The query of the URL that `text` parses to, as `url::Url::query` returns it.
pub uninterp spec fn url_query(text: Seq<char>) -> Option<Seq<char>>;

/// The fragment of the URL that `text` parses to, as `url::Url::fragment`
/// returns it.
pub uninterp spec fn url_fragment(text: Seq<char>) -> Option<Seq<char>>;

/// The scheme of the URL that `text` parses to, as `url::Url::scheme` returns
/// it.
pub uninterp spec fn url_scheme(text: Seq<char>) -> Seq<char>;

/// A parsed URL together with the text it was parsed from. A value is made
/// in one place only, from the result of parsing that very text, so the two
/// always belong together: what is read off the URL is a function of the
/// text.
pub struct ServerUrl {
    text: String,
    url: url::Url,
}

impl View for ServerUrl {
    type V = Seq<char>;

    /// The text that the URL was parsed from.
    closed spec fn view(&self) -> Seq<char> {
        self.text@
    }
}

/// Why a text is refused as a public endpoint.
#[derive(Clone, Copy, Debug, PartialEq, Eq, Structural)]
pub enum UrlError {
    /// The text is no URL.
    Malformed,
    /// The URL has more than one path segment.
    HasPath,
    /// The URL has a query string.
    HasQuery,
    /// The URL has a fragment.
    HasFragment,
    /// The URL's host and port gave no socket address.
    Unresolved,
}

/// `url::Url::parse`: parses `text`, or says why it is no URL. The parsed URL
/// is kept with a copy of `text`.
#[verifier::external_body]
fn url_parse(text: &str) -> (r: Result<ServerUrl, url::ParseError>)
    ensures
        r is Ok <==> url_parses(text@),
        r matches Ok(parsed) ==> parsed.text@ == text@,
{
    match url::Url::parse(text) {
        Ok(url) => Ok(ServerUrl { text: text.to_string(), url }),
        Err(error) => Err(error),
    }
}

/// `url::Url::path_segments`: the path of the parsed URL split at its
/// slashes, each segment copied out; none for a URL that cannot be a base.
#[verifier::external_body]
fn url_path_segment_list(parsed: &ServerUrl) -> (r: Option<Vec<String>>)
    ensures
        match r {
            Some(list) => url_path_segments(parsed.text@) == Some(
                list@.map_values(|segment: String| segment@),
            ),
            None => url_path_segments(parsed.text@) is None,
        },
{
    parsed.url.path_segments().map(|parts| parts.map(|segment| segment.to_string()).collect())
}

/// `url::Url::query`: the query string, copied out.
#[verifier::external_body]
fn url_query_text(parsed: &ServerUrl) -> (r: Option<String>)
    ensures
        match r {
            Some(query) => url_query(parsed.text@) == Some(query@),
            None => url_query(parsed.text@) is None,
        },
{
    parsed.url.query().map(|query| query.to_string())
}

/// `url::Url::fragment`: the fragment, copied out.
#[verifier::external_body]
fn url_fragment_text(parsed: &ServerUrl) -> (r: Option<String>)
    ensures
        match r {
            Some(fragment) => url_fragment(parsed.text@) == Some(fragment@),
            None => url_fragment(parsed.text@) is None,
        },
{
    parsed.url.fragment().map(|fragment| fragment.to_string())
}

/// `url::Url::scheme`: the scheme, copied out.
#[verifier::external_body]
fn url_scheme_text(parsed: &ServerUrl) -> (r: String)
    ensures
        r@ == url_scheme(parsed.text@),
{
    parsed.url.scheme().to_string()
}

/// What is wrong with a public endpoint that has `path_segments` path
/// segments (`None` if it has no segmented path), and a query or a fragment
/// as said: nothing, if it has at most one segment and neither of the two.
pub open spec fn endpoint_fault(
    path_segments: Option<nat>,
    has_query: bool,
    has_fragment: bool,
) -> Option<UrlError> {
    if path_segments is Some && path_segments->0 > 1 {
        Some(UrlError::HasPath)
    } else if has_query {
        Some(UrlError::HasQuery)
    } else if has_fragment {
        Some(UrlError::HasFragment)
    } else {
        None
    }
}

/// What is wrong with `text` as a public endpoint, if anything.
pub open spec fn server_url_fault(text: Seq<char>) -> Option<UrlError> {
    if !url_parses(text) {
        Some(UrlError::Malformed)
    } else {
        endpoint_fault(
            match url_path_segments(text) {
                Some(segments) => Some(segments.len()),
                None => None,
            },
            url_query(text) is Some,
            url_fragment(text) is Some,
        )
    }
}

/// Checks the parts of a parsed URL: a public endpoint has at most one path
/// segment, no query and no fragment.
pub fn check_endpoint(path_segments: Option<usize>, has_query: bool, has_fragment: bool) -> (r:
    Result<(), UrlError>)
    ensures
        match r {
            Ok(_) => endpoint_fault(
                match path_segments {
                    Some(n) => Some(n as nat),
                    None => None,
                },
                has_query,
                has_fragment,
            ) is None,
            Err(fault) => endpoint_fault(
                match path_segments {
                    Some(n) => Some(n as nat),
                    None => None,
                },
                has_query,
                has_fragment,
            ) == Some(fault),
        },
{
    match path_segments {
        Some(count) => {
            if count > 1 {
                return Err(UrlError::HasPath);
            }
        },
        None => {},
    }
    if has_query {
        Err(UrlError::HasQuery)
    } else if has_fragment {
        Err(UrlError::HasFragment)
    } else {
        Ok(())
    }
}

/// Parses the public endpoint of a session and checks that it is a bare
/// server URL.
pub fn parse_server_url(server_url_str: &str) -> (r: Result<ServerUrl, UrlError>)
    ensures
        match r {
            Ok(parsed) => parsed@ == server_url_str@ && server_url_fault(server_url_str@) is None,
            Err(fault) => server_url_fault(server_url_str@) == Some(fault),
        },
{
    match url_parse(server_url_str) {
        Ok(parsed) => {
            let path_segments = match url_path_segment_list(&parsed) {
                Some(list) => Some(list.len()),
                None => None,
            };
            let has_query = url_query_text(&parsed).is_some();
            let has_fragment = url_fragment_text(&parsed).is_some();
            match check_endpoint(path_segments, has_query, has_fragment) {
                Ok(_) => Ok(parsed),
                Err(fault) => Err(fault),
            }
        },
        Err(_) => Err(UrlError::Malformed),
    }
}

/// The port of a scheme that names none in its URL: 80 for `http`, 443 for
/// `https`, and none for any other.
pub open spec fn scheme_port(scheme: Seq<char>) -> Option<u16> {
    if scheme == "http"@ {
        Some(80u16)
    } else if scheme == "https"@ {
        Some(443u16)
    } else {
        None
    }
}

/// The port that a URL of `scheme` falls back to.
pub fn default_port(scheme: &str) -> (r: Option<u16>)
    ensures
        r == scheme_port(scheme@),
{
    let given = String::from_str(scheme);
    if given == String::from_str("http") {
        Some(80)
    } else if given == String::from_str("https") {
        Some(443)
    } else {
        None
    }
}

impl ServerUrl {
    /// The text that the URL was parsed from.
    pub fn as_str(&self) -> (r: &str)
        ensures
            r@ == self@,
    {
        self.text.as_str()
    }

    /// The port that this URL falls back to when it names none.
    pub fn default_port(&self) -> (r: Option<u16>)
        ensures
            r == scheme_port(url_scheme(self@)),
    {
        let scheme = url_scheme_text(self);
        default_port(scheme.as_str())
    }
}

/// Picks the socket address of a public endpoint. `resolved` is what
/// resolving the URL's host and port gave, `None` if that failed: the first
/// address counts.
pub fn url_to_socket_addr(resolved: Option<Vec<Address>>) -> (r: Result<Address, UrlError>)
    ensures
        match r {
            Ok(address) => resolved is Some && resolved->0@.len() > 0 && address@
                == resolved->0@[0]@,
            Err(fault) => fault == UrlError::Unresolved && (resolved is None
                || resolved->0@.len() == 0),
        },
{
    match resolved {
        Some(list) => {
            if list.len() == 0 {
                Err(UrlError::Unresolved)
            } else {
                Ok(list[0].clone())
            }
        },
        None => Err(UrlError::Unresolved),
    }
}

} // verus!
