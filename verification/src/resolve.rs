//! From a path to the endpoint it names.

use crate::endpoint::{Endpoint, HostPort, NNScheme, LOCAL_FS_KEY, LOCAL_FS_SCHEME};
use crate::err::{HdfsErr, HdfsErrView};
use vstd::prelude::*;
use vstd::string::StringExecFns;

verus! {

/// `url::ParseError`, why `Url::parse` refused an input. It is carried as it
/// comes and never read: every refusal is an invalid URL here.
#[verifier::external_type_specification]
#[verifier::external_body]
pub struct ExParseError(url::ParseError);

/// What endpoint resolution reads of a parsed URL.
#[derive(Debug, Clone, PartialEq, Eq)]
pub struct ParsedUrl {
    /// The scheme, without the colon.
    pub scheme: String,
    /// The host as the URL writes it, if the URL has one. An empty one counts
    /// as none when the endpoint is resolved.
    pub host: Option<String>,
    /// The port, if the URL gives one that is not its scheme's default.
    pub port: Option<u16>,
}

/// A parsed URL as a mathematical value.
pub struct UrlParts {
    pub scheme: Seq<char>,
    pub host: Option<Seq<char>>,
    pub port: Option<u16>,
}

impl View for ParsedUrl {
    type V = UrlParts;

    open spec fn view(&self) -> UrlParts {
        UrlParts {
            scheme: self.scheme@,
            host: match self.host {
                Some(h) => Some(h@),
                None => None,
            },
            port: self.port,
        }
    }
}

/// The parts of `input` read as an absolute URL, or `None` where it is none.
pub uninterp spec fn url_parts(input: Seq<char>) -> Option<UrlParts>;

/// `url::Url::parse`, with `Url::scheme`, `Url::host` and `Url::port` read off
/// the URL it returns, the host written as `url::Host` displays it. Trusted:
/// that the outcome is a function of the input alone, which `url_parts`
/// names. Nothing is claimed of what the parts are.
#[verifier::external_body]
fn parse_url(input: &str) -> (parsed: Result<ParsedUrl, url::ParseError>)
    ensures
        match parsed {
            Ok(p) => url_parts(input@) == Some(p@),
            Err(_) => url_parts(input@) is None,
        },
{
    match url::Url::parse(input) {
        Ok(u) => Ok(
            ParsedUrl {
                scheme: u.scheme().to_string(),
                host: match u.host() {
                    Some(h) => Some(h.to_string()),
                    None => None,
                },
                port: u.port(),
            },
        ),
        Err(e) => Err(e),
    }
}

/// The parts name a host: one is there, and it is not the empty string.
pub open spec fn has_host(parts: UrlParts) -> bool {
    parts.host matches Some(host) && host.len() > 0
}

/// The endpoint that a path with these URL parts names: the local filesystem
/// for the scheme `file`, whatever else the URL holds; else the remote name
/// node at `scheme://host` and the port, where the URL has a host that is not
/// empty and a port; else none.
pub open spec fn endpoint_of(parts: UrlParts) -> Option<Endpoint> {
    if parts.scheme == LOCAL_FS_SCHEME@ {
        Some(Endpoint::Local)
    } else if has_host(parts) && parts.port is Some {
        Some(
            Endpoint::Remote {
                host: parts.scheme + "://"@ + parts.host->0,
                port: parts.port->0,
            },
        )
    } else {
        None
    }
}

/// Resolution of `path`, given what parsing it gave.
pub open spec fn classify_spec(path: Seq<char>, parts: Option<UrlParts>) -> Result<
    Endpoint,
    HdfsErrView,
> {
    match parts {
        Some(p) => match endpoint_of(p) {
            Some(e) => Ok(e),
            None => Err(HdfsErrView::InvalidUrl(path)),
        },
        None => Err(HdfsErrView::InvalidUrl(path)),
    }
}

/// The endpoint that `path` resolves to, or the error that it is refused with.
pub open spec fn resolve_spec(path: Seq<char>) -> Result<Endpoint, HdfsErrView> {
    classify_spec(path, url_parts(path))
}

/// A resolution as a mathematical value.
pub open spec fn resolution_view(r: Result<NNScheme, HdfsErr>) -> Result<Endpoint, HdfsErrView> {
    match r {
        Ok(e) => Ok(e@),
        Err(e) => Err(e@),
    }
}

/// What parsing gave, as a mathematical value.
pub open spec fn parsed_view(parsed: Option<ParsedUrl>) -> Option<UrlParts> {
    match parsed {
        Some(p) => Some(p@),
        None => None,
    }
}

/// Resolves `path` from what parsing it gave: `None` where it did not parse.
pub fn classify(path: &str, parsed: Option<ParsedUrl>) -> (r: Result<NNScheme, HdfsErr>)
    ensures
        resolution_view(r) == classify_spec(path@, parsed_view(parsed)),
{
    match parsed {
        Some(url) => {
            if url.scheme == String::from_str(LOCAL_FS_SCHEME) {
                Ok(NNScheme::Local)
            } else {
                match (url.host, url.port) {
                    (Some(host), Some(port)) => {
                        if host.as_str().is_empty() {
                            Err(HdfsErr::InvalidUrl(String::from_str(path)))
                        } else {
                            let mut name = url.scheme;
                            name.append("://");
                            name.append(host.as_str());
                            Ok(NNScheme::Remote(HostPort { host: name, port }))
                        }
                    },
                    _ => Err(HdfsErr::InvalidUrl(String::from_str(path))),
                }
            }
        },
        None => Err(HdfsErr::InvalidUrl(String::from_str(path))),
    }
}

/// Resolves `path` to its endpoint.
pub fn resolve(path: &str) -> (r: Result<NNScheme, HdfsErr>)
    ensures
        resolution_view(r) == resolve_spec(path@),
{
    match parse_url(path) {
        Ok(url) => classify(path, Some(url)),
        Err(_) => classify(path, None),
    }
}

/// Every path whose URL has the scheme `file` resolves to the local
/// filesystem, whatever host, port or path the URL holds.
pub proof fn lemma_file_scheme_is_local(path: Seq<char>)
    requires
        url_parts(path) matches Some(parts) && parts.scheme == LOCAL_FS_SCHEME@,
    ensures
        resolve_spec(path) == Ok::<Endpoint, HdfsErrView>(Endpoint::Local),
{
}

/// Any two paths with the scheme `file` have the same cache key, the key of
/// the local filesystem.
pub proof fn lemma_file_paths_share_key(first: Seq<char>, second: Seq<char>)
    requires
        url_parts(first) matches Some(parts) && parts.scheme == LOCAL_FS_SCHEME@,
        url_parts(second) matches Some(parts) && parts.scheme == LOCAL_FS_SCHEME@,
    ensures
        resolve_spec(first) is Ok,
        resolve_spec(second) is Ok,
        resolve_spec(first)->Ok_0.key() == LOCAL_FS_KEY@,
        resolve_spec(second)->Ok_0.key() == resolve_spec(first)->Ok_0.key(),
{
}

/// A path that is no URL is refused as an invalid URL, with the path itself
/// in the error.
pub proof fn lemma_unparsable_is_invalid(path: Seq<char>)
    requires
        url_parts(path) is None,
    ensures
        resolve_spec(path) == Err::<Endpoint, HdfsErrView>(HdfsErrView::InvalidUrl(path)),
{
}

/// A URL of another scheme than `file` that lacks a host or a port, or whose
/// host is empty, is refused as an invalid URL: neither is ever filled in.
pub proof fn lemma_remote_needs_host_and_port(path: Seq<char>)
    requires
        url_parts(path) matches Some(parts) && parts.scheme != LOCAL_FS_SCHEME@ && (!has_host(
            parts,
        ) || parts.port is None),
    ensures
        resolve_spec(path) == Err::<Endpoint, HdfsErrView>(HdfsErrView::InvalidUrl(path)),
{
}

/// Resolution gives a remote endpoint only for a URL of another scheme than
/// `file` that has both a host that is not empty and a port, and then with
/// that port and with the scheme kept in front of the host.
pub proof fn lemma_remote_has_host_and_port(path: Seq<char>)
    requires
        resolve_spec(path) matches Ok(endpoint) && endpoint is Remote,
    ensures
        url_parts(path) matches Some(parts) && parts.scheme != LOCAL_FS_SCHEME@ && parts.host
            is Some && parts.host->0.len() > 0 && parts.port is Some && resolve_spec(path) == Ok::<
            Endpoint,
            HdfsErrView,
        >(
            Endpoint::Remote {
                host: parts.scheme + "://"@ + parts.host->0,
                port: parts.port->0,
            },
        ),
{
}

/// A path resolves to exactly one of three things, by what parsing it gave:
/// the local filesystem where the scheme is `file`; the remote endpoint where
/// the scheme is another and a host that is not empty and a port are there;
/// an invalid URL, naming the path, in every other case.
pub proof fn lemma_resolution_cases(path: Seq<char>)
    ensures
        resolve_spec(path) == Ok::<Endpoint, HdfsErrView>(Endpoint::Local) <==> (url_parts(path)
            matches Some(parts) && parts.scheme == LOCAL_FS_SCHEME@),
        resolve_spec(path) matches Ok(endpoint) && endpoint is Remote <==> (url_parts(path)
            matches Some(parts) && parts.scheme != LOCAL_FS_SCHEME@ && has_host(parts)
            && parts.port is Some),
        resolve_spec(path) is Err <==> !(url_parts(path) matches Some(parts) && (parts.scheme
            == LOCAL_FS_SCHEME@ || (has_host(parts) && parts.port is Some))),
        resolve_spec(path) is Err ==> resolve_spec(path) == Err::<Endpoint, HdfsErrView>(
            HdfsErrView::InvalidUrl(path),
        ),
{
}

} // verus!
