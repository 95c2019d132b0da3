//! The HTTP requests that fetch a modem's documents, as plain data: the
//! caller sends them and hands the answers back.

use vstd::prelude::*;
use vstd::string::StringExecFns;
use crate::modem_utils::{DocumentKind, Request, RequestView};

verus! {

/// How long a connection attempt may take, in milliseconds.
pub const HTTP_TIMEOUT_MS: u64 = 3_000;

/// A `GET` request, ready to be sent.
#[derive(Clone, Debug, PartialEq, Eq)]
pub struct HttpRequest {
    pub url: String,
    pub headers: Vec<(String, String)>,
    pub connect_timeout_ms: u64,
}

/// An HTTP request with its texts as sequences of characters.
pub struct HttpRequestView {
    pub url: Seq<char>,
    pub headers: Seq<(Seq<char>, Seq<char>)>,
    pub connect_timeout_ms: u64,
}

/// Header lines as pairs of character sequences.
pub open spec fn header_views(headers: Seq<(String, String)>) -> Seq<(Seq<char>, Seq<char>)> {
    headers.map_values(|h: (String, String)| (h.0@, h.1@))
}

impl View for HttpRequest {
    type V = HttpRequestView;

    open spec fn view(&self) -> HttpRequestView {
        HttpRequestView {
            url: self.url@,
            headers: header_views(self.headers@),
            connect_timeout_ms: self.connect_timeout_ms,
        }
    }
}

/// The text of the URI that the `http` crate builds from the scheme
/// `http`, the authority `host` and the path and query `query`, or `None`
/// where it refuses them.
pub uninterp spec fn http_uri(host: Seq<char>, query: Seq<char>) -> Option<Seq<char>>;

/// `http::Uri::builder()` with scheme `http`, `host` as authority and
/// `query` as path and query, built and written out as text. The
/// contract only names the result.
#[verifier::external_body]
fn build_uri(host: &str, query: &str) -> (r: Option<String>)
    ensures
        match r {
            Some(s) => http_uri(host@, query@) == Some(s@),
            None => http_uri(host@, query@) is None,
        },
{
    match http::Uri::builder().scheme("http").authority(host).path_and_query(query).build() {
        Ok(uri) => Some(uri.to_string()),
        Err(_) => None,
    }
}

/// The header lines that go with a request: none for a JSON document;
/// for an XML document `Accept`, and with a session also `Host`,
/// `X-Requested-With`, `Cookie` and `__RequestVerificationToken`.
pub open spec fn headers_of(host: Seq<char>, request: RequestView) -> Seq<(Seq<char>, Seq<char>)> {
    match request.kind {
        DocumentKind::Json => Seq::empty(),
        DocumentKind::Xml => match request.session_token {
            Some((session_info, token_info)) => seq![
                ("Accept"@, "*/*"@),
                ("Host"@, host),
                ("X-Requested-With"@, "XMLHttpRequest"@),
                ("Cookie"@, session_info),
                ("__RequestVerificationToken"@, token_info),
            ],
            None => seq![("Accept"@, "*/*"@)],
        },
    }
}

/// The HTTP request that `request` stands for on `host`.
pub open spec fn http_request_of(host: Seq<char>, request: RequestView) -> Option<
    HttpRequestView,
> {
    match http_uri(host, request.query) {
        Some(url) => Some(
            HttpRequestView {
                url,
                headers: headers_of(host, request),
                connect_timeout_ms: HTTP_TIMEOUT_MS,
            },
        ),
        None => None,
    }
}

fn header(name: &str, value: &str) -> (r: (String, String))
    ensures
        r.0@ == name@,
        r.1@ == value@,
{
    (String::from_str(name), String::from_str(value))
}

/// Makes the HTTP request for `request` on `host`; none where host and
/// query do not give a URI.
pub fn http_request(host: &str, request: &Request) -> (r: Option<HttpRequest>)
    ensures
        match r {
            Some(q) => http_request_of(host@, request@) == Some(q@),
            None => http_request_of(host@, request@) is None,
        },
{
    let url = build_uri(host, request.query.as_str())?;
    let mut headers: Vec<(String, String)> = Vec::new();
    match request.kind {
        DocumentKind::Json => {
            assert(header_views(headers@) =~= headers_of(host@, request@));
        },
        DocumentKind::Xml => {
            headers.push(header("Accept", "*/*"));
            match &request.session_token {
                Some(pair) => {
                    headers.push(header("Host", host));
                    headers.push(header("X-Requested-With", "XMLHttpRequest"));
                    headers.push(header("Cookie", pair.0.as_str()));
                    headers.push(header("__RequestVerificationToken", pair.1.as_str()));
                    assert(header_views(headers@) =~= headers_of(host@, request@));
                },
                None => {
                    assert(header_views(headers@) =~= headers_of(host@, request@));
                },
            }
        },
    }
    Some(HttpRequest { url, headers, connect_timeout_ms: HTTP_TIMEOUT_MS })
}

} // verus!
