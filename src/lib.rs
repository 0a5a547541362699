use vstd::prelude::*;
use vstd::string::StringSliceAdditionalSpecFns;
use vstd::utf8::encode_utf8;

pub mod client;
pub mod response;

use crate::response::ResponseError;

verus! {

#[verifier::external_type_specification]
#[verifier::external_body]
pub struct ExUrl(url::Url);

/// The port that Gemini servers listen on.
pub const GEMINI_PORT: u16 = 1965;

/// The host of a parsed URL, if it has one.
pub uninterp spec fn host_of(u: url::Url) -> Option<Seq<char>>;

/// The text of a parsed URL.
pub uninterp spec fn url_text_of(u: url::Url) -> Seq<char>;

/// Relies on url::Url::host_str: the host of the URL, if it has one; it
/// reads the URL alone.
#[verifier::external_body]
fn url_host(url: &url::Url) -> (r: Option<String>)
    ensures
        r is None <==> host_of(*url) is None,
        r matches Some(h) ==> host_of(*url) == Some(h@),
{
    url.host_str().map(|h| h.to_string())
}

/// Relies on url::Url::as_str: the serialization of the URL, which it
/// stores.
#[verifier::external_body]
fn url_text(url: &url::Url) -> (r: String)
    ensures
        r@ == url_text_of(*url),
{
    url.as_str().to_string()
}

#[derive(Debug, Clone, Copy, PartialEq, Eq, Structural)]
pub enum AgentError {
    UrlError,
}

/// Why a fetch failed.
#[derive(Debug)]
pub enum RequestError {
    DecodeError(ResponseError),
    IoError(std::io::Error),
    TlsError(rustls::Error),
}

#[derive(Debug)]
pub struct Agent;

impl From<ResponseError> for RequestError {
    fn from(e: ResponseError) -> (r: RequestError)
        ensures
            r == RequestError::DecodeError(e),
    {
        RequestError::DecodeError(e)
    }
}

impl vstd::std_specs::convert::FromSpecImpl<ResponseError> for RequestError {
    open spec fn obeys_from_spec() -> bool {
        true
    }

    open spec fn from_spec(e: ResponseError) -> RequestError {
        RequestError::DecodeError(e)
    }
}

impl From<std::io::Error> for RequestError {
    fn from(e: std::io::Error) -> (r: RequestError)
        ensures
            r == RequestError::IoError(e),
    {
        RequestError::IoError(e)
    }
}

impl vstd::std_specs::convert::FromSpecImpl<std::io::Error> for RequestError {
    open spec fn obeys_from_spec() -> bool {
        true
    }

    open spec fn from_spec(e: std::io::Error) -> RequestError {
        RequestError::IoError(e)
    }
}

impl From<rustls::Error> for RequestError {
    fn from(e: rustls::Error) -> (r: RequestError)
        ensures
            r == RequestError::TlsError(e),
    {
        RequestError::TlsError(e)
    }
}

impl vstd::std_specs::convert::FromSpecImpl<rustls::Error> for RequestError {
    open spec fn obeys_from_spec() -> bool {
        true
    }

    open spec fn from_spec(e: rustls::Error) -> RequestError {
        RequestError::TlsError(e)
    }
}

/// A fetch of one URL from its host, on the Gemini port.
#[derive(Debug)]
pub struct Request {
    host: String,
    url: url::Url,
    port: u16,
}

/// The request line for a URL: its text followed by CR LF.
pub open spec fn request_line_spec(url: Seq<u8>) -> Seq<u8> {
    url + seq![13u8, 10u8]
}

/// Frames the one request that a fetch sends: the URL's UTF-8 text and CR LF.
pub fn frame_request(url: &str) -> (r: Vec<u8>)
    ensures
        r@ == request_line_spec(url.spec_bytes()),
{
    let bytes = url.as_bytes();
    let mut out: Vec<u8> = Vec::new();
    let mut i: usize = 0;
    while i < bytes.len()
        invariant
            i <= bytes@.len(),
            bytes@ == url.spec_bytes(),
            out@ == bytes@.take(i as int),
        decreases bytes@.len() - i,
    {
        out.push(bytes[i]);
        i = i + 1;
        assert(out@ =~= bytes@.take(i as int));
    }
    out.push(13u8);
    out.push(10u8);
    assert(out@ =~= request_line_spec(url.spec_bytes()));
    out
}

impl Agent {
    /// Prepares a fetch of `url`; a URL without a host is refused.
    pub fn get(url: url::Url) -> (r: Result<Request, AgentError>)
        ensures
            r is Ok <==> host_of(url) is Some,
            r is Err ==> r == Err::<Request, AgentError>(AgentError::UrlError),
            r matches Ok(req) ==> host_of(url) == Some(req.host()@) && req.port() == GEMINI_PORT
                && req.url() == url,
    {
        let host = url_host(&url);
        Request::from_parts(url, host)
    }
}

impl Request {
    /// A fetch of `url` from `host`: present exactly when there is a host.
    pub fn from_parts(url: url::Url, host: Option<String>) -> (r: Result<Request, AgentError>)
        ensures
            host is None <==> r is Err,
            r is Err ==> r == Err::<Request, AgentError>(AgentError::UrlError),
            r matches Ok(req) ==> host matches Some(h) && req.host()@ == h@ && req.url() == url
                && req.port() == GEMINI_PORT,
    {
        match host {
            Some(h) => Ok(Request { host: h, url, port: GEMINI_PORT }),
            None => Err(AgentError::UrlError),
        }
    }

    pub closed spec fn host(&self) -> String {
        self.host
    }

    pub closed spec fn url(&self) -> url::Url {
        self.url
    }

    pub closed spec fn port(&self) -> u16 {
        self.port
    }

    /// The host to connect to and to name in the TLS handshake.
    pub fn host_name(&self) -> (r: &str)
        ensures
            r@ == self.host()@,
    {
        self.host.as_str()
    }

    pub fn port_number(&self) -> (r: u16)
        ensures
            r == self.port(),
    {
        self.port
    }

    /// The line this fetch sends: the URL's text and CR LF.
    pub fn request_line(&self) -> (r: Vec<u8>)
        ensures
            r@ == request_line_spec(encode_utf8(url_text_of(self.url()))),
    {
        let text = url_text(&self.url);
        frame_request(text.as_str())
    }
}

} // verus!
