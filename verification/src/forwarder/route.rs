//! Where a request goes: the local HTTP service, or a WebSocket to it when
//! the request asks for an upgrade.

use crate::forwarder::error::{ErrorKind, ProtocolError};
use crate::forwarder::headers::{
    ascii_lower, header_entries, header_values, is_lower_header_name, is_token, remove_header,
    without_name, Header,
};
use crate::forwarder::http_msg::{check_method, HttpRequest, HttpRequestView};
use crate::text::{decimal, u16_to_string};
use vstd::prelude::*;
use vstd::string::StringExecFns;
use vstd::utf8::encode_utf8;

verus! {

/// Whether the `url` crate takes the text for a URL.
pub uninterp spec fn is_url(text: Seq<char>) -> bool;

/// Whether the `http` crate takes the text for a URI.
pub uninterp spec fn is_uri(text: Seq<char>) -> bool;

/// `url::Url::parse`: whether the text is a URL.
#[verifier::external_body]
pub(crate) fn check_url(text: &str) -> (r: Result<(), url::ParseError>)
    ensures
        r is Ok <==> is_url(text@),
{
    url::Url::parse(text).map(|_| ())
}

/// `http::Uri::from_str`: whether the text is a URI.
#[verifier::external_body]
pub(crate) fn check_uri(text: &str) -> (r: Result<(), http::uri::InvalidUri>)
    ensures
        r is Ok <==> is_uri(text@),
{
    text.parse::<http::Uri>().map(|_| ())
}

/// The address of a service on the device: the scheme, `://localhost:`, the
/// port in decimal, `/`, the path, `?`, the query.
pub open spec fn local_address(
    scheme: Seq<char>,
    port: u16,
    path: Seq<char>,
    query: Seq<char>,
) -> Seq<char> {
    scheme + "://localhost:"@ + decimal(port as nat) + "/"@ + path + "?"@ + query
}

/// The header `upgrade: websocket`, by which a request asks for a WebSocket.
pub open spec fn upgrade_header() -> Header {
    ("upgrade"@, encode_utf8("websocket"@))
}

/// A request as the HTTP client sends it.
#[derive(Debug, PartialEq, Eq)]
pub struct ClientRequest {
    pub url: String,
    pub method: String,
    pub headers: http::HeaderMap,
    pub body: Vec<u8>,
}

/// The handshake request that opens a WebSocket.
#[derive(Debug, PartialEq, Eq)]
pub struct UpgradeRequest {
    pub uri: String,
    pub method: String,
    pub headers: http::HeaderMap,
}

/// Whether two byte strings are the same.
fn same_bytes(a: &[u8], b: &[u8]) -> (r: bool)
    ensures
        r == (a@ == b@),
{
    if a.len() != b.len() {
        return false;
    }
    let mut i: usize = 0;
    while i < a.len()
        invariant
            i <= a.len(),
            a.len() == b.len(),
            forall|k: int| 0 <= k < i ==> a@[k] == b@[k],
        decreases a.len() - i,
    {
        if a[i] != b[i] {
            return false;
        }
        i += 1;
    }
    proof {
        assert(a@ =~= b@);
    }
    true
}

/// The address of the request at the local service.
fn address(scheme: &str, port: u16, path: &str, query: &str) -> (r: String)
    ensures
        r@ == local_address(scheme@, port, path@, query@),
{
    let port = u16_to_string(port);
    String::from_str(scheme).concat("://localhost:").concat(port.as_str()).concat("/").concat(
        path,
    ).concat("?").concat(query)
}

/// The two headers that matter for an upgrade are named as the header map
/// keeps names.
proof fn lemma_header_names()
    ensures
        is_lower_header_name("upgrade"@),
        is_lower_header_name("sec-websocket-extensions"@),
{
    reveal_strlit("upgrade");
    reveal_strlit("sec-websocket-extensions");
    assert(ascii_lower("upgrade"@) =~= "upgrade"@);
    assert(ascii_lower("sec-websocket-extensions"@) =~= "sec-websocket-extensions"@);
}

impl HttpRequest {
    /// Check if the HTTP request asks for an upgrade to a WebSocket.
    pub fn is_upgrade(&self) -> (r: bool)
        ensures
            r == self@.headers.contains(upgrade_header()),
    {
        proof {
            lemma_header_names();
        }
        let values = header_values(&self.headers, "upgrade");
        let wanted = "websocket".as_bytes();
        let ghost views = values@.map_values(|v: Vec<u8>| v@);
        let mut i: usize = 0;
        while i < values.len()
            invariant
                i <= values.len(),
                views == values@.map_values(|v: Vec<u8>| v@),
                wanted@ == encode_utf8("websocket"@),
                forall|value: Seq<u8>|
                    views.contains(value) <==> header_entries(self.headers).contains(
                        ("upgrade"@, value),
                    ),
                forall|k: int| 0 <= k < i ==> views[k] != wanted@,
            decreases values.len() - i,
        {
            if same_bytes(values[i].as_slice(), wanted) {
                proof {
                    assert(views[i as int] == wanted@);
                    assert(views.contains(wanted@));
                }
                return true;
            }
            i += 1;
        }
        proof {
            assert(!views.contains(wanted@));
        }
        false
    }

    /// Remove the WebSocket extensions, which the WebSocket client does
    /// not support.
    pub fn remove_unsupported_ws_ext(&mut self)
        ensures
            final(self)@ == (HttpRequestView {
                headers: without_name(old(self)@.headers, "sec-websocket-extensions"@),
                ..old(self)@
            }),
    {
        proof {
            lemma_header_names();
        }
        let _ = remove_header(&mut self.headers, "sec-websocket-extensions");
    }

    /// The request for the HTTP client: the address is
    /// `http://localhost:<port>/<path>?<query>`.
    pub fn request_builder(self) -> (r: Result<ClientRequest, ProtocolError>)
        ensures
            ({
                let url = local_address("http"@, self.port, self.path@, self.query_string@);
                if !is_url(url) {
                    r is Err && r->Err_0.kind() == ErrorKind::ParseUrl
                } else if !is_token(self.method@) {
                    r is Err && r->Err_0.kind() == ErrorKind::InvalidHttpMethod
                } else {
                    &&& r is Ok
                    &&& r->Ok_0.url@ == url
                    &&& r->Ok_0.method@ == self.method@
                    &&& r->Ok_0.headers == self.headers
                    &&& r->Ok_0.body@ == self.body@
                }
            }),
    {
        let url = address("http", self.port, self.path.as_str(), self.query_string.as_str());
        match check_url(url.as_str()) {
            Ok(()) => {},
            Err(e) => {
                return Err(ProtocolError::ParseUrl(e));
            },
        }
        match check_method(self.method.as_str()) {
            Ok(()) => {},
            Err(e) => {
                return Err(ProtocolError::InvalidHttpMethod(e));
            },
        }
        Ok(ClientRequest { url, method: self.method, headers: self.headers, body: self.body })
    }

    /// The handshake that opens a WebSocket to the local service: the address
    /// is `ws://localhost:<port>/<path>?<query>`, and the request's headers go
    /// over but for the WebSocket extensions. The body is left behind.
    pub fn upgrade(self) -> (r: Result<UpgradeRequest, ProtocolError>)
        ensures
            ({
                let uri = local_address("ws"@, self.port, self.path@, self.query_string@);
                if !is_uri(uri) {
                    r is Err && r->Err_0.kind() == ErrorKind::InvalidUri
                } else if !is_token(self.method@) {
                    r is Err && r->Err_0.kind() == ErrorKind::InvalidHttpMethod
                } else {
                    &&& r is Ok
                    &&& r->Ok_0.uri@ == uri
                    &&& r->Ok_0.method@ == self.method@
                    &&& header_entries(r->Ok_0.headers) == without_name(
                        self@.headers,
                        "sec-websocket-extensions"@,
                    )
                }
            }),
    {
        let mut request = self;
        let uri = address(
            "ws",
            request.port,
            request.path.as_str(),
            request.query_string.as_str(),
        );
        match check_uri(uri.as_str()) {
            Ok(()) => {},
            Err(e) => {
                return Err(ProtocolError::InvalidUri(e));
            },
        }
        match check_method(request.method.as_str()) {
            Ok(()) => {},
            Err(e) => {
                return Err(ProtocolError::InvalidHttpMethod(e));
            },
        }
        request.remove_unsupported_ws_ext();
        Ok(UpgradeRequest { uri, method: request.method, headers: request.headers })
    }
}

} // verus!
