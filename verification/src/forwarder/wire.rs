//! The messages as the Protobuf schema of the forwarder lays them out: every
//! field as it travels, nothing checked yet.

use edgehog_device_forwarder_proto as proto;
use edgehog_device_forwarder_proto::prost::{DecodeError, EncodeError};
use edgehog_device_forwarder_proto::{Http as HttpPart, WebSocket as WebSocketPart};
use vstd::prelude::*;

verus! {

/// `edgehog_device_forwarder_proto::Message`: the envelope, as the Protobuf
/// library reads and writes it.
#[verifier::external_type_specification]
#[verifier::external_body]
pub struct ExMessage(proto::Message);

/// `edgehog_device_forwarder_proto::Http`: the HTTP part of an envelope.
#[verifier::external_type_specification]
#[verifier::external_body]
pub struct ExHttpPart(HttpPart);

/// `edgehog_device_forwarder_proto::WebSocket`: the WebSocket part of an
/// envelope.
#[verifier::external_type_specification]
#[verifier::external_body]
pub struct ExWebSocketPart(WebSocketPart);

/// `edgehog_device_forwarder_proto::http::Request`: a request of the HTTP
/// part.
#[verifier::external_type_specification]
#[verifier::external_body]
pub struct ExRequest(proto::http::Request);

/// `edgehog_device_forwarder_proto::http::Response`: a response of the HTTP
/// part.
#[verifier::external_type_specification]
#[verifier::external_body]
pub struct ExResponse(proto::http::Response);

/// The headers of a wire message, by their texts.
pub open spec fn text_pairs(pairs: Seq<(String, String)>) -> Seq<(Seq<char>, Seq<char>)> {
    pairs.map_values(|p: (String, String)| (p.0@, p.1@))
}

/// Close frame of a WebSocket, as on the wire.
#[derive(Debug, Clone, PartialEq, Eq)]
pub struct ProtobufWsClose {
    pub code: u32,
    pub reason: String,
}

/// Frame of a WebSocket, as on the wire.
#[derive(Debug, Clone, PartialEq, Eq)]
pub enum ProtobufWsMessage {
    Text(String),
    Binary(Vec<u8>),
    Ping(Vec<u8>),
    Pong(Vec<u8>),
    Close(ProtobufWsClose),
}

/// What a [`ProtobufWsMessage`] holds.
pub enum WireWsMessage {
    Text(Seq<char>),
    Binary(Seq<u8>),
    Ping(Seq<u8>),
    Pong(Seq<u8>),
    Close { code: u32, reason: Seq<char> },
}

impl View for ProtobufWsMessage {
    type V = WireWsMessage;

    open spec fn view(&self) -> WireWsMessage {
        match *self {
            ProtobufWsMessage::Text(data) => WireWsMessage::Text(data@),
            ProtobufWsMessage::Binary(data) => WireWsMessage::Binary(data@),
            ProtobufWsMessage::Ping(data) => WireWsMessage::Ping(data@),
            ProtobufWsMessage::Pong(data) => WireWsMessage::Pong(data@),
            ProtobufWsMessage::Close(close) => WireWsMessage::Close {
                code: close.code,
                reason: close.reason@,
            },
        }
    }
}

/// WebSocket message, as on the wire.
#[derive(Debug, Clone, PartialEq, Eq)]
pub struct ProtobufWebSocket {
    pub socket_id: Vec<u8>,
    pub message: Option<ProtobufWsMessage>,
}

/// What a [`ProtobufWebSocket`] holds.
pub struct WireWebSocket {
    pub socket_id: Seq<u8>,
    pub message: Option<WireWsMessage>,
}

impl View for ProtobufWebSocket {
    type V = WireWebSocket;

    open spec fn view(&self) -> WireWebSocket {
        WireWebSocket {
            socket_id: self.socket_id@,
            message: match self.message {
                Some(message) => Some(message@),
                None => None,
            },
        }
    }
}

/// HTTP request, as on the wire. The headers are a map on the wire: here one
/// pair for each name, in a vector, because of a hash map with strings for
/// keys nothing can be proved.
#[derive(Debug, Clone, PartialEq, Eq)]
pub struct ProtobufHttpRequest {
    pub path: String,
    pub method: String,
    pub query_string: String,
    pub headers: Vec<(String, String)>,
    pub body: Vec<u8>,
    pub port: u32,
}

/// What a [`ProtobufHttpRequest`] holds.
pub struct WireHttpRequest {
    pub path: Seq<char>,
    pub method: Seq<char>,
    pub query_string: Seq<char>,
    pub headers: Seq<(Seq<char>, Seq<char>)>,
    pub body: Seq<u8>,
    pub port: u32,
}

impl View for ProtobufHttpRequest {
    type V = WireHttpRequest;

    open spec fn view(&self) -> WireHttpRequest {
        WireHttpRequest {
            path: self.path@,
            method: self.method@,
            query_string: self.query_string@,
            headers: text_pairs(self.headers@),
            body: self.body@,
            port: self.port,
        }
    }
}

/// HTTP response, as on the wire.
#[derive(Debug, Clone, PartialEq, Eq)]
pub struct ProtobufHttpResponse {
    pub status_code: u32,
    pub headers: Vec<(String, String)>,
    pub body: Vec<u8>,
}

/// What a [`ProtobufHttpResponse`] holds.
pub struct WireHttpResponse {
    pub status_code: u32,
    pub headers: Seq<(Seq<char>, Seq<char>)>,
    pub body: Seq<u8>,
}

impl View for ProtobufHttpResponse {
    type V = WireHttpResponse;

    open spec fn view(&self) -> WireHttpResponse {
        WireHttpResponse {
            status_code: self.status_code,
            headers: text_pairs(self.headers@),
            body: self.body@,
        }
    }
}

/// Request or response, as on the wire.
#[derive(Debug, Clone, PartialEq, Eq)]
pub enum ProtobufHttpMessage {
    Request(ProtobufHttpRequest),
    Response(ProtobufHttpResponse),
}

/// What a [`ProtobufHttpMessage`] holds.
pub enum WireHttpMessage {
    Request(WireHttpRequest),
    Response(WireHttpResponse),
}

impl View for ProtobufHttpMessage {
    type V = WireHttpMessage;

    open spec fn view(&self) -> WireHttpMessage {
        match *self {
            ProtobufHttpMessage::Request(request) => WireHttpMessage::Request(request@),
            ProtobufHttpMessage::Response(response) => WireHttpMessage::Response(response@),
        }
    }
}

impl WireHttpMessage {
    /// The headers of the request or response.
    pub open spec fn headers(self) -> Seq<(Seq<char>, Seq<char>)> {
        match self {
            WireHttpMessage::Request(request) => request.headers,
            WireHttpMessage::Response(response) => response.headers,
        }
    }
}

/// HTTP message, as on the wire.
#[derive(Debug, Clone, PartialEq, Eq)]
pub struct ProtobufHttp {
    pub request_id: Vec<u8>,
    pub message: Option<ProtobufHttpMessage>,
}

/// What a [`ProtobufHttp`] holds.
pub struct WireHttp {
    pub request_id: Seq<u8>,
    pub message: Option<WireHttpMessage>,
}

impl View for ProtobufHttp {
    type V = WireHttp;

    open spec fn view(&self) -> WireHttp {
        WireHttp {
            request_id: self.request_id@,
            message: match self.message {
                Some(message) => Some(message@),
                None => None,
            },
        }
    }
}

impl WireHttp {
    /// How many headers the message holds.
    pub open spec fn header_count(self) -> nat {
        match self.message {
            Some(message) => message.headers().len(),
            None => 0,
        }
    }
}

/// The protocol that a wire message speaks.
#[derive(Debug, Clone, PartialEq, Eq)]
pub enum ProtobufProtocol {
    Http(ProtobufHttp),
    Ws(ProtobufWebSocket),
}

/// What a [`ProtobufProtocol`] holds.
pub enum WireProtocol {
    Http(WireHttp),
    Ws(WireWebSocket),
}

impl View for ProtobufProtocol {
    type V = WireProtocol;

    open spec fn view(&self) -> WireProtocol {
        match *self {
            ProtobufProtocol::Http(http) => WireProtocol::Http(http@),
            ProtobufProtocol::Ws(ws) => WireProtocol::Ws(ws@),
        }
    }
}

impl WireProtocol {
    /// How many headers the message holds.
    pub open spec fn header_count(self) -> nat {
        match self {
            WireProtocol::Http(http) => http.header_count(),
            WireProtocol::Ws(_) => 0,
        }
    }
}

/// The envelope of every wire message.
#[derive(Debug, Clone, PartialEq, Eq)]
pub struct ProtobufMessage {
    pub protocol: Option<ProtobufProtocol>,
}

/// What a [`ProtobufMessage`] holds.
pub struct WireMessage {
    pub protocol: Option<WireProtocol>,
}

impl View for ProtobufMessage {
    type V = WireMessage;

    open spec fn view(&self) -> WireMessage {
        WireMessage {
            protocol: match self.protocol {
                Some(protocol) => Some(protocol@),
                None => None,
            },
        }
    }
}

impl WireMessage {
    /// How many headers the message holds.
    pub open spec fn header_count(self) -> nat {
        match self.protocol {
            Some(protocol) => protocol.header_count(),
            None => 0,
        }
    }
}

/// Whether no two pairs have one name.
pub open spec fn distinct_names(pairs: Seq<(Seq<char>, Seq<char>)>) -> bool {
    forall|i: int, j: int|
        0 <= i < j < pairs.len() ==> (#[trigger] pairs[i]).0 != (#[trigger] pairs[j]).0
}

/// Whether two lists of pairs hold the same pairs, each as often, in
/// whatever order.
pub open spec fn same_pairs(
    a: Seq<(Seq<char>, Seq<char>)>,
    b: Seq<(Seq<char>, Seq<char>)>,
) -> bool {
    a.to_multiset() == b.to_multiset()
}

/// Whether two requests or responses are the same but for the order of
/// their headers.
pub open spec fn same_http_message(a: WireHttpMessage, b: WireHttpMessage) -> bool {
    match a {
        WireHttpMessage::Request(a) => b matches WireHttpMessage::Request(b) && a.path == b.path
            && a.method == b.method && a.query_string == b.query_string && same_pairs(
            a.headers,
            b.headers,
        ) && a.body == b.body && a.port == b.port,
        WireHttpMessage::Response(a) => b matches WireHttpMessage::Response(b) && a.status_code
            == b.status_code && same_pairs(a.headers, b.headers) && a.body == b.body,
    }
}

/// Whether two envelopes are the same but for the order of their headers,
/// which the wire does not keep.
pub open spec fn same_envelope(a: WireMessage, b: WireMessage) -> bool {
    match a.protocol {
        None => b.protocol is None,
        Some(WireProtocol::Ws(ws)) => b.protocol == Some(WireProtocol::Ws(ws)),
        Some(WireProtocol::Http(a)) => b.protocol matches Some(WireProtocol::Http(b))
            && a.request_id == b.request_id && match a.message {
            None => b.message is None,
            Some(a) => b.message matches Some(b) && same_http_message(a, b),
        },
    }
}

impl WireMessage {
    /// The headers of the message; none, where it is no HTTP message.
    pub open spec fn headers(self) -> Seq<(Seq<char>, Seq<char>)> {
        match self.protocol {
            Some(WireProtocol::Http(http)) => match http.message {
                Some(message) => message.headers(),
                None => Seq::empty(),
            },
            _ => Seq::empty(),
        }
    }
}

/// The envelope that the Protobuf library reads from bytes, its headers in
/// an order of its own; none, where the library takes the bytes for no
/// envelope.
pub uninterp spec fn envelope_in(bytes: Seq<u8>) -> Option<WireMessage>;

/// What an envelope of the Protobuf library holds, its headers in an order
/// of its own.
pub uninterp spec fn envelope_held(message: proto::Message) -> WireMessage;

/// What the HTTP part of an envelope holds.
pub uninterp spec fn http_held(http: HttpPart) -> WireHttp;

/// What the WebSocket part of an envelope holds.
pub uninterp spec fn web_socket_held(ws: WebSocketPart) -> WireWebSocket;

/// What a request of the Protobuf library holds.
pub uninterp spec fn request_held(req: proto::http::Request) -> WireHttpRequest;

/// What a response of the Protobuf library holds.
pub uninterp spec fn response_held(res: proto::http::Response) -> WireHttpResponse;

/// The part of an envelope, not yet opened.
pub enum SealedProtocol {
    Http(HttpPart),
    Ws(WebSocketPart),
}

impl View for SealedProtocol {
    type V = WireProtocol;

    open spec fn view(&self) -> WireProtocol {
        match *self {
            SealedProtocol::Http(http) => WireProtocol::Http(http_held(http)),
            SealedProtocol::Ws(ws) => WireProtocol::Ws(web_socket_held(ws)),
        }
    }
}

/// The request or response of an HTTP part, not yet opened.
pub enum SealedHttpMessage {
    Request(proto::http::Request),
    Response(proto::http::Response),
}

impl View for SealedHttpMessage {
    type V = WireHttpMessage;

    open spec fn view(&self) -> WireHttpMessage {
        match *self {
            SealedHttpMessage::Request(req) => WireHttpMessage::Request(request_held(req)),
            SealedHttpMessage::Response(res) => WireHttpMessage::Response(response_held(res)),
        }
    }
}

/// `prost::Message::decode` for the envelope: reads an envelope from bytes,
/// or takes them for none.
#[verifier::external_body]
pub(crate) fn decode_envelope(bytes: &[u8]) -> (r: Result<proto::Message, DecodeError>)
    ensures
        r matches Ok(message) ==> envelope_in(bytes@) == Some(envelope_held(message)),
        r is Err ==> envelope_in(bytes@) is None,
{
    <proto::Message as proto::prost::Message>::decode(bytes)
}

/// `prost::Message::encode` for the envelope, into an empty vector of
/// `encoded_len` bytes. The library fails only where the room of the buffer
/// is less than the encoded length, and the room of a vector is the greatest
/// length of a vector less its own: so it does not fail. From the bytes it
/// wrote, the library reads the envelope back.
#[verifier::external_body]
pub(crate) fn encode_envelope(message: &proto::Message) -> (r: Result<Vec<u8>, EncodeError>)
    ensures
        r is Ok,
        r matches Ok(bytes) ==> envelope_in(bytes@) == Some(envelope_held(*message)),
{
    let mut buf = Vec::with_capacity(proto::prost::Message::encoded_len(message));
    proto::prost::Message::encode(message, &mut buf)?;
    Ok(buf)
}

/// Takes the part out of an envelope.
#[verifier::external_body]
pub(crate) fn open_envelope(message: proto::Message) -> (r: Option<SealedProtocol>)
    ensures
        envelope_held(message).protocol == (match r {
            Some(part) => Some(part@),
            None => None,
        }),
{
    message.protocol.map(
        |protocol|
            match protocol {
                proto::message::Protocol::Http(http) => SealedProtocol::Http(http),
                proto::message::Protocol::Ws(ws) => SealedProtocol::Ws(ws),
            },
    )
}

/// Takes the fields out of the HTTP part of an envelope.
#[verifier::external_body]
pub(crate) fn open_http(http: HttpPart) -> (r: (Vec<u8>, Option<SealedHttpMessage>))
    ensures
        http_held(http) == (WireHttp {
            request_id: r.0@,
            message: match r.1 {
                Some(message) => Some(message@),
                None => None,
            },
        }),
{
    let message = http.message.map(
        |message|
            match message {
                proto::http::Message::Request(req) => SealedHttpMessage::Request(req),
                proto::http::Message::Response(res) => SealedHttpMessage::Response(res),
            },
    );
    (http.request_id, message)
}

/// Takes the fields out of a request; the pairs of its header map, one for
/// each name, come in the order in which the map hands them out.
#[verifier::external_body]
pub(crate) fn open_request(req: proto::http::Request) -> (r: ProtobufHttpRequest)
    ensures
        same_http_message(WireHttpMessage::Request(r@), WireHttpMessage::Request(request_held(req))),
        distinct_names(r@.headers),
{
    ProtobufHttpRequest {
        path: req.path,
        method: req.method,
        query_string: req.query_string,
        headers: req.headers.into_iter().collect(),
        body: req.body,
        port: req.port,
    }
}

/// Takes the fields out of a response; the pairs of its header map, one for
/// each name, come in the order in which the map hands them out.
#[verifier::external_body]
pub(crate) fn open_response(res: proto::http::Response) -> (r: ProtobufHttpResponse)
    ensures
        same_http_message(
            WireHttpMessage::Response(r@),
            WireHttpMessage::Response(response_held(res)),
        ),
        distinct_names(r@.headers),
{
    ProtobufHttpResponse {
        status_code: res.status_code,
        headers: res.headers.into_iter().collect(),
        body: res.body,
    }
}

/// Takes the fields out of the WebSocket part of an envelope.
#[verifier::external_body]
pub(crate) fn open_web_socket(ws: WebSocketPart) -> (r: ProtobufWebSocket)
    ensures
        r@ == web_socket_held(ws),
{
    let message = ws.message.map(
        |message|
            match message {
                proto::web_socket::Message::Text(data) => ProtobufWsMessage::Text(data),
                proto::web_socket::Message::Binary(data) => ProtobufWsMessage::Binary(data),
                proto::web_socket::Message::Ping(data) => ProtobufWsMessage::Ping(data),
                proto::web_socket::Message::Pong(data) => ProtobufWsMessage::Pong(data),
                proto::web_socket::Message::Close(close) => ProtobufWsMessage::Close(
                    ProtobufWsClose { code: close.code, reason: close.reason },
                ),
            },
    );
    ProtobufWebSocket { socket_id: ws.socket_id, message }
}

/// The envelope of an HTTP message.
pub open spec fn http_envelope(request_id: Seq<u8>, message: WireHttpMessage) -> WireMessage {
    WireMessage {
        protocol: Some(WireProtocol::Http(WireHttp { request_id, message: Some(message) })),
    }
}

/// Puts a request into an envelope. The envelope holds every pair of the
/// headers where no two have one name; of two with one name the header map
/// keeps the later.
#[verifier::external_body]
pub(crate) fn seal_request(request_id: Vec<u8>, req: ProtobufHttpRequest) -> (r: proto::Message)
    ensures
        distinct_names(req@.headers) ==> same_envelope(
            envelope_held(r),
            http_envelope(request_id@, WireHttpMessage::Request(req@)),
        ),
{
    let request = proto::http::Request {
        path: req.path,
        method: req.method,
        query_string: req.query_string,
        headers: req.headers.into_iter().collect(),
        body: req.body,
        port: req.port,
    };
    let message = Some(proto::http::Message::Request(request));
    proto::Message {
        protocol: Some(proto::message::Protocol::Http(HttpPart { request_id, message })),
    }
}

/// Puts a response into an envelope. The envelope holds every pair of the
/// headers where no two have one name; of two with one name the header map
/// keeps the later.
#[verifier::external_body]
pub(crate) fn seal_response(request_id: Vec<u8>, res: ProtobufHttpResponse) -> (r: proto::Message)
    ensures
        distinct_names(res@.headers) ==> same_envelope(
            envelope_held(r),
            http_envelope(request_id@, WireHttpMessage::Response(res@)),
        ),
{
    let response = proto::http::Response {
        status_code: res.status_code,
        headers: res.headers.into_iter().collect(),
        body: res.body,
    };
    let message = Some(proto::http::Message::Response(response));
    proto::Message {
        protocol: Some(proto::message::Protocol::Http(HttpPart { request_id, message })),
    }
}

/// Puts a WebSocket frame into an envelope.
#[verifier::external_body]
pub(crate) fn seal_web_socket(socket_id: Vec<u8>, frame: ProtobufWsMessage) -> (r: proto::Message)
    ensures
        envelope_held(r) == (WireMessage {
            protocol: Some(
                WireProtocol::Ws(WireWebSocket { socket_id: socket_id@, message: Some(frame@) }),
            ),
        }),
{
    let message = Some(
        match frame {
            ProtobufWsMessage::Text(data) => proto::web_socket::Message::Text(data),
            ProtobufWsMessage::Binary(data) => proto::web_socket::Message::Binary(data),
            ProtobufWsMessage::Ping(data) => proto::web_socket::Message::Ping(data),
            ProtobufWsMessage::Pong(data) => proto::web_socket::Message::Pong(data),
            ProtobufWsMessage::Close(close) => proto::web_socket::Message::Close(
                proto::web_socket::Close { code: close.code, reason: close.reason },
            ),
        },
    );
    proto::Message {
        protocol: Some(proto::message::Protocol::Ws(WebSocketPart { socket_id, message })),
    }
}

} // verus!
