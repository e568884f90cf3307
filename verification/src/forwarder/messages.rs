//! The messages of the forwarder in the form the device works with, and
//! their way to bytes and back.

use crate::forwarder::error::{ErrorKind, ProtocolError};
use crate::forwarder::http_msg::{http_from_wire, http_on_wire, taken_over, Http, HttpView};
use crate::forwarder::id::Id;
use crate::forwarder::headers::Header;
use crate::forwarder::http_msg::last_values_on_wire;
use crate::forwarder::order::{
    lemma_same_http_message, lemma_same_http_on_wire, lemma_same_pairs_last_values,
};
use crate::forwarder::wire::{
    decode_envelope, distinct_names, encode_envelope, envelope_held, envelope_in, open_envelope,
    open_http, open_request, open_response, open_web_socket, same_envelope, seal_request,
    seal_response, seal_web_socket, ProtobufHttp, ProtobufHttpMessage, ProtobufMessage,
    ProtobufProtocol, ProtobufWebSocket, SealedHttpMessage, SealedProtocol, WireMessage,
    WireProtocol,
};
use crate::forwarder::ws_msg::{
    message_of_frame, open_tung, tung_frame, web_socket_from_wire, web_socket_to_wire,
    WebSocket, WebSocketMessage, WebSocketView, WsFrame,
};
use vstd::prelude::*;

verus! {

/// A message of the forwarder: the protocols that are supported.
#[derive(Debug, PartialEq, Eq)]
pub enum ProtoMessage {
    Http(Http),
    WebSocket(WebSocket),
}

/// What a [`ProtoMessage`] holds.
pub enum ProtoMessageView {
    Http(HttpView),
    WebSocket(WebSocketView),
}

impl View for ProtoMessage {
    type V = ProtoMessageView;

    open spec fn view(&self) -> ProtoMessageView {
        match *self {
            ProtoMessage::Http(http) => ProtoMessageView::Http(http@),
            ProtoMessage::WebSocket(ws) => ProtoMessageView::WebSocket(ws@),
        }
    }
}

impl ProtoMessage {
    /// The headers of the message in the order of its header map; none,
    /// where it is no HTTP message.
    pub open spec fn header_order(self) -> Seq<Header> {
        match self {
            ProtoMessage::Http(http) => http.http_msg.header_order(),
            ProtoMessage::WebSocket(_) => Seq::empty(),
        }
    }
}

/// The message that a part of an envelope stands for; `room` says whether
/// the header map has room for the headers of an HTTP message.
pub open spec fn protocol_from_wire(wire: WireProtocol, room: bool) -> Result<
    ProtoMessageView,
    ErrorKind,
> {
    match wire {
        WireProtocol::Http(http) => match http_from_wire(http, room) {
            Ok(http) => Ok(ProtoMessageView::Http(http)),
            Err(kind) => Err(kind),
        },
        WireProtocol::Ws(ws) => match web_socket_from_wire(ws) {
            Ok(ws) => Ok(ProtoMessageView::WebSocket(ws)),
            Err(kind) => Err(kind),
        },
    }
}

/// The message that an envelope stands for: an envelope without a part
/// stands for none.
pub open spec fn message_from_wire(wire: WireMessage, room: bool) -> Result<
    ProtoMessageView,
    ErrorKind,
> {
    match wire.protocol {
        None => Err(ErrorKind::Empty),
        Some(protocol) => protocol_from_wire(protocol, room),
    }
}

/// Whether a part of an envelope is what a message becomes on the wire.
pub open spec fn protocol_on_wire(message: ProtoMessageView, wire: WireProtocol) -> bool {
    match message {
        ProtoMessageView::Http(http) => wire matches WireProtocol::Http(on_wire) && http_on_wire(
            http,
            on_wire,
        ),
        ProtoMessageView::WebSocket(ws) => wire == WireProtocol::Ws(web_socket_to_wire(ws)),
    }
}

/// The errors with which reading a message from bytes can end.
pub open spec fn is_decode_failure(kind: ErrorKind) -> bool {
    ||| kind == ErrorKind::Decode
    ||| kind == ErrorKind::Empty
    ||| kind == ErrorKind::InvalidHttpMethod
    ||| kind == ErrorKind::Http
    ||| kind == ErrorKind::InvalidPortNumber
    ||| kind == ErrorKind::InvalidStatusCode
}

/// An envelope stands for the same message whatever the order of its
/// headers.
pub proof fn lemma_same_envelope(a: WireMessage, b: WireMessage, room: bool)
    requires
        same_envelope(a, b),
    ensures
        a.header_count() == b.header_count(),
        message_from_wire(a, room) == message_from_wire(b, room),
{
    if let Some(WireProtocol::Http(http)) = a.protocol {
        if let Some(message) = http.message {
            lemma_same_http_message(message, b.protocol->0->Http_0.message->0, room);
        }
    }
}

/// Whether bytes carry a message: the Protobuf library reads from them an
/// envelope whose part is what the message becomes on the wire.
pub open spec fn carries(bytes: Seq<u8>, message: ProtoMessageView) -> bool {
    envelope_in(bytes) matches Some(envelope) && envelope.protocol matches Some(part)
        && protocol_on_wire(message, part)
}

/// Opens every part of an envelope: the wire message that the envelope
/// holds, with one header for each name, in the order in which the header
/// map hands them out.
fn unseal(message: edgehog_device_forwarder_proto::Message) -> (r: ProtobufMessage)
    ensures
        same_envelope(r@, envelope_held(message)),
        distinct_names(r@.headers()),
{
    let protocol = match open_envelope(message) {
        None => None,
        Some(SealedProtocol::Http(http)) => {
            let (request_id, sealed) = open_http(http);
            let message = match sealed {
                None => None,
                Some(SealedHttpMessage::Request(req)) => Some(
                    ProtobufHttpMessage::Request(open_request(req)),
                ),
                Some(SealedHttpMessage::Response(res)) => Some(
                    ProtobufHttpMessage::Response(open_response(res)),
                ),
            };
            Some(ProtobufProtocol::Http(ProtobufHttp { request_id, message }))
        },
        Some(SealedProtocol::Ws(ws)) => Some(ProtobufProtocol::Ws(open_web_socket(ws))),
    };
    ProtobufMessage { protocol }
}

impl ProtoMessage {
    /// Encode the message into the bytes of its envelope: the bytes that the
    /// Protobuf library writes for [`ProtobufProtocol::from`] of the message.
    /// It always succeeds, and the bytes carry the message; of the values of
    /// one header name, they carry the last.
    pub fn encode(self) -> (r: Result<Vec<u8>, ProtocolError>)
        ensures
            r is Ok,
            carries(r->Ok_0@, self@),
            last_values_on_wire(self.header_order(), envelope_in(r->Ok_0@)->0.headers()),
    {
        let ghost message = self@;
        let ghost order = self.header_order();
        let protocol = ProtobufProtocol::from(self);
        let ghost wire = protocol@;
        let envelope = match protocol {
            ProtobufProtocol::Http(http) => {
                let ProtobufHttp { request_id, message } = http;
                match message {
                    Some(ProtobufHttpMessage::Request(req)) => seal_request(request_id, req),
                    Some(ProtobufHttpMessage::Response(res)) => seal_response(request_id, res),
                    None => unreached(),
                }
            },
            ProtobufProtocol::Ws(ws) => {
                let ProtobufWebSocket { socket_id, message } = ws;
                match message {
                    Some(frame) => seal_web_socket(socket_id, frame),
                    None => unreached(),
                }
            },
        };
        proof {
            let held = envelope_held(envelope);
            if let WireProtocol::Http(on_wire) = wire {
                lemma_same_http_on_wire(message->Http_0, on_wire, held.protocol->0->Http_0);
                lemma_same_pairs_last_values(
                    order,
                    on_wire.message->0.headers(),
                    held.headers(),
                );
            }
            assert(last_values_on_wire(order, held.headers()));
            assert(held.protocol matches Some(part) && protocol_on_wire(message, part));
        }
        Self::encoded(encode_envelope(&envelope))
    }

    /// What [`ProtoMessage::encode`] returns for what the Protobuf library
    /// gave it: the bytes as they are, or the error of the library.
    pub fn encoded(
        outcome: Result<Vec<u8>, edgehog_device_forwarder_proto::prost::EncodeError>,
    ) -> (r: Result<Vec<u8>, ProtocolError>)
        ensures
            outcome matches Ok(bytes) ==> r == Ok::<Vec<u8>, ProtocolError>(bytes),
            outcome matches Err(e) ==> r == Err::<Vec<u8>, ProtocolError>(
                ProtocolError::Encode(e),
            ),
    {
        match outcome {
            Ok(buf) => Ok(buf),
            Err(e) => Err(ProtocolError::Encode(e)),
        }
    }

    /// Decode the bytes of an envelope into a message. Where the Protobuf
    /// library takes the bytes for no envelope, they are refused; else the
    /// result is the message that the envelope stands for.
    pub fn decode(bytes: &[u8]) -> (r: Result<Self, ProtocolError>)
        ensures
            r is Err ==> is_decode_failure(r->Err_0.kind()),
            envelope_in(bytes@) is None ==> r is Err && r->Err_0.kind() == ErrorKind::Decode,
            envelope_in(bytes@) matches Some(envelope) ==> taken_over(
                r,
                message_from_wire(envelope, true),
                message_from_wire(envelope, false),
                envelope.header_count(),
            ),
    {
        let msg = match decode_envelope(bytes) {
            Ok(msg) => msg,
            Err(e) => {
                return Err(ProtocolError::Decode(e));
            },
        };
        let ghost held = envelope_held(msg);
        let envelope = unseal(msg);
        proof {
            lemma_same_envelope(envelope@, held, true);
            lemma_same_envelope(envelope@, held, false);
        }
        Self::try_from_message(envelope)
    }

    /// Convert a frame of the WebSocket client into a message of the socket:
    /// what [`ProtoMessage::from_frame`] gives for the frame that the message
    /// of the client holds. A raw frame is refused.
    pub fn try_from_tung(
        socket_id: Id,
        tung_msg: tokio_tungstenite::tungstenite::Message,
    ) -> (r: Result<Self, ProtocolError>)
        ensures
            tung_frame(tung_msg) is None ==> r == Err::<Self, ProtocolError>(
                ProtocolError::WrongWsFrame,
            ),
            tung_frame(tung_msg) matches Some(frame) ==> r is Ok && r->Ok_0@
                == ProtoMessageView::WebSocket(
                WebSocketView { socket_id: socket_id@, message: message_of_frame(frame) },
            ),
    {
        Self::from_frame(socket_id, open_tung(tung_msg))
    }

    /// The message of a socket that carries a frame of the WebSocket client.
    /// `None` stands for a raw frame, which is refused.
    pub fn from_frame(socket_id: Id, frame: Option<WsFrame>) -> (r: Result<Self, ProtocolError>)
        ensures
            frame is None ==> r == Err::<Self, ProtocolError>(ProtocolError::WrongWsFrame),
            frame matches Some(f) ==> r is Ok && r->Ok_0@ == ProtoMessageView::WebSocket(
                WebSocketView { socket_id: socket_id@, message: message_of_frame(f@) },
            ),
    {
        match WebSocketMessage::try_from(frame) {
            Ok(message) => Ok(Self::WebSocket(WebSocket { socket_id, message })),
            Err(e) => Err(e),
        }
    }

    /// Return the internal websocket message if it matches the type.
    pub fn into_ws(self) -> (r: Option<WebSocket>)
        ensures
            r == (match self {
                ProtoMessage::Http(_) => None,
                ProtoMessage::WebSocket(ws) => Some(ws),
            }),
    {
        match self {
            ProtoMessage::Http(_) => None,
            ProtoMessage::WebSocket(ws) => Some(ws),
        }
    }

    /// Return the internal http message if it matches the type.
    pub fn into_http(self) -> (r: Option<Http>)
        ensures
            r == (match self {
                ProtoMessage::Http(http) => Some(http),
                ProtoMessage::WebSocket(_) => None,
            }),
    {
        match self {
            ProtoMessage::Http(http) => Some(http),
            ProtoMessage::WebSocket(_) => None,
        }
    }

    /// Checks an envelope and takes its message over.
    pub fn try_from_message(value: ProtobufMessage) -> (r: Result<Self, ProtocolError>)
        ensures
            taken_over(
                r,
                message_from_wire(value@, true),
                message_from_wire(value@, false),
                value@.header_count(),
            ),
            r is Err ==> is_decode_failure(r->Err_0.kind()) && r->Err_0.kind()
                != ErrorKind::Decode,
    {
        let ProtobufMessage { protocol } = value;
        let protocol = match protocol {
            Some(protocol) => protocol,
            None => {
                return Err(ProtocolError::Empty);
            },
        };
        Self::try_from(protocol)
    }

    /// Checks the part of an envelope and takes its message over.
    pub fn try_from(value: ProtobufProtocol) -> (r: Result<Self, ProtocolError>)
        ensures
            taken_over(
                r,
                protocol_from_wire(value@, true),
                protocol_from_wire(value@, false),
                value@.header_count(),
            ),
            r is Err ==> is_decode_failure(r->Err_0.kind()) && r->Err_0.kind()
                != ErrorKind::Decode,
    {
        let protocol = match value {
            ProtobufProtocol::Http(http) => match Http::try_from(http) {
                Ok(http) => ProtoMessage::Http(http),
                Err(e) => {
                    return Err(e);
                },
            },
            ProtobufProtocol::Ws(ws) => match WebSocket::try_from(ws) {
                Ok(ws) => ProtoMessage::WebSocket(ws),
                Err(e) => {
                    return Err(e);
                },
            },
        };
        Ok(protocol)
    }
}

impl ProtobufProtocol {
    /// The part of an envelope that carries a message; of the values of one
    /// header name, it holds the last.
    pub fn from(protocol: ProtoMessage) -> (r: Self)
        ensures
            protocol_on_wire(protocol@, r@),
            last_values_on_wire(
                protocol.header_order(),
                (WireMessage { protocol: Some(r@) }).headers(),
            ),
    {
        match protocol {
            ProtoMessage::Http(http) => {
                let proto_http = ProtobufHttp::from(http);
                ProtobufProtocol::Http(proto_http)
            },
            ProtoMessage::WebSocket(ws) => {
                let proto_ws = ProtobufWebSocket::from(ws);
                ProtobufProtocol::Ws(proto_ws)
            },
        }
    }
}

} // verus!
