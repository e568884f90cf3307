//! What holds of the way to the wire and back.

use crate::forwarder::error::{ErrorKind, ProtocolError};
use crate::forwarder::headers::{
    are_headers, header_of_texts, headers_of_texts, is_header_name, is_header_value,
    is_lower_header_name, is_token, Header, HEADER_ROOM,
};
use crate::forwarder::http_msg::{
    has_name, headers_on_wire, http_from_wire, http_on_wire, is_wire_form, is_wire_form_of,
    request_from_wire, response_from_wire, taken_over, wire_text, HttpMessageView,
    HttpRequestView, HttpResponseView, HttpView,
};
use crate::forwarder::messages::{
    carries, message_from_wire, protocol_from_wire, protocol_on_wire, ProtoMessage,
    ProtoMessageView,
};
use crate::forwarder::wire::envelope_in;
use crate::forwarder::wire::{WireHttp, WireMessage, WireProtocol};
use crate::forwarder::ws_msg::{lemma_web_socket_round_trip, web_socket_survives_wire};
use vstd::multiset::Multiset;
use vstd::prelude::*;
use vstd::utf8::{decode_utf8, decode_utf8_encode_utf8, valid_utf8};

verus! {

/// Whether headers keep their meaning on the wire, which holds texts under
/// distinct names: each name has one value, and each value is the UTF-8 of
/// a text that can be a header value.
pub open spec fn headers_survive_wire(headers: Multiset<Header>) -> bool {
    &&& forall|h: Header| #[trigger]
        headers.contains(h) ==> {
            &&& headers.count(h) == 1
            &&& is_lower_header_name(h.0)
            &&& valid_utf8(h.1)
            &&& is_header_value(decode_utf8(h.1))
        }
    &&& forall|a: Header, b: Header|
        #![trigger headers.contains(a), headers.contains(b)]
        headers.contains(a) && headers.contains(b) && a.0 == b.0 ==> a == b
}

/// Whether an HTTP message keeps its meaning on the wire.
pub open spec fn http_survives_wire(http: HttpView) -> bool {
    &&& http.request_id.len() > 0
    &&& match http.http_msg {
        HttpMessageView::Request(request) => is_token(request.method) && headers_survive_wire(
            request.headers,
        ),
        HttpMessageView::Response(response) => 100 <= response.status_code <= 999
            && headers_survive_wire(response.headers),
    }
}

/// Whether a message keeps its meaning on the wire.
pub open spec fn message_survives_wire(message: ProtoMessageView) -> bool {
    match message {
        ProtoMessageView::Http(http) => http_survives_wire(http),
        ProtoMessageView::WebSocket(ws) => web_socket_survives_wire(ws),
    }
}

/// Headers that keep their meaning on the wire come back from it as they
/// were.
pub proof fn lemma_headers_round_trip(
    headers: Multiset<Header>,
    pairs: Seq<(Seq<char>, Seq<char>)>,
)
    requires
        headers_survive_wire(headers),
        headers_on_wire(headers, pairs),
    ensures
        are_headers(pairs),
        headers_of_texts(pairs) == headers,
{
    let f = |p: (Seq<char>, Seq<char>)| header_of_texts(p);
    let back = pairs.map_values(f);
    assert forall|k: int| 0 <= k < pairs.len() implies {
        &&& headers.contains(#[trigger] back[k])
        &&& back[k].0 == pairs[k].0
        &&& is_header_name(pairs[k].0)
        &&& is_header_value(pairs[k].1)
    } by {
        assert(is_wire_form(pairs[k], headers));
        let value = choose|value: Seq<u8>| is_wire_form_of(pairs[k], headers, value);
        assert(headers.contains((pairs[k].0, value)));
        decode_utf8_encode_utf8(value);
        assert(pairs[k].1 == wire_text(value));
        assert(back[k] == header_of_texts(pairs[k]));
        assert(back[k] == (pairs[k].0, value));
    }
    assert(are_headers(pairs));
    assert(back.no_duplicates()) by {
        assert forall|i: int, j: int| 0 <= i < back.len() && 0 <= j < back.len() && i != j implies back[i] != back[j] by {
            if i < j {
                assert(pairs[i].0 != pairs[j].0);
            } else {
                assert(pairs[j].0 != pairs[i].0);
            }
        }
    }
    back.lemma_multiset_has_no_duplicates();
    back.to_multiset_ensures();
    assert forall|h: Header| #[trigger] back.to_multiset().count(h) == headers.count(h) by {
        if headers.contains(h) {
            assert(has_name(pairs, h.0));
            let k = choose|k: int| 0 <= k < pairs.len() && (#[trigger] pairs[k]).0 == h.0;
            assert(headers.contains(back[k]));
            assert(back[k] == h);
            assert(back.contains(h));
        } else {
            if back.to_multiset().count(h) > 0 {
                assert(back.contains(h));
                let k = choose|k: int| 0 <= k < back.len() && back[k] == h;
                assert(headers.contains(back[k]));
            }
        }
    }
    assert(back.to_multiset() =~= headers);
}

/// Codec round trip for HTTP: a message that keeps its meaning on the wire,
/// put on the wire and taken from it again, is the message it was, as long
/// as the header map has room for its headers.
pub proof fn lemma_http_round_trip(http: HttpView, wire: WireHttp)
    requires
        http_survives_wire(http),
        http_on_wire(http, wire),
    ensures
        http_from_wire(wire, true) == Ok::<HttpView, ErrorKind>(http),
{
    match http.http_msg {
        HttpMessageView::Request(request) => {
            let on_wire = wire.message->0->Request_0;
            lemma_headers_round_trip(request.headers, on_wire.headers);
            assert(request_from_wire(on_wire, true) == Ok::<HttpRequestView, ErrorKind>(request));
        },
        HttpMessageView::Response(response) => {
            let on_wire = wire.message->0->Response_0;
            lemma_headers_round_trip(response.headers, on_wire.headers);
            assert(response_from_wire(on_wire, true) == Ok::<HttpResponseView, ErrorKind>(
                response,
            ));
        },
    }
}

/// Codec round trip: a message that keeps its meaning on the wire, put
/// into an envelope and taken from it again, is the message it was, as long
/// as the header map has room for its headers.
pub proof fn lemma_message_round_trip(message: ProtoMessageView, wire: WireProtocol)
    requires
        message_survives_wire(message),
        protocol_on_wire(message, wire),
    ensures
        protocol_from_wire(wire, true) == Ok::<ProtoMessageView, ErrorKind>(message),
        message_from_wire(WireMessage { protocol: Some(wire) }, true) == Ok::<
            ProtoMessageView,
            ErrorKind,
        >(message),
{
    match message {
        ProtoMessageView::Http(http) => {
            lemma_http_round_trip(http, wire->Http_0);
        },
        ProtoMessageView::WebSocket(ws) => {
            lemma_web_socket_round_trip(ws);
        },
    }
}

/// Codec round trip, of the functions themselves: where
/// [`ProtobufProtocol::from`](crate::forwarder::wire::ProtobufProtocol) gave
/// `wire` for a message that keeps its meaning on the wire, with no more
/// than [`HEADER_ROOM`] headers, whatever [`ProtoMessage::try_from`] returns
/// for `wire` is that message.
pub proof fn lemma_round_trip_is_owed(
    message: ProtoMessageView,
    wire: WireProtocol,
    back: Result<ProtoMessage, ProtocolError>,
)
    requires
        message_survives_wire(message),
        protocol_on_wire(message, wire),
        wire.header_count() <= HEADER_ROOM,
        taken_over(
            back,
            protocol_from_wire(wire, true),
            protocol_from_wire(wire, false),
            wire.header_count(),
        ),
    ensures
        back is Ok,
        back->Ok_0@ == message,
{
    lemma_message_round_trip(message, wire);
}

/// Codec round trip through the bytes: where [`ProtoMessage::encode`] gave
/// `bytes` for a message that keeps its meaning on the wire, with no more
/// than [`HEADER_ROOM`] headers, whatever [`ProtoMessage::decode`] returns
/// for `bytes` is that message.
pub proof fn lemma_bytes_round_trip(
    message: ProtoMessageView,
    bytes: Seq<u8>,
    back: Result<ProtoMessage, ProtocolError>,
)
    requires
        message_survives_wire(message),
        carries(bytes, message),
        envelope_in(bytes)->0.header_count() <= HEADER_ROOM,
        taken_over(
            back,
            message_from_wire(envelope_in(bytes)->0, true),
            message_from_wire(envelope_in(bytes)->0, false),
            envelope_in(bytes)->0.header_count(),
        ),
    ensures
        back is Ok,
        back->Ok_0@ == message,
{
    let envelope = envelope_in(bytes)->0;
    lemma_message_round_trip(message, envelope.protocol->0);
}

} // verus!
