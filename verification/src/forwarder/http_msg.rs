//! HTTP messages: requests to a service on the device and its responses.

use crate::forwarder::error::{ErrorKind, ProtocolError};
use crate::forwarder::headers::{
    are_headers, header_entries, header_of_texts, header_order, header_pairs, header_views,
    headers_of_texts,
    is_header_name, is_header_value, is_token, new_headers, try_append_header, Header,
    HEADER_ROOM,
};
use crate::forwarder::id::Id;
use crate::forwarder::wire::{
    distinct_names, text_pairs, ProtobufHttp, ProtobufHttpMessage, ProtobufHttpRequest, ProtobufHttpResponse,
    WireHttp, WireHttpMessage, WireHttpRequest, WireHttpResponse,
};
use crate::text::{string_from_utf8_lossy, utf8_lossy};
use vstd::multiset::Multiset;
use vstd::prelude::*;
use vstd::utf8::{decode_utf8, valid_utf8};

verus! {

/// `http::Method::try_from`: a method is an HTTP token.
#[verifier::external_body]
pub(crate) fn check_method(text: &str) -> (r: Result<(), http::method::InvalidMethod>)
    ensures
        r is Ok <==> is_token(text@),
{
    http::Method::try_from(text).map(|_| ())
}

/// `http::StatusCode::from_u16`: a status is a number from 100 to 999.
#[verifier::external_body]
pub(crate) fn check_status(code: u16) -> (r: Result<(), http::status::InvalidStatusCode>)
    ensures
        r is Ok <==> 100 <= code <= 999,
{
    http::StatusCode::from_u16(code).map(|_| ())
}

/// HTTP request fields.
#[derive(Debug, PartialEq, Eq)]
pub struct HttpRequest {
    pub method: String,
    pub path: String,
    pub query_string: String,
    pub headers: http::HeaderMap,
    pub body: Vec<u8>,
    /// Port on the device to which the request will be sent.
    pub port: u16,
}

/// What an [`HttpRequest`] holds.
pub struct HttpRequestView {
    pub method: Seq<char>,
    pub path: Seq<char>,
    pub query_string: Seq<char>,
    pub headers: Multiset<Header>,
    pub body: Seq<u8>,
    pub port: u16,
}

impl View for HttpRequest {
    type V = HttpRequestView;

    open spec fn view(&self) -> HttpRequestView {
        HttpRequestView {
            method: self.method@,
            path: self.path@,
            query_string: self.query_string@,
            headers: header_entries(self.headers),
            body: self.body@,
            port: self.port,
        }
    }
}

/// HTTP response fields.
#[derive(Debug, PartialEq, Eq)]
pub struct HttpResponse {
    pub status_code: u16,
    pub headers: http::HeaderMap,
    pub body: Vec<u8>,
}

/// What an [`HttpResponse`] holds.
pub struct HttpResponseView {
    pub status_code: u16,
    pub headers: Multiset<Header>,
    pub body: Seq<u8>,
}

impl View for HttpResponse {
    type V = HttpResponseView;

    open spec fn view(&self) -> HttpResponseView {
        HttpResponseView {
            status_code: self.status_code,
            headers: header_entries(self.headers),
            body: self.body@,
        }
    }
}

/// Http protocol message types.
#[derive(Debug, PartialEq, Eq)]
pub enum HttpMessage {
    Request(HttpRequest),
    Response(HttpResponse),
}

/// What an [`HttpMessage`] holds.
pub enum HttpMessageView {
    Request(HttpRequestView),
    Response(HttpResponseView),
}

impl View for HttpMessage {
    type V = HttpMessageView;

    open spec fn view(&self) -> HttpMessageView {
        match *self {
            HttpMessage::Request(request) => HttpMessageView::Request(request@),
            HttpMessage::Response(response) => HttpMessageView::Response(response@),
        }
    }
}

/// Http message.
#[derive(Debug, PartialEq, Eq)]
pub struct Http {
    /// Unique ID.
    pub request_id: Id,
    /// Http message type.
    pub http_msg: HttpMessage,
}

/// What an [`Http`] holds.
pub struct HttpView {
    pub request_id: Seq<u8>,
    pub http_msg: HttpMessageView,
}

impl View for Http {
    type V = HttpView;

    open spec fn view(&self) -> HttpView {
        HttpView { request_id: self.request_id@, http_msg: self.http_msg@ }
    }
}

/// The request that a wire request stands for: its method must be a token,
/// its headers must be headers for which the header map has `room`, and its
/// port must fit sixteen bits.
pub open spec fn request_from_wire(wire: WireHttpRequest, room: bool) -> Result<
    HttpRequestView,
    ErrorKind,
> {
    if !is_token(wire.method) {
        Err(ErrorKind::InvalidHttpMethod)
    } else if !are_headers(wire.headers) || !room {
        Err(ErrorKind::Http)
    } else if wire.port > u16::MAX {
        Err(ErrorKind::InvalidPortNumber)
    } else {
        Ok(
            HttpRequestView {
                method: wire.method,
                path: wire.path,
                query_string: wire.query_string,
                headers: headers_of_texts(wire.headers),
                body: wire.body,
                port: wire.port as u16,
            },
        )
    }
}

/// The response that a wire response stands for: its status must be a
/// number from 100 to 999, and its headers must be headers for which the
/// header map has `room`.
pub open spec fn response_from_wire(wire: WireHttpResponse, room: bool) -> Result<
    HttpResponseView,
    ErrorKind,
> {
    if wire.status_code > u16::MAX {
        Err(ErrorKind::InvalidPortNumber)
    } else if !(100 <= wire.status_code <= 999) {
        Err(ErrorKind::InvalidStatusCode)
    } else if !are_headers(wire.headers) || !room {
        Err(ErrorKind::Http)
    } else {
        Ok(
            HttpResponseView {
                status_code: wire.status_code as u16,
                headers: headers_of_texts(wire.headers),
                body: wire.body,
            },
        )
    }
}

/// The message that a wire request or response stands for.
pub open spec fn http_message_from_wire(wire: WireHttpMessage, room: bool) -> Result<
    HttpMessageView,
    ErrorKind,
> {
    match wire {
        WireHttpMessage::Request(request) => match request_from_wire(request, room) {
            Ok(request) => Ok(HttpMessageView::Request(request)),
            Err(kind) => Err(kind),
        },
        WireHttpMessage::Response(response) => match response_from_wire(response, room) {
            Ok(response) => Ok(HttpMessageView::Response(response)),
            Err(kind) => Err(kind),
        },
    }
}

/// The HTTP message that a wire message stands for: the request must be
/// named, and the request or response must be there and stand for one.
pub open spec fn http_from_wire(wire: WireHttp, room: bool) -> Result<HttpView, ErrorKind> {
    if wire.request_id.len() == 0 {
        Err(ErrorKind::Empty)
    } else {
        match wire.message {
            None => Err(ErrorKind::Empty),
            Some(message) => match http_message_from_wire(message, room) {
                Ok(http_msg) => Ok(HttpView { request_id: wire.request_id, http_msg }),
                Err(kind) => Err(kind),
            },
        }
    }
}

/// Whether a conversion returned what the wire value stands for: the value
/// itself, or an error of the kind.
pub open spec fn converts_to<T: View>(
    r: Result<T, ProtocolError>,
    expected: Result<T::V, ErrorKind>,
) -> bool {
    match expected {
        Err(kind) => r is Err && r->Err_0.kind() == kind,
        Ok(value) => r is Ok && r->Ok_0@ == value,
    }
}

/// Whether a conversion returned what the wire value stands for. What it
/// stands for with room in the header map is owed up to [`HEADER_ROOM`]
/// headers; with more headers the map may have no room.
pub open spec fn taken_over<T: View>(
    r: Result<T, ProtocolError>,
    with_room: Result<T::V, ErrorKind>,
    without_room: Result<T::V, ErrorKind>,
    headers: nat,
) -> bool {
    converts_to(r, with_room) || (headers > HEADER_ROOM && converts_to(r, without_room))
}

/// Fills a header map with the headers of a wire message.
fn headers_from_wire(pairs: &Vec<(String, String)>) -> (r: Result<http::HeaderMap, http::Error>)
    ensures
        r is Ok ==> are_headers(text_pairs(pairs@)),
        r matches Ok(map) ==> header_entries(map) == headers_of_texts(text_pairs(pairs@)),
        are_headers(text_pairs(pairs@)) && pairs@.len() <= HEADER_ROOM ==> r is Ok,
{
    let mut map = new_headers();
    let mut i: usize = 0;
    let ghost texts = text_pairs(pairs@);
    proof {
        let f = |p: (Seq<char>, Seq<char>)| header_of_texts(p);
        let none = texts.take(0).map_values(f);
        none.to_multiset_ensures();
        vstd::multiset::lemma_multiset_empty_len(none.to_multiset());
    }
    while i < pairs.len()
        invariant
            i <= pairs.len(),
            texts == text_pairs(pairs@),
            texts.len() == pairs.len(),
            are_headers(texts.take(i as int)),
            header_entries(map) == headers_of_texts(texts.take(i as int)),
            header_entries(map).len() == i,
        decreases pairs.len() - i,
    {
        match try_append_header(&mut map, &pairs[i].0, &pairs[i].1) {
            Ok(()) => {},
            Err(e) => {
                proof {
                    if are_headers(texts) {
                        assert(texts[i as int] == (pairs[i as int].0@, pairs[i as int].1@));
                    }
                }
                return Err(e);
            },
        }
        proof {
            let before = texts.take(i as int);
            let after = texts.take(i + 1);
            assert(texts[i as int] == (pairs[i as int].0@, pairs[i as int].1@));
            assert(after == before.push(texts[i as int]));
            let f = |p: (Seq<char>, Seq<char>)| header_of_texts(p);
            assert(after.map_values(f) == before.map_values(f).push(f(texts[i as int])));
            before.map_values(f).to_multiset_ensures();
            after.map_values(f).to_multiset_ensures();
            assert forall|k: int| 0 <= k < after.len() implies is_header_name(
                (#[trigger] after[k]).0,
            ) && is_header_value(after[k].1) by {
                if k < i {
                    assert(after[k] == before[k]);
                }
            }
        }
        i += 1;
    }
    proof {
        assert(texts.take(i as int) == texts);
    }
    Ok(map)
}

impl HttpRequest {
    /// Checks a wire request and takes it over.
    pub fn try_from(value: ProtobufHttpRequest) -> (r: Result<Self, ProtocolError>)
        ensures
            taken_over(
                r,
                request_from_wire(value@, true),
                request_from_wire(value@, false),
                value@.headers.len(),
            ),
    {
        let ProtobufHttpRequest { path, method, query_string, headers, body, port } = value;
        match check_method(method.as_str()) {
            Ok(()) => {},
            Err(e) => {
                return Err(ProtocolError::InvalidHttpMethod(e));
            },
        }
        let headers = match headers_from_wire(&headers) {
            Ok(headers) => headers,
            Err(e) => {
                return Err(ProtocolError::Http(e));
            },
        };
        let port = match u16::try_from(port) {
            Ok(port) => port,
            Err(e) => {
                return Err(ProtocolError::InvalidPortNumber(e));
            },
        };
        Ok(Self { path, method, query_string, headers, body, port })
    }
}

impl HttpResponse {
    /// Return the status code of the HTTP response.
    pub fn status(&self) -> (r: u16)
        ensures
            r == self.status_code,
    {
        self.status_code
    }

    /// Checks a wire response and takes it over.
    pub fn try_from(value: ProtobufHttpResponse) -> (r: Result<Self, ProtocolError>)
        ensures
            taken_over(
                r,
                response_from_wire(value@, true),
                response_from_wire(value@, false),
                value@.headers.len(),
            ),
    {
        let ProtobufHttpResponse { status_code, headers, body } = value;
        let status_code = match u16::try_from(status_code) {
            Ok(status_code) => status_code,
            Err(e) => {
                return Err(ProtocolError::InvalidPortNumber(e));
            },
        };
        match check_status(status_code) {
            Ok(()) => {},
            Err(e) => {
                return Err(ProtocolError::InvalidStatusCode(e));
            },
        }
        let headers = match headers_from_wire(&headers) {
            Ok(headers) => headers,
            Err(e) => {
                return Err(ProtocolError::Http(e));
            },
        };
        Ok(Self { status_code, headers, body })
    }

    /// The response made of what an HTTP client received; a response without
    /// a body has the empty body.
    pub fn from_parts(status_code: u16, headers: http::HeaderMap, body: Option<Vec<u8>>) -> (r:
        Self)
        ensures
            r.status_code == status_code,
            r.headers == headers,
            r.body@ == (match body {
                Some(body) => body@,
                None => Seq::<u8>::empty(),
            }),
    {
        let body = match body {
            Some(body) => body,
            None => Vec::new(),
        };
        Self { status_code, headers, body }
    }
}

impl HttpMessage {
    /// The request, if the message is one.
    pub fn into_req(self) -> (r: Option<HttpRequest>)
        ensures
            r == (match self {
                HttpMessage::Request(req) => Some(req),
                HttpMessage::Response(_) => None,
            }),
    {
        match self {
            HttpMessage::Request(req) => Some(req),
            HttpMessage::Response(_) => None,
        }
    }

    /// The response, if the message is one.
    pub fn into_res(self) -> (r: Option<HttpResponse>)
        ensures
            r == (match self {
                HttpMessage::Request(_) => None,
                HttpMessage::Response(res) => Some(res),
            }),
    {
        match self {
            HttpMessage::Request(_) => None,
            HttpMessage::Response(res) => Some(res),
        }
    }
}

impl Http {
    /// An HTTP message under the identifier of its request.
    pub fn new(request_id: Id, http_msg: HttpMessage) -> (r: Self)
        ensures
            r.request_id == request_id,
            r.http_msg == http_msg,
    {
        Self { request_id, http_msg }
    }

    /// Checks a wire message and takes it over.
    pub fn try_from(value: ProtobufHttp) -> (r: Result<Self, ProtocolError>)
        ensures
            taken_over(
                r,
                http_from_wire(value@, true),
                http_from_wire(value@, false),
                value@.header_count(),
            ),
    {
        let ProtobufHttp { request_id, message } = value;
        let request_id = match Id::try_from(request_id) {
            Ok(id) => id,
            Err(e) => {
                return Err(e);
            },
        };
        let msg = match message {
            Some(msg) => msg,
            None => {
                return Err(ProtocolError::Empty);
            },
        };
        let http_msg = match msg {
            ProtobufHttpMessage::Request(req) => match HttpRequest::try_from(req) {
                Ok(req) => HttpMessage::Request(req),
                Err(e) => {
                    return Err(e);
                },
            },
            ProtobufHttpMessage::Response(res) => match HttpResponse::try_from(res) {
                Ok(res) => HttpMessage::Response(res),
                Err(e) => {
                    return Err(e);
                },
            },
        };
        Ok(Http { request_id, http_msg })
    }
}

/// The text of a header value on the wire: the value itself where it is
/// UTF-8, and else what stands for it.
pub open spec fn wire_text(value: Seq<u8>) -> Seq<char> {
    if valid_utf8(value) {
        decode_utf8(value)
    } else {
        utf8_lossy(value)
    }
}

/// Whether some pair has the name.
pub open spec fn has_name(pairs: Seq<(Seq<char>, Seq<char>)>, name: Seq<char>) -> bool {
    exists|k: int| 0 <= k < pairs.len() && (#[trigger] pairs[k]).0 == name
}

/// Whether the pair is the wire form of the header of its name with the
/// given value.
pub open spec fn is_wire_form_of(
    pair: (Seq<char>, Seq<char>),
    headers: Multiset<Header>,
    value: Seq<u8>,
) -> bool {
    headers.contains((pair.0, value)) && pair.1 == wire_text(value)
}

/// Whether the pair is the wire form of one of the headers.
pub open spec fn is_wire_form(pair: (Seq<char>, Seq<char>), headers: Multiset<Header>) -> bool {
    exists|value: Seq<u8>| is_wire_form_of(pair, headers, value)
}

/// Whether the pairs are headers as they go on the wire, which keeps one
/// value for each name: every name of the headers has its pair, and every
/// pair is the wire form of a header.
pub open spec fn headers_on_wire(
    headers: Multiset<Header>,
    pairs: Seq<(Seq<char>, Seq<char>)>,
) -> bool {
    &&& distinct_names(pairs)
    &&& forall|k: int| 0 <= k < pairs.len() ==> is_wire_form(#[trigger] pairs[k], headers)
    &&& forall|header: Header| #[trigger]
        headers.contains(header) ==> has_name(pairs, header.0)
}

/// The value of the last header of a name, in a list of headers.
pub open spec fn last_value(order: Seq<Header>, name: Seq<char>) -> Option<Seq<u8>>
    decreases order.len(),
{
    if order.len() == 0 {
        None
    } else if order.last().0 == name {
        Some(order.last().1)
    } else {
        last_value(order.drop_last(), name)
    }
}

/// Whether the pair is the wire form of the last header of its name.
pub open spec fn is_last_value(order: Seq<Header>, pair: (Seq<char>, Seq<char>)) -> bool {
    last_value(order, pair.0) matches Some(value) && pair.1 == wire_text(value)
}

/// Whether each pair stands for the last header of its name: of the values
/// of one name, the wire keeps the one that the header map hands out last.
pub open spec fn last_values_on_wire(
    order: Seq<Header>,
    pairs: Seq<(Seq<char>, Seq<char>)>,
) -> bool {
    forall|k: int| 0 <= k < pairs.len() ==> is_last_value(order, #[trigger] pairs[k])
}

/// Convert the headers of a message into the pairs of the wire, one for
/// each name: of the values of one name, the one that the header map hands
/// out last.
pub fn headermap_to_hashmap(headers: &http::HeaderMap) -> (r: Vec<(String, String)>)
    ensures
        headers_on_wire(header_entries(*headers), text_pairs(r@)),
        last_values_on_wire(header_order(*headers), text_pairs(r@)),
{
    let pairs = header_pairs(headers);
    let ghost src = header_views(pairs@);
    let ghost entries = header_entries(*headers);
    proof {
        src.to_multiset_ensures();
    }
    let mut out: Vec<(String, String)> = Vec::new();
    let mut i: usize = 0;
    while i < pairs.len()
        invariant
            i <= pairs.len(),
            src == header_views(pairs@),
            src.len() == pairs.len(),
            entries == src.to_multiset(),
            forall|h: Header| src.contains(h) <==> #[trigger] entries.count(h) > 0,
            distinct_names(text_pairs(out@)),
            forall|k: int|
                0 <= k < out.len() ==> is_wire_form(#[trigger] text_pairs(out@)[k], entries),
            forall|j: int| 0 <= j < i ==> has_name(text_pairs(out@), (#[trigger] src[j]).0),
            last_values_on_wire(src.take(i as int), text_pairs(out@)),
        decreases pairs.len() - i,
    {
        let name = pairs[i].0.clone();
        let value = string_from_utf8_lossy(pairs[i].1.as_slice());
        let ghost header = src[i as int];
        let ghost old_out = text_pairs(out@);
        proof {
            assert(header == (pairs[i as int].0@, pairs[i as int].1@));
            assert(src.contains(header));
            assert(entries.contains((name@, header.1)));
            assert(is_wire_form_of((name@, value@), entries, header.1));
            assert(src.take(i + 1).drop_last() == src.take(i as int));
            assert(src.take(i + 1).last() == header);
            assert(is_last_value(src.take(i + 1), (name@, value@)));
            assert forall|m: int| 0 <= m < old_out.len() && (#[trigger] old_out[m]).0
                != name@ implies is_last_value(src.take(i + 1), old_out[m]) by {
                assert(is_last_value(src.take(i as int), old_out[m]));
            }
        }
        let mut k: usize = 0;
        while k < out.len() && !(out[k].0 == name)
            invariant
                k <= out.len(),
                forall|m: int| 0 <= m < k ==> (#[trigger] text_pairs(out@)[m]).0 != name@,
            decreases out.len() - k,
        {
            k += 1;
        }
        if k < out.len() {
            out.set(k, (name, value));
            proof {
                let new_out = text_pairs(out@);
                assert(new_out == old_out.update(k as int, (name@, value@)));
                assert(old_out[k as int].0 == name@);
                assert forall|m: int| 0 <= m < new_out.len() implies is_last_value(
                    src.take(i + 1),
                    #[trigger] new_out[m],
                ) by {
                    if m != k {
                        assert(new_out[m] == old_out[m]);
                        if m < k {
                            assert(old_out[m].0 != old_out[k as int].0);
                        } else {
                            assert(old_out[k as int].0 != old_out[m].0);
                        }
                    }
                }
                assert forall|j: int| 0 <= j <= i implies has_name(
                    new_out,
                    (#[trigger] src[j]).0,
                ) by {
                    if j < i {
                        let w = choose|w: int|
                            0 <= w < old_out.len() && (#[trigger] old_out[w]).0 == src[j].0;
                        assert(new_out[w].0 == src[j].0);
                    } else {
                        assert(new_out[k as int].0 == src[j].0);
                    }
                }
            }
        } else {
            out.push((name, value));
            proof {
                let new_out = text_pairs(out@);
                assert(new_out == old_out.push((name@, value@)));
                assert forall|m: int| 0 <= m < new_out.len() implies is_last_value(
                    src.take(i + 1),
                    #[trigger] new_out[m],
                ) by {
                    if m < old_out.len() {
                        assert(new_out[m] == old_out[m]);
                    }
                }
                assert forall|j: int| 0 <= j <= i implies has_name(
                    new_out,
                    (#[trigger] src[j]).0,
                ) by {
                    if j < i {
                        let w = choose|w: int|
                            0 <= w < old_out.len() && (#[trigger] old_out[w]).0 == src[j].0;
                        assert(new_out[w].0 == src[j].0);
                    } else {
                        assert(new_out[old_out.len() as int].0 == src[j].0);
                    }
                }
            }
        }
        i += 1;
    }
    proof {
        assert(src.take(i as int) == src);
        assert forall|header: Header| #[trigger] entries.contains(header) implies has_name(
            text_pairs(out@),
            header.0,
        ) by {
            assert(src.contains(header));
            let j = choose|j: int| 0 <= j < src.len() && src[j] == header;
            assert(has_name(text_pairs(out@), src[j].0));
        }
    }
    out
}

/// Whether a wire request is what a request becomes on the wire.
pub open spec fn request_on_wire(request: HttpRequestView, wire: WireHttpRequest) -> bool {
    &&& wire.path == request.path
    &&& wire.method == request.method
    &&& wire.query_string == request.query_string
    &&& headers_on_wire(request.headers, wire.headers)
    &&& wire.body == request.body
    &&& wire.port == request.port
}

/// Whether a wire response is what a response becomes on the wire.
pub open spec fn response_on_wire(response: HttpResponseView, wire: WireHttpResponse) -> bool {
    &&& wire.status_code == response.status_code
    &&& headers_on_wire(response.headers, wire.headers)
    &&& wire.body == response.body
}

/// Whether a wire message is what an HTTP message becomes on the wire.
pub open spec fn http_on_wire(http: HttpView, wire: WireHttp) -> bool {
    &&& wire.request_id == http.request_id
    &&& match http.http_msg {
        HttpMessageView::Request(request) => wire.message matches Some(
            WireHttpMessage::Request(on_wire),
        ) && request_on_wire(request, on_wire),
        HttpMessageView::Response(response) => wire.message matches Some(
            WireHttpMessage::Response(on_wire),
        ) && response_on_wire(response, on_wire),
    }
}

impl HttpMessage {
    /// The headers of the message in the order of its header map.
    pub open spec fn header_order(self) -> Seq<Header> {
        match self {
            HttpMessage::Request(request) => header_order(request.headers),
            HttpMessage::Response(response) => header_order(response.headers),
        }
    }
}

impl ProtobufHttpRequest {
    /// The wire request of a request; of the values of one header name, it
    /// holds the last.
    pub fn from(http_req: HttpRequest) -> (r: Self)
        ensures
            request_on_wire(http_req@, r@),
            last_values_on_wire(header_order(http_req.headers), r@.headers),
    {
        let headers = headermap_to_hashmap(&http_req.headers);
        Self {
            path: http_req.path,
            method: http_req.method,
            query_string: http_req.query_string,
            headers,
            body: http_req.body,
            port: u32::from(http_req.port),
        }
    }
}

impl ProtobufHttpResponse {
    /// The wire response of a response; of the values of one header name,
    /// it holds the last.
    pub fn from(http_res: HttpResponse) -> (r: Self)
        ensures
            response_on_wire(http_res@, r@),
            last_values_on_wire(header_order(http_res.headers), r@.headers),
    {
        let headers = headermap_to_hashmap(&http_res.headers);
        Self { status_code: u32::from(http_res.status_code), headers, body: http_res.body }
    }
}

impl ProtobufHttp {
    /// The wire message of an HTTP message; of the values of one header
    /// name, it holds the last.
    pub fn from(value: Http) -> (r: Self)
        ensures
            http_on_wire(value@, r@),
            r@.message matches Some(message) && last_values_on_wire(
                value.http_msg.header_order(),
                message.headers(),
            ),
    {
        let message = match value.http_msg {
            HttpMessage::Request(req) => {
                let proto_req = ProtobufHttpRequest::from(req);
                ProtobufHttpMessage::Request(proto_req)
            },
            HttpMessage::Response(res) => {
                let proto_res = ProtobufHttpResponse::from(res);
                ProtobufHttpMessage::Response(proto_res)
            },
        };
        Self { request_id: value.request_id.into_bytes(), message: Some(message) }
    }
}

} // verus!
