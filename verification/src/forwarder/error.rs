//! Errors of the forwarder codec.

use vstd::prelude::*;

verus! {

/// `prost::EncodeError`: the buffer handed to the encoder was too small.
#[verifier::external_type_specification]
#[verifier::external_body]
pub struct ExEncodeError(edgehog_device_forwarder_proto::prost::EncodeError);

/// `prost::DecodeError`: the bytes are no message of the expected shape.
#[verifier::external_type_specification]
#[verifier::external_body]
pub struct ExDecodeError(edgehog_device_forwarder_proto::prost::DecodeError);

/// `reqwest::Error`: a failure of the HTTP client.
#[verifier::external_type_specification]
#[verifier::external_body]
pub struct ExReqwestError(reqwest::Error);

/// `url::ParseError`: a text that is no URL.
#[verifier::external_type_specification]
#[verifier::external_body]
pub struct ExParseError(url::ParseError);

/// `http::method::InvalidMethod`: a text that is no HTTP method.
#[verifier::external_type_specification]
#[verifier::external_body]
pub struct ExInvalidMethod(http::method::InvalidMethod);

/// `http::uri::InvalidUri`: a text that is no URI.
#[verifier::external_type_specification]
#[verifier::external_body]
pub struct ExInvalidUri(http::uri::InvalidUri);

/// `http::Error`: any failure of the `http` crate.
#[verifier::external_type_specification]
#[verifier::external_body]
pub struct ExHttpError(http::Error);

/// `http::status::InvalidStatusCode`: a number that is no HTTP status.
#[verifier::external_type_specification]
#[verifier::external_body]
pub struct ExInvalidStatusCode(http::status::InvalidStatusCode);

/// `http::header::ToStrError`: a header value that is no visible ASCII.
#[verifier::external_type_specification]
#[verifier::external_body]
pub struct ExToStrError(http::header::ToStrError);

/// `tungstenite::Error`: a failure of the WebSocket client.
#[verifier::external_type_specification]
#[verifier::external_body]
pub struct ExTungError(tokio_tungstenite::tungstenite::Error);

/// What can go wrong while handling a forwarder message.
#[derive(Debug)]
#[non_exhaustive]
pub enum ProtocolError {
    /// Failed to serialize into Protobuf.
    Encode(edgehog_device_forwarder_proto::prost::EncodeError),
    /// Failed to deserialize from Protobuf.
    Decode(edgehog_device_forwarder_proto::prost::DecodeError),
    /// Empty fields.
    Empty,
    /// Reqwest error.
    Reqwest(reqwest::Error),
    /// Error parsing URL.
    ParseUrl(url::ParseError),
    /// Wrong HTTP method field.
    InvalidHttpMethod(http::method::InvalidMethod),
    /// Invalid Uri.
    InvalidUri(http::uri::InvalidUri),
    /// Http error.
    Http(http::Error),
    /// Invalid HTTP status code.
    InvalidStatusCode(http::status::InvalidStatusCode),
    /// Error while parsing Headers.
    ParseHeaders(http::header::ToStrError),
    /// Invalid port number.
    InvalidPortNumber(std::num::TryFromIntError),
    /// Wrong HTTP method field, with the field.
    WrongHttpMethod(String),
    /// The WebSocket connection could not be made.
    WebSocketConnect(tokio_tungstenite::tungstenite::Error),
    /// Received a wrong WebSocket frame.
    WrongWsFrame,
}

/// The variant of a [`ProtocolError`], without what it carries.
pub enum ErrorKind {
    Encode,
    Decode,
    Empty,
    Reqwest,
    ParseUrl,
    InvalidHttpMethod,
    InvalidUri,
    Http,
    InvalidStatusCode,
    ParseHeaders,
    InvalidPortNumber,
    WrongHttpMethod,
    WebSocketConnect,
    WrongWsFrame,
}

impl ProtocolError {
    /// Which variant this error is.
    pub open spec fn kind(self) -> ErrorKind {
        match self {
            ProtocolError::Encode(_) => ErrorKind::Encode,
            ProtocolError::Decode(_) => ErrorKind::Decode,
            ProtocolError::Empty => ErrorKind::Empty,
            ProtocolError::Reqwest(_) => ErrorKind::Reqwest,
            ProtocolError::ParseUrl(_) => ErrorKind::ParseUrl,
            ProtocolError::InvalidHttpMethod(_) => ErrorKind::InvalidHttpMethod,
            ProtocolError::InvalidUri(_) => ErrorKind::InvalidUri,
            ProtocolError::Http(_) => ErrorKind::Http,
            ProtocolError::InvalidStatusCode(_) => ErrorKind::InvalidStatusCode,
            ProtocolError::ParseHeaders(_) => ErrorKind::ParseHeaders,
            ProtocolError::InvalidPortNumber(_) => ErrorKind::InvalidPortNumber,
            ProtocolError::WrongHttpMethod(_) => ErrorKind::WrongHttpMethod,
            ProtocolError::WebSocketConnect(_) => ErrorKind::WebSocketConnect,
            ProtocolError::WrongWsFrame => ErrorKind::WrongWsFrame,
        }
    }
}

} // verus!
