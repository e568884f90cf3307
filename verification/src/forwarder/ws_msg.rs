//! WebSocket messages and their frames.

use crate::forwarder::error::{ErrorKind, ProtocolError};
use crate::forwarder::id::Id;
use crate::forwarder::wire::{
    ProtobufWebSocket, ProtobufWsClose, ProtobufWsMessage, WireWebSocket, WireWsMessage,
};
use tokio_tungstenite::tungstenite::protocol::CloseFrame as TungClose;
use tokio_tungstenite::tungstenite::Message as Tung;
use vstd::prelude::*;

verus! {

/// `tungstenite::Message`: a message of the WebSocket client.
#[verifier::external_type_specification]
#[verifier::external_body]
pub struct ExTungMessage(tokio_tungstenite::tungstenite::Message);

/// The close code that stands for a normal closure.
pub const NORMAL_CLOSURE: u16 = 1000;

/// Code and reason of a close frame.
#[derive(Debug, Clone, PartialEq, Eq)]
pub struct CloseFrame {
    pub code: u16,
    pub reason: String,
}

/// A frame as the WebSocket client hands it over or takes it.
#[derive(Debug, Clone, PartialEq, Eq)]
pub enum WsFrame {
    Text(String),
    Binary(Vec<u8>),
    Ping(Vec<u8>),
    Pong(Vec<u8>),
    Close(Option<CloseFrame>),
}

/// What a [`WsFrame`] holds.
pub enum WsFrameView {
    Text(Seq<char>),
    Binary(Seq<u8>),
    Ping(Seq<u8>),
    Pong(Seq<u8>),
    Close(Option<(u16, Seq<char>)>),
}

impl View for WsFrame {
    type V = WsFrameView;

    open spec fn view(&self) -> WsFrameView {
        match *self {
            WsFrame::Text(data) => WsFrameView::Text(data@),
            WsFrame::Binary(data) => WsFrameView::Binary(data@),
            WsFrame::Ping(data) => WsFrameView::Ping(data@),
            WsFrame::Pong(data) => WsFrameView::Pong(data@),
            WsFrame::Close(Some(frame)) => WsFrameView::Close(Some((frame.code, frame.reason@))),
            WsFrame::Close(None) => WsFrameView::Close(None),
        }
    }
}

/// The frame that a message of the WebSocket client holds, with the number
/// of its close code; none, where the message is a raw frame.
pub uninterp spec fn tung_frame(message: tokio_tungstenite::tungstenite::Message) -> Option<
    WsFrameView,
>;

/// Takes the fields out of a `tungstenite::Message`; the close code becomes
/// its number by `u16::from`. A raw frame gives `None`.
#[verifier::external_body]
pub(crate) fn open_tung(message: tokio_tungstenite::tungstenite::Message) -> (r: Option<WsFrame>)
    ensures
        r is None <==> tung_frame(message) is None,
        r matches Some(frame) ==> tung_frame(message) == Some(frame@),
{
    match message {
        Tung::Text(data) => Some(WsFrame::Text(data)),
        Tung::Binary(data) => Some(WsFrame::Binary(data)),
        Tung::Ping(data) => Some(WsFrame::Ping(data)),
        Tung::Pong(data) => Some(WsFrame::Pong(data)),
        Tung::Close(frame) => Some(
            WsFrame::Close(
                frame.map(|f| CloseFrame { code: f.code.into(), reason: f.reason.into_owned() }),
            ),
        ),
        Tung::Frame(_) => None,
    }
}

/// Makes a `tungstenite::Message` of a frame; the number of a close frame
/// becomes its close code by `CloseCode::from`, which `u16::from` turns back
/// into the same number. The message holds the frame it was made of.
#[verifier::external_body]
pub(crate) fn seal_tung(frame: WsFrame) -> (r: tokio_tungstenite::tungstenite::Message)
    ensures
        tung_frame(r) == Some(frame@),
{
    match frame {
        WsFrame::Text(data) => Tung::Text(data),
        WsFrame::Binary(data) => Tung::Binary(data),
        WsFrame::Ping(data) => Tung::Ping(data),
        WsFrame::Pong(data) => Tung::Pong(data),
        WsFrame::Close(frame) => Tung::Close(
            frame.map(|f| TungClose { code: f.code.into(), reason: f.reason.into() }),
        ),
    }
}

/// [`WebSocket`] message type.
#[derive(Debug, Clone, PartialEq, Eq)]
pub enum WebSocketMessage {
    Text(String),
    Binary(Vec<u8>),
    Ping(Vec<u8>),
    Pong(Vec<u8>),
    Close { code: u16, reason: Option<String> },
}

/// What a [`WebSocketMessage`] holds.
pub enum WsMessageView {
    Text(Seq<char>),
    Binary(Seq<u8>),
    Ping(Seq<u8>),
    Pong(Seq<u8>),
    Close { code: u16, reason: Option<Seq<char>> },
}

impl View for WebSocketMessage {
    type V = WsMessageView;

    open spec fn view(&self) -> WsMessageView {
        match *self {
            WebSocketMessage::Text(data) => WsMessageView::Text(data@),
            WebSocketMessage::Binary(data) => WsMessageView::Binary(data@),
            WebSocketMessage::Ping(data) => WsMessageView::Ping(data@),
            WebSocketMessage::Pong(data) => WsMessageView::Pong(data@),
            WebSocketMessage::Close { code, reason: Some(reason) } => WsMessageView::Close {
                code,
                reason: Some(reason@),
            },
            WebSocketMessage::Close { code, reason: None } => WsMessageView::Close {
                code,
                reason: None,
            },
        }
    }
}

/// The message that a frame of the client carries; a close without a frame
/// is a normal closure without a reason.
pub open spec fn message_of_frame(frame: WsFrameView) -> WsMessageView {
    match frame {
        WsFrameView::Text(data) => WsMessageView::Text(data),
        WsFrameView::Binary(data) => WsMessageView::Binary(data),
        WsFrameView::Ping(data) => WsMessageView::Ping(data),
        WsFrameView::Pong(data) => WsMessageView::Pong(data),
        WsFrameView::Close(Some((code, reason))) => WsMessageView::Close {
            code,
            reason: Some(reason),
        },
        WsFrameView::Close(None) => WsMessageView::Close { code: NORMAL_CLOSURE, reason: None },
    }
}

/// The frame by which a message is sent; a close without a reason has the
/// empty reason.
pub open spec fn frame_of_message(message: WsMessageView) -> WsFrameView {
    match message {
        WsMessageView::Text(data) => WsFrameView::Text(data),
        WsMessageView::Binary(data) => WsFrameView::Binary(data),
        WsMessageView::Ping(data) => WsFrameView::Ping(data),
        WsMessageView::Pong(data) => WsFrameView::Pong(data),
        WsMessageView::Close { code, reason: Some(reason) } => WsFrameView::Close(
            Some((code, reason)),
        ),
        WsMessageView::Close { code, reason: None } => WsFrameView::Close(
            Some((code, Seq::<char>::empty())),
        ),
    }
}

/// Close frame default: a close without a frame is a normal closure
/// without a reason.
pub proof fn lemma_close_without_frame()
    ensures
        message_of_frame(WsFrameView::Close(None)) == (WsMessageView::Close {
            code: 1000,
            reason: None,
        }),
{
}

impl WebSocketMessage {
    /// Create a text frame.
    pub fn text(data: String) -> (r: Self)
        ensures
            r == WebSocketMessage::Text(data),
    {
        Self::Text(data)
    }

    /// Create a binary frame.
    pub fn binary(data: Vec<u8>) -> (r: Self)
        ensures
            r == WebSocketMessage::Binary(data),
    {
        Self::Binary(data)
    }

    /// Create a ping frame.
    pub fn ping(data: Vec<u8>) -> (r: Self)
        ensures
            r == WebSocketMessage::Ping(data),
    {
        Self::Ping(data)
    }

    /// Create a pong frame.
    pub fn pong(data: Vec<u8>) -> (r: Self)
        ensures
            r == WebSocketMessage::Pong(data),
    {
        Self::Pong(data)
    }

    /// Create a close frame.
    pub fn close(code: u16, reason: Option<String>) -> (r: Self)
        ensures
            r == (WebSocketMessage::Close { code, reason }),
    {
        Self::Close { code, reason }
    }

    /// The message that the client received. `None` stands for a raw frame,
    /// which no peer sends and which is refused.
    pub fn try_from(frame: Option<WsFrame>) -> (r: Result<Self, ProtocolError>)
        ensures
            frame is None ==> r == Err::<Self, ProtocolError>(ProtocolError::WrongWsFrame),
            frame matches Some(f) ==> r is Ok && r->Ok_0@ == message_of_frame(f@),
    {
        let msg = match frame {
            Some(WsFrame::Text(data)) => WebSocketMessage::text(data),
            Some(WsFrame::Binary(data)) => WebSocketMessage::binary(data),
            Some(WsFrame::Ping(data)) => WebSocketMessage::ping(data),
            Some(WsFrame::Pong(data)) => WebSocketMessage::pong(data),
            Some(WsFrame::Close(data)) => {
                let (code, reason) = match data {
                    Some(close_frame) => (close_frame.code, Some(close_frame.reason)),
                    None => (NORMAL_CLOSURE, None),
                };
                WebSocketMessage::close(code, reason)
            },
            None => {
                return Err(ProtocolError::WrongWsFrame);
            },
        };
        Ok(msg)
    }

    /// The message of the WebSocket client that sends this message: it
    /// holds the frame that [`WebSocketMessage::into_frame`] gives, and is
    /// never a raw frame.
    pub fn into_tung(self) -> (r: tokio_tungstenite::tungstenite::Message)
        ensures
            tung_frame(r) == Some(frame_of_message(self@)),
    {
        seal_tung(self.into_frame())
    }

    /// The frame by which the client sends this message.
    pub fn into_frame(self) -> (r: WsFrame)
        ensures
            r@ == frame_of_message(self@),
    {
        match self {
            WebSocketMessage::Text(data) => WsFrame::Text(data),
            WebSocketMessage::Binary(data) => WsFrame::Binary(data),
            WebSocketMessage::Ping(data) => WsFrame::Ping(data),
            WebSocketMessage::Pong(data) => WsFrame::Pong(data),
            WebSocketMessage::Close { code, reason } => {
                let reason = match reason {
                    Some(reason) => reason,
                    None => String::new(),
                };
                WsFrame::Close(Some(CloseFrame { code, reason }))
            },
        }
    }
}

/// WebSocket request fields.
#[derive(Debug, Clone, PartialEq, Eq)]
pub struct WebSocket {
    pub socket_id: Id,
    pub message: WebSocketMessage,
}

/// What a [`WebSocket`] holds.
pub struct WebSocketView {
    pub socket_id: Seq<u8>,
    pub message: WsMessageView,
}

impl View for WebSocket {
    type V = WebSocketView;

    open spec fn view(&self) -> WebSocketView {
        WebSocketView { socket_id: self.socket_id@, message: self.message@ }
    }
}

/// The frame that a wire frame stands for, when its close code fits sixteen
/// bits; an empty reason is no reason.
pub open spec fn message_from_wire(wire: WireWsMessage) -> Result<WsMessageView, ErrorKind> {
    match wire {
        WireWsMessage::Text(data) => Ok(WsMessageView::Text(data)),
        WireWsMessage::Binary(data) => Ok(WsMessageView::Binary(data)),
        WireWsMessage::Ping(data) => Ok(WsMessageView::Ping(data)),
        WireWsMessage::Pong(data) => Ok(WsMessageView::Pong(data)),
        WireWsMessage::Close { code, reason } => if code > u16::MAX {
            Err(ErrorKind::InvalidPortNumber)
        } else {
            Ok(
                WsMessageView::Close {
                    code: code as u16,
                    reason: if reason.len() == 0 {
                        None
                    } else {
                        Some(reason)
                    },
                },
            )
        },
    }
}

/// The wire frame of a frame; no reason is the empty reason.
pub open spec fn message_to_wire(message: WsMessageView) -> WireWsMessage {
    match message {
        WsMessageView::Text(data) => WireWsMessage::Text(data),
        WsMessageView::Binary(data) => WireWsMessage::Binary(data),
        WsMessageView::Ping(data) => WireWsMessage::Ping(data),
        WsMessageView::Pong(data) => WireWsMessage::Pong(data),
        WsMessageView::Close { code, reason } => WireWsMessage::Close {
            code: code as u32,
            reason: match reason {
                Some(reason) => reason,
                None => Seq::<char>::empty(),
            },
        },
    }
}

/// The WebSocket message that a wire message stands for: the frame must be
/// there, its close code must fit, and the socket must be named.
pub open spec fn web_socket_from_wire(wire: WireWebSocket) -> Result<WebSocketView, ErrorKind> {
    match wire.message {
        None => Err(ErrorKind::Empty),
        Some(frame) => match message_from_wire(frame) {
            Err(kind) => Err(kind),
            Ok(message) => if wire.socket_id.len() == 0 {
                Err(ErrorKind::Empty)
            } else {
                Ok(WebSocketView { socket_id: wire.socket_id, message })
            },
        },
    }
}

/// The wire message of a WebSocket message.
pub open spec fn web_socket_to_wire(ws: WebSocketView) -> WireWebSocket {
    WireWebSocket { socket_id: ws.socket_id, message: Some(message_to_wire(ws.message)) }
}

/// Whether the message keeps its meaning on the wire: a close frame with the
/// empty reason would come back as one without a reason.
pub open spec fn web_socket_survives_wire(ws: WebSocketView) -> bool {
    &&& ws.socket_id.len() > 0
    &&& ws.message matches WsMessageView::Close { reason: Some(reason), .. } ==> reason.len() > 0
}

/// A WebSocket message that is put on the wire and taken from it again is
/// the message it was.
pub proof fn lemma_web_socket_round_trip(ws: WebSocketView)
    requires
        web_socket_survives_wire(ws),
    ensures
        web_socket_from_wire(web_socket_to_wire(ws)) == Ok::<WebSocketView, ErrorKind>(ws),
{
}

impl WebSocket {
    /// Checks a wire message and takes it over.
    pub fn try_from(value: ProtobufWebSocket) -> (r: Result<Self, ProtocolError>)
        ensures
            match web_socket_from_wire(value@) {
                Ok(ws) => r is Ok && r->Ok_0@ == ws,
                Err(kind) => r is Err && r->Err_0.kind() == kind,
            },
    {
        let ProtobufWebSocket { socket_id, message } = value;
        let msg = match message {
            Some(msg) => msg,
            None => {
                return Err(ProtocolError::Empty);
            },
        };
        let message = match msg {
            ProtobufWsMessage::Text(data) => WebSocketMessage::text(data),
            ProtobufWsMessage::Binary(data) => WebSocketMessage::binary(data),
            ProtobufWsMessage::Ping(data) => WebSocketMessage::ping(data),
            ProtobufWsMessage::Pong(data) => WebSocketMessage::pong(data),
            ProtobufWsMessage::Close(close) => {
                let code = match u16::try_from(close.code) {
                    Ok(code) => code,
                    Err(e) => {
                        return Err(ProtocolError::InvalidPortNumber(e));
                    },
                };
                let reason = if close.reason.as_str().is_empty() {
                    None
                } else {
                    Some(close.reason)
                };
                WebSocketMessage::close(code, reason)
            },
        };
        let socket_id = match Id::try_from(socket_id) {
            Ok(id) => id,
            Err(e) => {
                return Err(e);
            },
        };
        Ok(Self { socket_id, message })
    }

    /// The wire message of this message.
    pub fn into_wire(self) -> (r: ProtobufWebSocket)
        ensures
            r@ == web_socket_to_wire(self@),
    {
        let ws_message = match self.message {
            WebSocketMessage::Text(data) => ProtobufWsMessage::Text(data),
            WebSocketMessage::Binary(data) => ProtobufWsMessage::Binary(data),
            WebSocketMessage::Ping(data) => ProtobufWsMessage::Ping(data),
            WebSocketMessage::Pong(data) => ProtobufWsMessage::Pong(data),
            WebSocketMessage::Close { code, reason } => ProtobufWsMessage::Close(
                ProtobufWsClose {
                    code: u32::from(code),
                    reason: match reason {
                        Some(reason) => reason,
                        None => String::new(),
                    },
                },
            ),
        };
        ProtobufWebSocket { socket_id: self.socket_id.into_bytes(), message: Some(ws_message) }
    }
}

impl ProtobufWebSocket {
    /// The wire message of a WebSocket message.
    pub fn from(ws: WebSocket) -> (r: Self)
        ensures
            r@ == web_socket_to_wire(ws@),
    {
        ws.into_wire()
    }
}

} // verus!
