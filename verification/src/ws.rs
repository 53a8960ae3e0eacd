use crate::error::TonApiResult;
use vstd::prelude::*;

verus! {

/// Configuration a transport needs to establish a session: the target
/// websocket URL.
pub struct WebSocketFacadeConfig {
    pub url: String,
}

/// Capability to establish a websocket session. A concrete transport
/// implements this over its own connection machinery; connection setup
/// failures surface as an error, never a panic.
pub trait WebSocketFacade: Sized {
    /// Establish a session against the configured URL.
    fn connect(config: WebSocketFacadeConfig) -> TonApiResult<Self>;
}

/// Capability to receive one textual frame at a time. A clean end of the
/// stream is `Ok(None)`, not an error.
pub trait WebSocketReadFacade {
    /// Wait for the next frame; `None` means the stream ended.
    fn recv(&mut self) -> TonApiResult<Option<String>>;
}

/// Capability to transmit one textual frame.
pub trait WebSocketWriteFacade {
    /// Transmit one textual frame; transport-level failures surface as an error.
    fn send(&mut self, message: String) -> TonApiResult<()>;
}

/// Capability to split a connection into independently owned read and write
/// halves. Splitting consumes the connection, so a connection can never be
/// split twice or used again in unsplit form.
pub trait WebSocketSplitFacade {
    type Read: WebSocketReadFacade;

    type Write: WebSocketWriteFacade;

    /// Consume the connection and yield its two halves.
    fn split(self) -> TonApiResult<(Self::Read, Self::Write)>;
}

/// One inbound websocket frame, as a transport hands it to the protocol
/// layer: a textual frame with its payload, or one of the non-textual frame
/// kinds, whose payload the protocol layer never sees.
#[derive(Debug)]
pub enum WsFrame {
    Text(String),
    Binary(Vec<u8>),
    Ping(Vec<u8>),
    Pong(Vec<u8>),
    Close,
    Frame,
}

/// The textual form a transport presents every inbound frame under: textual
/// frames pass through verbatim, every other frame kind is replaced by a
/// fixed sentinel token naming its kind. This normalization is lossy on
/// purpose: non-textual payloads are not exposed to the protocol layer.
pub open spec fn spec_frame_text(f: WsFrame) -> Seq<char> {
    match f {
        WsFrame::Text(t) => t@,
        WsFrame::Binary(_) => "binary"@,
        WsFrame::Ping(_) => "ping"@,
        WsFrame::Pong(_) => "pong"@,
        WsFrame::Close => "close"@,
        WsFrame::Frame => "frame"@,
    }
}

/// Normalize one inbound frame to its textual form.
pub fn frame_to_text(f: WsFrame) -> (r: String)
    ensures
        r@ == spec_frame_text(f),
{
    match f {
        WsFrame::Text(t) => t,
        WsFrame::Binary(_) => String::from_str("binary"),
        WsFrame::Ping(_) => String::from_str("ping"),
        WsFrame::Pong(_) => String::from_str("pong"),
        WsFrame::Close => String::from_str("close"),
        WsFrame::Frame => String::from_str("frame"),
    }
}

} // verus!
