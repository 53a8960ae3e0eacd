use vstd::prelude::*;

verus! {

/// Errors surfaced by the client: connection setup failures, transport
/// send/receive failures on an established connection, and failures to
/// serialize an outgoing payload. Decode misses on inbound frames are not
/// errors; they surface as raw payloads instead.
#[derive(Debug)]
pub enum TonApiError {
    /// Websocket handshake or connection setup failed.
    Connection(String),
    /// Send or receive failed on an established connection.
    Transport(String),
    /// An outgoing payload could not be serialized.
    Serialization(String),
}

/// Result alias used throughout the client.
pub type TonApiResult<T> = Result<T, TonApiError>;

impl TonApiError {
    /// A short human-readable description of the error.
    pub fn describe(&self) -> (r: &str)
        ensures
            self matches TonApiError::Connection(_) ==> r@ == "connection error"@,
            self matches TonApiError::Transport(_) ==> r@ == "transport error"@,
            self matches TonApiError::Serialization(_) ==> r@ == "serialization error"@,
    {
        match self {
            TonApiError::Connection(_) => "connection error",
            TonApiError::Transport(_) => "transport error",
            TonApiError::Serialization(_) => "serialization error",
        }
    }
}

} // verus!
