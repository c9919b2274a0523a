//! The errors of the transport.

use vstd::prelude::*;

verus! {

/// `tungstenite::Error`, what the WebSocket engine reports when it fails to
/// send or to receive a frame.
#[verifier::external_type_specification]
#[verifier::external_body]
pub struct ExTransportError(async_tungstenite::tungstenite::Error);

/// Code and reason that the remote end gave when it closed the connection.
#[derive(Clone, Debug, PartialEq, Eq)]
pub struct ClosureSignal {
    pub code: u16,
    pub reason: String,
}

impl View for ClosureSignal {
    type V = (u16, Seq<char>);

    open spec fn view(&self) -> (u16, Seq<char>) {
        (self.code, self.reason@)
    }
}

/// Why a send or a receive failed.
#[derive(Debug)]
pub enum WsError {
    /// The engine failed to send or to receive a frame.
    Transport(async_tungstenite::tungstenite::Error),
    /// A binary frame held no valid zlib stream of text.
    Decompression(std::io::Error),
    /// The text of a frame was no structured value.
    Decode(serde_json::Error),
    /// The remote end closed the connection and said why. The connection is
    /// dead.
    Closed(ClosureSignal),
    /// The value to send could not be printed as text.
    Serialization(serde_json::Error),
    /// The handshake request could not be built.
    Handshake(async_tungstenite::tungstenite::http::Error),
}

} // verus!
