//! Raw frames and the frame decoder.

use crate::error::{ClosureSignal, WsError};
use crate::inflate::{inflate, inflated_text, io_error_text};
use crate::json::{canonical_text, json_error_text, parse_json, parsed_text};
use serde_json::Value;
use vstd::prelude::*;

verus! {

/// One unit of data as the WebSocket engine hands it over.
#[derive(Clone, Debug, PartialEq, Eq)]
pub enum RawFrame {
    /// JSON text.
    Text(String),
    /// A raw zlib stream that holds JSON text.
    Binary(Vec<u8>),
    /// Keep-alive request; the engine answers it.
    Ping(Vec<u8>),
    /// Keep-alive answer.
    Pong(Vec<u8>),
    /// The remote end closes the connection, with or without a reason.
    Close(Option<ClosureSignal>),
    /// A fragment of a message; carries nothing for the caller.
    Continuation,
}

/// What a result of this crate amounts to for the caller. A structured
/// value is stood for by its canonical text, the cause of a decompression
/// or decode error by what it says.
pub enum Outcome {
    NoData,
    Data(Seq<char>),
    Closed((u16, Seq<char>)),
    Decompression(Seq<char>),
    Decode(Seq<char>),
    Transport(async_tungstenite::tungstenite::Error),
    Serialization(serde_json::Error),
    Handshake(async_tungstenite::tungstenite::http::Error),
}

/// The outcome that a result of this crate carries.
pub open spec fn outcome_of(r: Result<Option<Value>, WsError>) -> Outcome {
    match r {
        Ok(None) => Outcome::NoData,
        Ok(Some(value)) => Outcome::Data(canonical_text(value)),
        Err(WsError::Closed(signal)) => Outcome::Closed(signal@),
        Err(WsError::Decompression(why)) => Outcome::Decompression(io_error_text(why)),
        Err(WsError::Decode(why)) => Outcome::Decode(json_error_text(why)),
        Err(WsError::Transport(why)) => Outcome::Transport(why),
        Err(WsError::Serialization(why)) => Outcome::Serialization(why),
        Err(WsError::Handshake(why)) => Outcome::Handshake(why),
    }
}

/// What a payload text decodes to: the value that the JSON layer reads from
/// it, or a decode error with the cause that the JSON layer gives.
pub open spec fn text_outcome(text: Seq<char>) -> Outcome {
    match parsed_text(text) {
        Ok(canonical) => Outcome::Data(canonical),
        Err(cause) => Outcome::Decode(cause),
    }
}

/// What a frame, or the absence of one, decodes to.
pub open spec fn frame_outcome(frame: Option<RawFrame>) -> Outcome {
    match frame {
        Some(RawFrame::Text(text)) => text_outcome(text@),
        Some(RawFrame::Binary(bytes)) => match inflated_text(bytes@) {
            Ok(text) => text_outcome(text),
            Err(cause) => Outcome::Decompression(cause),
        },
        Some(RawFrame::Close(Some(signal))) => Outcome::Closed(signal@),
        _ => Outcome::NoData,
    }
}

/// Turns what the JSON layer made of a payload text into the decoder's
/// result: the value as it is, or a decode error around the cause.
pub fn decode_parsed(parsed: Result<Value, serde_json::Error>) -> (r: Result<Option<Value>, WsError>)
    ensures
        r == match parsed {
            Ok(value) => Ok::<Option<Value>, WsError>(Some(value)),
            Err(why) => Err(WsError::Decode(why)),
        },
{
    match parsed {
        Ok(value) => Ok(Some(value)),
        Err(why) => Err(WsError::Decode(why)),
    }
}

/// Decodes a payload text.
pub fn decode_text(text: &str) -> (r: Result<Option<Value>, WsError>)
    ensures
        outcome_of(r) == text_outcome(text@),
{
    decode_parsed(parse_json(text))
}

/// Decodes what decompression made of a binary frame: a decompression
/// error around the cause, or whatever the text decodes to.
pub fn decode_inflated(inflated: Result<String, std::io::Error>) -> (r: Result<Option<Value>, WsError>)
    ensures
        match inflated {
            Ok(text) => outcome_of(r) == text_outcome(text@),
            Err(why) => r == Err::<Option<Value>, WsError>(WsError::Decompression(why)),
        },
{
    match inflated {
        Ok(text) => decode_text(text.as_str()),
        Err(why) => Err(WsError::Decompression(why)),
    }
}

/// The frame decoder. No frame, and any frame without a payload, is
/// `Ok(None)`. A text frame is parsed; a binary frame is inflated first. A
/// close frame with a reason is the closure error that carries it.
pub fn convert_ws_message(message: Option<RawFrame>) -> (r: Result<Option<Value>, WsError>)
    ensures
        outcome_of(r) == frame_outcome(message),
        message matches Some(RawFrame::Close(Some(signal))) ==> r == Err::<Option<Value>, WsError>(
            WsError::Closed(signal),
        ),
{
    match message {
        Some(RawFrame::Binary(bytes)) => decode_inflated(inflate(&bytes)),
        Some(RawFrame::Text(payload)) => decode_text(payload.as_str()),
        Some(RawFrame::Close(Some(signal))) => Err(WsError::Closed(signal)),
        _ => Ok(None),
    }
}

} // verus!
