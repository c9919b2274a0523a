//! What holds of the decoder, of receiving and of sending, whatever the
//! frames and values are.

use crate::error::WsError;
use crate::frame::{frame_outcome, outcome_of, RawFrame};
use crate::inflate::{inflated_text, io_error_text};
use crate::json::{canonical_text, parsed_text};
use crate::stream::{polled_outcome, Polled};
use serde_json::Value;
use vstd::prelude::*;

verus! {

/// The JSON layer reads the value back from the text that it prints for
/// it. This is a property of the JSON layer, which the laws of the round
/// trip take as their premise.
pub open spec fn reads_back(value: Value) -> bool {
    parsed_text(canonical_text(value)) is Ok && parsed_text(canonical_text(value))->Ok_0
        == canonical_text(value)
}

/// Round trip through a text frame: where `text` is what sending `value`
/// transmits, and the JSON layer reads `value` back from its own text,
/// decoding the text frame yields a value, and it is `value`, told by its
/// canonical text.
pub proof fn lemma_text_round_trip(
    value: Value,
    text: String,
    decoded: Result<Option<Value>, WsError>,
)
    requires
        text@ == canonical_text(value),
        reads_back(value),
        outcome_of(decoded) == frame_outcome(Some(RawFrame::Text(text))),
    ensures
        decoded matches Ok(Some(back)) && canonical_text(back) == canonical_text(value),
{
}

/// Round trip through a binary frame: where `bytes` inflate to the
/// canonical text of `value`, and the JSON layer reads `value` back from
/// its own text, decoding the binary frame yields a value, and it is
/// `value`, told by its canonical text.
pub proof fn lemma_binary_round_trip(
    value: Value,
    bytes: Vec<u8>,
    decoded: Result<Option<Value>, WsError>,
)
    requires
        inflated_text(bytes@) is Ok,
        inflated_text(bytes@)->Ok_0 == canonical_text(value),
        reads_back(value),
        outcome_of(decoded) == frame_outcome(Some(RawFrame::Binary(bytes))),
    ensures
        decoded matches Ok(Some(back)) && canonical_text(back) == canonical_text(value),
{
}

/// A binary frame whose bytes do not inflate to text decodes to a
/// decompression error: never to a value, never to no data.
pub proof fn lemma_corrupt_stream_fails(bytes: Vec<u8>, decoded: Result<Option<Value>, WsError>)
    requires
        inflated_text(bytes@) is Err,
        outcome_of(decoded) == frame_outcome(Some(RawFrame::Binary(bytes))),
    ensures
        decoded matches Err(WsError::Decompression(cause)) && io_error_text(cause)
            == inflated_text(bytes@)->Err_0,
{
}

/// Keep-alive frames, fragments and a close without a reason decode to no
/// data, whatever they carry.
pub proof fn lemma_frames_without_payload(frame: RawFrame, decoded: Result<Option<Value>, WsError>)
    requires
        frame is Ping || frame is Pong || frame is Continuation || frame == RawFrame::Close(None),
        outcome_of(decoded) == frame_outcome(Some(frame)),
    ensures
        decoded is Ok,
        decoded->Ok_0 is None,
{
}

/// A close with a reason decodes to the closure error that carries its
/// code and its reason.
pub proof fn lemma_close_with_reason(
    code: u16,
    reason: String,
    frame: RawFrame,
    decoded: Result<Option<Value>, WsError>,
)
    requires
        frame matches RawFrame::Close(Some(signal)) && signal@ == (code, reason@),
        outcome_of(decoded) == frame_outcome(Some(frame)),
    ensures
        decoded matches Err(WsError::Closed(signal)) && signal.code == code && signal.reason@
            == reason@,
{
}

/// A wait that elapsed, and a stream that ended, are no data and no error.
pub proof fn lemma_quiet_wait_is_no_data(
    polled: Polled,
    received: Result<Option<Value>, WsError>,
)
    requires
        polled is TimedOut || polled is Ended,
        outcome_of(received) == polled_outcome(Some(polled)),
    ensures
        received is Ok,
        received->Ok_0 is None,
{
}

/// A receive returns a value only where a frame arrived whose payload
/// decodes in full: a text, or a binary frame that inflates to a text,
/// which the JSON layer reads as that value.
pub proof fn lemma_value_only_from_full_decode(
    polled: Polled,
    received: Result<Option<Value>, WsError>,
)
    requires
        outcome_of(received) == polled_outcome(Some(polled)),
        received matches Ok(Some(_)),
    ensures
        polled matches Polled::Frame(frame) && match frame {
            RawFrame::Text(text) => parsed_text(text@) is Ok && parsed_text(text@)->Ok_0
                == canonical_text(received->Ok_0->Some_0),
            RawFrame::Binary(bytes) => inflated_text(bytes@) matches Ok(text) && parsed_text(text) is Ok
                && parsed_text(text)->Ok_0 == canonical_text(received->Ok_0->Some_0),
            _ => false,
        },
{
}

} // verus!
