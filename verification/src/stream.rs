//! Receiving and sending structured values over an open connection.
//!
//! The caller drives the socket: it waits for a frame, for no longer than
//! `RECEIVE_WAIT_MILLIS`, and puts what came of the wait into an `Inbox`; it
//! transmits what an `Outbox` holds. What a wait amounts to, and what is
//! transmitted for a value, is decided here.

use crate::error::WsError;
use crate::frame::{convert_ws_message, frame_outcome, outcome_of, Outcome, RawFrame};
use crate::json::{canonical_text, json_error_text, print_json, printed_text};
use serde_json::Value;
use vstd::prelude::*;

verus! {

/// How long one receive waits for a frame, in milliseconds.
pub const RECEIVE_WAIT_MILLIS: u64 = 500;

/// What one bounded wait on the stream came to.
#[derive(Debug)]
pub enum Polled {
    /// A frame arrived in time.
    Frame(RawFrame),
    /// The engine failed while it fetched the frame.
    Failed(async_tungstenite::tungstenite::Error),
    /// The stream has ended.
    Ended,
    /// The wait elapsed with no frame.
    TimedOut,
}

/// What a receive returns for a wait: a failure of the engine is a transport
/// error, a frame is decoded, and the end of the stream and an elapsed wait
/// both count as no frame.
pub open spec fn polled_outcome(polled: Option<Polled>) -> Outcome {
    match polled {
        Some(Polled::Frame(frame)) => frame_outcome(Some(frame)),
        Some(Polled::Failed(why)) => Outcome::Transport(why),
        _ => frame_outcome(None),
    }
}

/// Decides what a receive returns for one wait on the stream.
pub fn receive(polled: Polled) -> (r: Result<Option<Value>, WsError>)
    ensures
        outcome_of(r) == polled_outcome(Some(polled)),
        polled matches Polled::Failed(why) ==> r == Err::<Option<Value>, WsError>(
            WsError::Transport(why),
        ),
{
    let frame = match polled {
        Polled::Frame(frame) => Some(frame),
        Polled::Failed(why) => {
            return Err(WsError::Transport(why));
        },
        Polled::Ended => None,
        Polled::TimedOut => None,
    };
    convert_ws_message(frame)
}

/// Turns what the JSON layer printed for a value into the text to
/// transmit, or into a serialization error around the cause.
pub fn encode_printed(printed: Result<String, serde_json::Error>) -> (r: Result<String, WsError>)
    ensures
        r == match printed {
            Ok(text) => Ok::<String, WsError>(text),
            Err(why) => Err(WsError::Serialization(why)),
        },
{
    match printed {
        Ok(text) => Ok(text),
        Err(why) => Err(WsError::Serialization(why)),
    }
}

/// The text of the single text frame that carries `value`: the text that
/// the JSON layer prints for it. Exactly where the JSON layer cannot print
/// the value, the result is a serialization error and there is nothing to
/// transmit.
pub fn encode(value: &Value) -> (r: Result<String, WsError>)
    ensures
        r is Ok <==> printed_text(*value) is Ok,
        match r {
            Ok(text) => printed_text(*value)->Ok_0 == text@,
            Err(WsError::Serialization(cause)) => json_error_text(cause) == printed_text(
                *value,
            )->Err_0,
            Err(_) => false,
        },
{
    encode_printed(print_json(value))
}

/// A source of structured values.
pub trait ReceiverExt {
    /// What the last wait on the stream came to, until a receive takes it.
    spec fn waiting(&self) -> Option<Polled>;

    /// Takes what the last wait came to and decodes it. With nothing
    /// waiting there is no data.
    fn recv_json(&mut self) -> (r: Result<Option<Value>, WsError>)
        ensures
            outcome_of(r) == polled_outcome(old(self).waiting()),
            old(self).waiting() matches Some(Polled::Failed(why)) ==> r == Err::<
                Option<Value>,
                WsError,
            >(WsError::Transport(why)),
            final(self).waiting() is None,
    ;
}

/// A sink of structured values.
pub trait SenderExt {
    /// The texts handed over for transmission, oldest first, one text frame
    /// each.
    spec fn queued(&self) -> Seq<Seq<char>>;

    /// Hands the text that the JSON layer prints for `value` over for
    /// transmission as one text frame. Exactly where the JSON layer cannot
    /// print the value, the result is a serialization error and nothing is
    /// handed over.
    fn send_json(&mut self, value: &Value) -> (r: Result<(), WsError>)
        ensures
            r is Ok <==> printed_text(*value) is Ok,
            match r {
                Ok(_) => final(self).queued() == old(self).queued().push(canonical_text(*value)),
                Err(WsError::Serialization(cause)) => final(self).queued() == old(self).queued()
                    && json_error_text(cause) == printed_text(*value)->Err_0,
                Err(_) => false,
            },
    ;
}

/// Holds what one wait on the stream came to, for the receive that follows.
pub struct Inbox {
    pub waiting: Option<Polled>,
}

impl Inbox {
    /// An inbox with nothing waiting.
    pub fn new() -> (inbox: Inbox)
        ensures
            inbox.waiting is None,
    {
        Inbox { waiting: None }
    }

    /// Records what a wait on the stream came to.
    pub fn deliver(&mut self, polled: Polled)
        ensures
            final(self).waiting == Some(polled),
    {
        self.waiting = Some(polled);
    }
}

impl ReceiverExt for Inbox {
    open spec fn waiting(&self) -> Option<Polled> {
        self.waiting
    }

    fn recv_json(&mut self) -> (r: Result<Option<Value>, WsError>) {
        match self.waiting.take() {
            Some(polled) => receive(polled),
            None => convert_ws_message(None),
        }
    }
}

/// The views of the texts of a queue.
pub open spec fn views_of(texts: Seq<String>) -> Seq<Seq<char>> {
    texts.map_values(|text: String| text@)
}

/// Holds the texts that are to be transmitted, in the order of the sends.
pub struct Outbox {
    pub texts: Vec<String>,
}

impl Outbox {
    /// An outbox with nothing to transmit.
    pub fn new() -> (outbox: Outbox)
        ensures
            outbox.queued() == Seq::<Seq<char>>::empty(),
    {
        let outbox = Outbox { texts: Vec::new() };
        assert(views_of(outbox.texts@) =~= Seq::<Seq<char>>::empty());
        outbox
    }

    /// Takes all the texts out for transmission, oldest first.
    pub fn drain(&mut self) -> (texts: Vec<String>)
        ensures
            views_of(texts@) == old(self).queued(),
            final(self).queued() == Seq::<Seq<char>>::empty(),
    {
        let mut texts: Vec<String> = Vec::new();
        std::mem::swap(&mut self.texts, &mut texts);
        assert(views_of(self.texts@) =~= Seq::<Seq<char>>::empty());
        texts
    }
}

impl SenderExt for Outbox {
    open spec fn queued(&self) -> Seq<Seq<char>> {
        views_of(self.texts@)
    }

    fn send_json(&mut self, value: &Value) -> (r: Result<(), WsError>) {
        match encode(value) {
            Ok(text) => {
                self.texts.push(text);
                assert(views_of(self.texts@) =~= views_of(old(self).texts@).push(text@));
                Ok(())
            },
            Err(why) => Err(why),
        }
    }
}

} // verus!
