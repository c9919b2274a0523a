//! Decompression of binary frames: a raw zlib stream that holds UTF-8 text.

use flate2::read::ZlibDecoder;
use std::io::Read;
use vstd::prelude::*;

verus! {

/// `std::io::Error`, the cause of a failed decompression.
#[verifier::external_type_specification]
#[verifier::external_body]
pub struct ExIoError(std::io::Error);

/// What a `std::io::Error` says: its message, as it prints it.
pub uninterp spec fn io_error_text(why: std::io::Error) -> Seq<char>;

/// The text that a zlib stream inflates to, or what the error says where
/// the bytes are no valid zlib stream or what they hold is no UTF-8.
pub uninterp spec fn inflated_text(bytes: Seq<u8>) -> Result<Seq<char>, Seq<char>>;

/// Largest compressed length for which the buffer is sized ahead.
pub const PRESIZE_LIMIT: usize = 0x1000_0000;

/// How much larger than its compressed form a payload is expected to be.
pub const DECOMPRESSION_MULTIPLIER: usize = 3;

/// Capacity that the text buffer of a compressed payload starts with: three
/// times the compressed length, and nothing ahead for payloads beyond
/// `PRESIZE_LIMIT`.
pub open spec fn spec_buffer_capacity(compressed_len: usize) -> int {
    if compressed_len <= PRESIZE_LIMIT {
        compressed_len * DECOMPRESSION_MULTIPLIER
    } else {
        0
    }
}

/// Computes `spec_buffer_capacity`.
pub fn buffer_capacity(compressed_len: usize) -> (capacity: usize)
    ensures
        capacity == spec_buffer_capacity(compressed_len),
        capacity <= 0x3000_0000,
{
    if compressed_len <= PRESIZE_LIMIT {
        compressed_len * DECOMPRESSION_MULTIPLIER
    } else {
        0
    }
}

/// `String::with_capacity`: an empty string. std documents a panic for a
/// capacity above `isize::MAX` bytes; the bound is the least value that
/// `isize::MAX` has on a machine with 32 bits or more.
pub assume_specification[ String::with_capacity ](capacity: usize) -> (s: String)
    requires
        capacity <= 0x7fff_ffff,
    ensures
        s@ == Seq::<char>::empty(),
;

/// Runs `flate2::read::ZlibDecoder` over `bytes` and reads all of it into
/// `buffer` as text. Trusted: the call succeeds exactly on the bytes for
/// which `inflated_text` is `Ok`, and returns that text, or the error that
/// says what `inflated_text` names.
#[verifier::external_body]
pub(crate) fn inflate_into(bytes: &[u8], buffer: String) -> (r: Result<String, std::io::Error>)
    requires
        buffer@.len() == 0,
    ensures
        r is Ok <==> inflated_text(bytes@) is Ok,
        r is Ok ==> inflated_text(bytes@)->Ok_0 == r->Ok_0@,
        r is Err ==> inflated_text(bytes@)->Err_0 == io_error_text(r->Err_0),
{
    let mut buffer = buffer;
    match ZlibDecoder::new(bytes).read_to_string(&mut buffer) {
        Ok(_) => Ok(buffer),
        Err(why) => Err(why),
    }
}

/// Inflates a compressed payload into text, or says why it could not.
pub fn inflate(bytes: &Vec<u8>) -> (r: Result<String, std::io::Error>)
    ensures
        r is Ok <==> inflated_text(bytes@) is Ok,
        r is Ok ==> inflated_text(bytes@)->Ok_0 == r->Ok_0@,
        r is Err ==> inflated_text(bytes@)->Err_0 == io_error_text(r->Err_0),
{
    let buffer = String::with_capacity(buffer_capacity(bytes.len()));
    inflate_into(bytes.as_slice(), buffer)
}

} // verus!
