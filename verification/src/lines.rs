//! Lines in a byte buffer: where the first line of a buffer ends, what it
//! holds, and the line codec of `tokio_util` that takes it out.

use tokio_util::bytes::BytesMut;
use tokio_util::codec::{Decoder, LinesCodec, LinesCodecError};
use vstd::prelude::*;
use vstd::utf8::{decode_utf8, valid_utf8};

verus! {

/// The byte buffer of `tokio_util`, `bytes::BytesMut`. Nothing of its inside
/// is known here; `buffered` names what it holds.
#[verifier::external_type_specification]
#[verifier::external_body]
pub struct ExBytesMut(tokio_util::bytes::BytesMut);

/// The error of the line codec of `tokio_util`, carried through unread.
#[verifier::external_type_specification]
#[verifier::external_body]
pub struct ExLinesCodecError(tokio_util::codec::LinesCodecError);

/// The bytes that a buffer holds, in their order.
pub uninterp spec fn buffered(buffer: BytesMut) -> Seq<u8>;

/// The byte that ends a line.
pub const LINE_FEED: u8 = 10;

/// The byte that may precede the end of a line and is not part of it.
pub const CARRIAGE_RETURN: u8 = 13;

/// `at` is the position of the first line feed in `bytes`.
pub open spec fn is_line_end(bytes: Seq<u8>, at: int) -> bool {
    &&& 0 <= at < bytes.len()
    &&& bytes[at] == LINE_FEED
    &&& forall|earlier: int| 0 <= earlier < at ==> bytes[earlier] != LINE_FEED
}

/// Whether `bytes` hold a whole line, that is, a line feed.
pub open spec fn has_line(bytes: Seq<u8>) -> bool {
    exists|at: int| is_line_end(bytes, at)
}

/// The position of the first line feed in `bytes`; meaningful only when
/// `has_line(bytes)`.
pub open spec fn line_end(bytes: Seq<u8>) -> int {
    choose|at: int| is_line_end(bytes, at)
}

/// A line without the carriage return at its end, if it has one.
pub open spec fn without_carriage_return(line: Seq<u8>) -> Seq<u8> {
    if line.len() > 0 && line.last() == CARRIAGE_RETURN {
        line.drop_last()
    } else {
        line
    }
}

/// The first line of `bytes`: what stands before the first line feed,
/// without a carriage return at its end.
pub open spec fn first_line(bytes: Seq<u8>) -> Seq<u8> {
    without_carriage_return(bytes.take(line_end(bytes)))
}

/// What is left of `bytes` once the first line is taken out: everything
/// after the first line feed, or all of it where there is no whole line.
pub open spec fn after_first_line(bytes: Seq<u8>) -> Seq<u8> {
    if has_line(bytes) {
        bytes.skip(line_end(bytes) + 1)
    } else {
        bytes
    }
}

/// The text of the first line of `bytes`: nothing where there is no whole
/// line yet, an error where the line is not UTF-8.
pub open spec fn first_line_text(bytes: Seq<u8>) -> Result<Option<Seq<char>>, ()> {
    if !has_line(bytes) {
        Ok(None)
    } else if valid_utf8(first_line(bytes)) {
        Ok(Some(decode_utf8(first_line(bytes))))
    } else {
        Err(())
    }
}

/// Calls `Decoder::decode` on a `LinesCodec` that `LinesCodec::new` has just
/// made, so that it has no limit on the length of a line and starts its
/// search at the front of the buffer. Where the buffer holds a line feed, the
/// bytes up to and with the first one leave the buffer, and the result is the
/// line before it as a string, without a carriage return at its end, or an
/// error where that line is not UTF-8. Where the buffer holds no line feed,
/// it stays as it is and the result is `Ok(None)`.
#[verifier::external_body]
pub(crate) fn next_line(src: &mut BytesMut) -> (r: Result<Option<String>, LinesCodecError>)
    ensures
        buffered(*final(src)) == after_first_line(buffered(*old(src))),
        match first_line_text(buffered(*old(src))) {
            Ok(Some(text)) => r matches Ok(Some(line)) && line@ == text,
            Ok(None) => r matches Ok(None),
            Err(_) => r is Err,
        },
{
    LinesCodec::new().decode(src)
}

} // verus!
