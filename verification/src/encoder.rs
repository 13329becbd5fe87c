//! The encoding capability: what turns one item into bytes at the end of the
//! accumulation buffer.

use crate::buffer::contents;
use bytes::BytesMut;
use vstd::prelude::*;
use vstd::utf8::encode_utf8;

verus! {

/// Serialises one item at a time into a buffer that only grows.
///
/// An encoder appends: whatever it does, and also when it fails, the bytes
/// that the buffer held before are still there, in front and in their order.
/// An encoder that fails may leave part of an item behind them.
pub trait Encoder {
    /// What is encoded.
    type Item;

    /// Why an item was rejected.
    type Error;

    /// The bytes that stand for `item`, for the encoder as it is now. An
    /// encoder that does not say what they are leaves them unknown.
    open spec fn frame(&self, item: Self::Item) -> Seq<u8> {
        arbitrary()
    }

    /// What encoding never changes of the encoder: `after` is a value that
    /// the encoder may have once it has encoded. An encoder that does not
    /// say so keeps nothing.
    open spec fn keeps(&self, after: &Self) -> bool {
        true
    }

    /// Appends the bytes of `item` to `dst`: all of them, and nothing else,
    /// where it succeeds.
    fn encode(&mut self, item: Self::Item, dst: &mut BytesMut) -> (r: Result<(), Self::Error>)
        ensures
            old(self).keeps(final(self)),
            contents(*old(dst)).is_prefix_of(contents(*final(dst))),
            r is Ok ==> contents(*final(dst)) == contents(*old(dst)) + old(self).frame(item),
    ;
}

/// Why [`LinesCodec`] rejected a line.
#[derive(Debug, PartialEq, Eq)]
pub enum LinesCodecError {
    /// With the line the buffer would exceed what can be allocated.
    TooLong,
}

/// Encodes a line as the bytes of its text, unchanged: the line carries its
/// own terminator.
pub struct LinesCodec {}

impl Encoder for LinesCodec {
    type Item = String;

    type Error = LinesCodecError;

    open spec fn frame(&self, item: String) -> Seq<u8> {
        encode_utf8(item@)
    }

    fn encode(&mut self, item: String, dst: &mut BytesMut) -> (r: Result<(), LinesCodecError>)
        ensures
            r is Ok <==> contents(*old(dst)).len() + encode_utf8(item@).len() <= isize::MAX,
            r is Err ==> contents(*final(dst)) == contents(*old(dst)),
    {
        let bytes = item.as_str().as_bytes();
        let limit: usize = isize::MAX as usize;
        let held: usize = dst.len();
        if held > limit || bytes.len() > limit - held {
            return Err(LinesCodecError::TooLong);
        }
        dst.extend_from_slice(bytes);
        Ok(())
    }
}

} // verus!
