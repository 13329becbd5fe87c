//! The capability bundle: an output channel and an encoder held as one value.

use crate::encoder::Encoder;
use bytes::BytesMut;
use vstd::prelude::*;

verus! {

/// A channel and an encoder, side by side. The bundle encodes with its
/// encoder and leaves the channel alone.
pub struct Fuse<T, U>(pub T, pub U);

impl<T, U: Encoder> Encoder for Fuse<T, U> {
    type Item = U::Item;

    type Error = U::Error;

    open spec fn frame(&self, item: U::Item) -> Seq<u8> {
        self.1.frame(item)
    }

    open spec fn keeps(&self, after: &Self) -> bool {
        self.0 == after.0 && self.1.keeps(&after.1)
    }

    fn encode(&mut self, item: U::Item, dst: &mut BytesMut) -> (r: Result<(), U::Error>) {
        self.1.encode(item, dst)
    }
}

} // verus!
