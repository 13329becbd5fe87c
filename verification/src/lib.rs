//! A buffered frame writer without I/O of its own.
//!
//! Items are encoded into an accumulation buffer; the buffer is drained to an
//! output channel that may accept only part of what it is offered, or may not
//! be ready at all. The library holds the buffer and takes every decision;
//! the caller owns the channel, performs each call the library asks for, and
//! reports what the channel answered.

pub mod buffer;
pub mod delivery;
pub mod encoder;
pub mod engine;
pub mod framed;
pub mod fuse;
pub mod protocol;
