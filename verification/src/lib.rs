//! Verified core of a binding to the Opus multistream codec.
//!
//! The codec itself is a native library. This crate holds everything around
//! the native calls that can be decided without making them: which call to
//! make and with which arguments, what a returned status means, the layout of
//! the stream identification header, how a frame is cut into codec frames, how
//! packets are stamped, and the queues between producer and consumer.
//!
//! The caller owns the native handles and makes the native calls. For each
//! call this crate gives the arguments beforehand and takes the returned
//! status afterwards, so that a decoder or an encoder is driven like this:
//! ask for the call, make it, hand back its status.
//!
//! - `native`: the numbers of the native interface.
//! - `common`: status codes as errors, and sample formats.
//! - `media`: timestamps, packets, frames, parameters and option values.
//! - `header`: the stream identification header.
//! - `chunk`: cutting samples into chunks of one length.
//! - `decoder`: the multistream decoder and the streaming decoder.
//! - `encoder`: the multistream encoder and the streaming encoder.

pub mod native;
pub mod common;
pub mod media;
pub mod header;
pub mod chunk;
pub mod decoder;
pub mod encoder;
