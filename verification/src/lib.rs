//! A zero-copy codec for a tag/value wire format used in financial messaging.
//!
//! A [`decoder::Decoder`] scans a byte buffer into a flat table of
//! `(tag, value_start, value_end)` offsets; a [`message::Message`] is a read
//! view over that table with positional access, lazily indexed lookup and
//! integrity validation; the group engine ([`group`]) segments repeating
//! groups, nesting included; an [`encoder::Encoder`] renders a message back
//! to wire bytes, recomputing the length and checksum fields on request.

pub mod body_length;
pub mod checksum;
pub mod decoder;
pub mod digits;
pub mod encoder;
pub mod error;
pub mod field;
pub mod group;
pub mod message;
pub mod roundtrip;
pub mod scan;
pub mod storage;
pub mod table;
pub mod tag;
