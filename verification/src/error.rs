use vstd::prelude::*;

verus! {

/// The error taxonomy of the codec.
///
/// Decoding fails with [`FixError::InvalidTag`] or
/// [`FixError::IncompleteMessage`]; the two integrity validators fail with
/// [`FixError::InvalidBodyLength`] and [`FixError::InvalidCheckSum`]. The
/// remaining variants are reserved for higher-level typed field accessors.
#[derive(Debug, Clone, Copy)]
pub enum FixError {
    /// A tag field contained non-digit bytes or was otherwise malformed.
    InvalidTag,
    /// A value field contained bytes that are not valid UTF-8.
    InvalidUtf8,
    /// A numeric value field contained non-digit bytes.
    InvalidValue,
    /// The buffer holds a partial field; more bytes are needed before retrying.
    IncompleteMessage,
    /// The declared body length does not match the actual body byte count,
    /// or the length field is malformed or out of position.
    InvalidBodyLength,
    /// The declared checksum does not match the computed one, or the checksum
    /// field is malformed or out of position.
    InvalidCheckSum,
    /// An error occurred during message encoding.
    EncodeError,
    /// An error occurred during message decoding.
    DecodeError,
}

} // verus!
