//! A read-only parser and indexer for ISO Base Media File Format containers
//! that carry HEIF still-image payloads.
//!
//! Given a byte buffer, the library produces a structured description of the
//! container's boxed tree, a catalogue of items with their features and
//! properties, and byte-exact extraction of encoded payloads ready for
//! HEVC decoding.

use vstd::prelude::*;

pub mod bbox;
pub mod data;
pub mod bit;
pub mod fourcc;
pub mod internal;
pub mod reader;

verus! {

/// The error kinds of the library.  Every parse and query failure is reported
/// through one of these variants.
#[derive(Debug, Clone, Copy, PartialEq, Eq, Structural)]
pub enum HeifError {
    /// A read reached beyond the end of the buffer.
    EndOfStream,
    /// A box declared a size smaller than its own header, or a body larger
    /// than what remains in the stream.
    MalformedBox,
    /// A box carried field values outside the normative forms.
    InvalidFormat,
    /// A second `ftyp`, `meta` or `moov` box appeared at the top level.
    DuplicateTopLevelBox,
    /// The file ended without `ftyp`, or without either `meta` or `moov`.
    MissingMandatoryBox,
    /// A `dref` box held a child that is neither `url ` nor `urn `.
    UnknownDataEntry,
    /// A query named an item that has no `iinf` entry.
    InvalidItemID,
    /// A track-scoped query named a sequence that does not exist.
    InvalidSequenceID,
    /// A payload query was made against a protected item.
    ProtectedItem,
    /// A byte-stream rewrite was requested for an unsupported code type.
    UnsupportedCodeType,
    /// Item-offset resolution revisited an item.
    CircularReference,
    /// A query was made before a successful load.
    Uninitialized,
    /// The operation touches a part of the format that the library does not
    /// implement.
    Unsupported,
    /// An underlying read failed before the buffer reached the library.
    Io,
}

impl HeifError {
    /// A short name for the error, for diagnostics.
    pub fn description(&self) -> String {
        match *self {
            HeifError::EndOfStream => String::from_str("EndOfStream"),
            HeifError::MalformedBox => String::from_str("MalformedBox"),
            HeifError::InvalidFormat => String::from_str("InvalidFormat"),
            HeifError::DuplicateTopLevelBox => String::from_str("DuplicateTopLevelBox"),
            HeifError::MissingMandatoryBox => String::from_str("MissingMandatoryBox"),
            HeifError::UnknownDataEntry => String::from_str("UnknownDataEntry"),
            HeifError::InvalidItemID => String::from_str("InvalidItemID"),
            HeifError::InvalidSequenceID => String::from_str("InvalidSequenceID"),
            HeifError::ProtectedItem => String::from_str("ProtectedItem"),
            HeifError::UnsupportedCodeType => String::from_str("UnsupportedCodeType"),
            HeifError::CircularReference => String::from_str("CircularReference"),
            HeifError::Uninitialized => String::from_str("Uninitialized"),
            HeifError::Unsupported => String::from_str("Unsupported"),
            HeifError::Io => String::from_str("Io"),
        }
    }
}

} // verus!
