//! The failures that decoding and encoding report.

use vstd::prelude::*;

verus! {

/// The shape that a decoder asked of a value.
#[derive(Debug, Clone, Copy, PartialEq, Eq, Structural)]
pub enum Shape {
    /// A boolean.
    Bool,
    /// A signed integer.
    Integer,
    /// An integer that is not negative.
    Unsigned,
    /// A string, or a byte string that holds UTF-8.
    Text,
    /// An ordered sequence.
    Array,
    /// A map with string keys.
    Object,
    /// One of the single-character file type codes.
    FileTypeCode,
    /// A string or an integer.
    ClockSpec,
    /// A clock specifier, or a map with a clock specifier under `clock`.
    Clock,
    /// A string, a map with a string under `error`, or null.
    ContentSha1Hex,
}

/// Why a wire value could not be read as the type that was asked for.
#[derive(Debug, Clone, Copy, PartialEq, Eq)]
pub enum DecodeError {
    /// The value itself does not have the shape named.
    Mismatch(Shape),
    /// The map has no entry under this key, and the key is required.
    MissingField(&'static str),
    /// The value under this key does not have the shape named.
    Field(&'static str, Shape),
}

/// Why a value could not be written to the wire.
#[derive(Debug, Clone, Copy, PartialEq, Eq)]
pub enum EncodeError {
    /// The unsigned integer under this key is above the largest signed
    /// 64-bit integer, which is all the wire format can hold.
    IntegerTooLarge(&'static str),
}

impl DecodeError {
    /// The error that a failure `self` inside the value under `key` becomes
    /// for the map that holds the key: a mismatch of the value is named by
    /// its key, and a failure further inside keeps its own place.
    pub open spec fn spec_under(self, key: &'static str) -> DecodeError {
        match self {
            DecodeError::Mismatch(shape) => DecodeError::Field(key, shape),
            other => other,
        }
    }

    /// See [`DecodeError::spec_under`].
    pub fn under(self, key: &'static str) -> (e: DecodeError)
        ensures
            e == self.spec_under(key),
    {
        match self {
            DecodeError::Mismatch(shape) => DecodeError::Field(key, shape),
            other => other,
        }
    }
}

} // verus!
