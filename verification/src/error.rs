//! The ways in which a conversion can fail.

use vstd::prelude::*;

verus! {

/// Why a source document could not be read into a statement.
#[derive(Debug, Clone, Copy, PartialEq, Eq, Structural)]
pub enum ParseError {
    /// The XML reader reported a syntax error or tags that do not match.
    Malformed,
    /// The document ended while an element was still open.
    UnclosedElement,
    /// An element name is not UTF-8.
    InvalidName,
    /// Character data is not UTF-8.
    InvalidEncoding,
    /// Character data holds an entity or character reference that cannot be
    /// resolved.
    InvalidEscape,
    /// The attributes of an amount element do not parse, or its currency is
    /// not UTF-8.
    InvalidAttribute,
}

/// Why a statement could not be written out.
#[derive(Debug, Clone, Copy, PartialEq, Eq, Structural)]
pub enum WriteError {
    /// The XML writer reported that it could not append to its output. A
    /// document that is held in memory is always written, so that
    /// [`write_camt_08`](crate::document::write_camt_08) never gives this.
    Output,
}

/// Why a conversion from one schema version to the other failed.
#[derive(Debug, Clone, Copy, PartialEq, Eq, Structural)]
pub enum ConvertError {
    /// The source document could not be read.
    Parse(ParseError),
    /// The target document could not be written.
    Write(WriteError),
}

} // verus!
