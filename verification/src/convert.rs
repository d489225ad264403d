//! The conversion from one schema version to the other.

use crate::document::{camt_08_bytes, write_camt_08};
use crate::error::ConvertError;
use crate::parser::{parse_camt_10, parsed_statement};
use vstd::prelude::*;

verus! {

/// What converting `source` gives: the error that the source is refused
/// with, or the bytes of the target document of the statement that it holds.
pub open spec fn converted(source: Seq<u8>) -> Result<Seq<u8>, ConvertError> {
    match parsed_statement(source) {
        Err(error) => Err(ConvertError::Parse(error)),
        Ok(statement) => Ok(camt_08_bytes(statement)),
    }
}

/// The model of a document that was handed back or refused.
pub open spec fn conversion_result(result: Result<Vec<u8>, ConvertError>) -> Result<
    Seq<u8>,
    ConvertError,
> {
    match result {
        Ok(bytes) => Ok(bytes@),
        Err(error) => Err(error),
    }
}

/// Converts a `camt.053.001.10` document into a `camt.053.001.08` document.
/// A source that holds a statement is always converted; of one that is
/// refused nothing is handed back but the error.
pub fn convert(source: &[u8]) -> (result: Result<Vec<u8>, ConvertError>)
    ensures
        conversion_result(result) == converted(source@),
{
    let statement = match parse_camt_10(source) {
        Ok(statement) => statement,
        Err(error) => {
            return Err(ConvertError::Parse(error));
        },
    };
    match write_camt_08(&statement) {
        Ok(bytes) => Ok(bytes),
        Err(error) => Err(ConvertError::Write(error)),
    }
}

/// Converting the same source twice ends the same way both times: with the
/// same document byte for byte, or with the same error.
pub proof fn lemma_conversion_repeatable(
    source: Seq<u8>,
    first: Result<Vec<u8>, ConvertError>,
    second: Result<Vec<u8>, ConvertError>,
)
    requires
        conversion_result(first) == converted(source),
        conversion_result(second) == converted(source),
    ensures
        conversion_result(first) == conversion_result(second),
        first is Ok <==> second is Ok,
        first is Ok ==> first->Ok_0@ == second->Ok_0@,
        first is Err ==> first == second,
{
}

/// A source converts exactly when it holds a statement, and the document is
/// that of the statement.
pub proof fn lemma_conversion_succeeds(source: Seq<u8>)
    ensures
        converted(source) is Ok <==> parsed_statement(source) is Ok,
        parsed_statement(source) matches Ok(statement) ==> converted(source) == Ok::<
            Seq<u8>,
            ConvertError,
        >(camt_08_bytes(statement)),
{
}

} // verus!
