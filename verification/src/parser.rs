//! Reading a `camt.053.001.10` document into a statement.
//!
//! The document is tokenised once. Both passes go over the same events, so
//! that they agree on the number and the order of balances and entries.

use crate::amounts::{
    correlate_amounts, correlated, lemma_correlation_keeps_order, initial_correlation,
    same_statement_but_amounts, statement_result,
};
use crate::error::ParseError;
use crate::model::{Statement, StatementView};
use crate::scanner::{
    balance_tag, closed_from, entry_tag, lemma_one_record_per_element, scan_events, scanned,
};
use crate::source::{
    document_complete, document_events, event_views, read_events, SourceEvent, SourceEventView,
};
use vstd::prelude::*;

verus! {

/// The statement that a document with these events holds.
///
/// The first pass goes over the events and stops at the first one it
/// refuses. A document that the reader could not follow to its end is
/// malformed, and so is one that ends with an element still open. Then the
/// second pass adds the amounts.
pub open spec fn statement_of(events: Seq<SourceEventView>, complete: bool) -> Result<
    StatementView,
    ParseError,
> {
    match scanned(events) {
        Err(error) => Err(error),
        Ok(scan) => if !complete {
            Err(ParseError::Malformed)
        } else if scan.path.len() > 0 {
            Err(ParseError::UnclosedElement)
        } else {
            correlated(events, scan.statement)
        },
    }
}

/// Builds the statement from the events of a document. `complete` says
/// whether the events reach the end of the document; where they do not, they
/// are the events before the reader's first error.
pub fn statement_from_events(events: &Vec<SourceEvent>, complete: bool) -> (result: Result<
    Statement,
    ParseError,
>)
    ensures
        statement_result(result) == statement_of(event_views(events@), complete),
{
    let scanner = match scan_events(events) {
        Ok(scanner) => scanner,
        Err(error) => {
            return Err(error);
        },
    };
    if !complete {
        return Err(ParseError::Malformed);
    }
    if scanner.path.len() > 0 {
        return Err(ParseError::UnclosedElement);
    }
    correlate_amounts(events, scanner.statement)
}

/// The statement that a source document holds, or the error that it is
/// refused with.
pub open spec fn parsed_statement(source: Seq<u8>) -> Result<StatementView, ParseError> {
    statement_of(document_events(source), document_complete(source))
}

/// Reads a `camt.053.001.10` document into a statement.
pub fn parse_camt_10(source: &[u8]) -> (result: Result<Statement, ParseError>)
    ensures
        statement_result(result) == parsed_statement(source@),
{
    let document = read_events(source);
    statement_from_events(&document.events, document.complete)
}

/// A statement holds its balances and entries in the order of the document:
/// one for every balance or entry element that closes, appended as the
/// elements close, and after the first pass changed in amount and currency
/// only.
pub proof fn lemma_statement_in_document_order(events: Seq<SourceEventView>, complete: bool)
    ensures
        statement_of(events, complete) matches Ok(statement) ==> {
            &&& scanned(events) matches Ok(scan) && same_statement_but_amounts(
                statement,
                scan.statement,
            )
            &&& statement.balances.len() == closed_from(events, 0, balance_tag())
            &&& statement.transactions.len() == closed_from(events, 0, entry_tag())
        },
{
    if statement_of(events, complete) is Ok {
        let scan = scanned(events)->Ok_0;
        lemma_one_record_per_element(events);
        lemma_correlation_keeps_order(events, 0, initial_correlation(scan.statement));
    }
}

} // verus!
