//! The second pass over the source document: the amount and the currency of
//! every balance and entry.
//!
//! An amount element carries its currency as an attribute and its value as
//! character data. The pass therefore takes the start tag and the event after
//! it together, and gives both to the balance or the entry that is open,
//! found by counting the balances and entries that have closed so far. The
//! counts follow the order in which the first pass appended them.

use crate::error::ParseError;
use crate::model::{
    balance_views, transaction_views, BalanceView, Statement, StatementView, TransactionView,
};
use crate::scanner::{
    balance_tag, byte_rows, decode_text, decoded_text, entry_tag, join_path, joined_path,
    parent_path, text_result,
};
use crate::source::{
    attribute_views, event_views, SourceAttribute, SourceAttributeView, SourceEvent,
    SourceEventView,
};
use crate::text::{bytes_end_with, bytes_equal, copy_bytes, utf8_string};
use vstd::prelude::*;
use vstd::string::StringSliceAdditionalSpecFns;
use vstd::utf8::{decode_utf8, valid_utf8};

verus! {

/// Name of the element that holds an amount.
pub open spec fn amount_tag() -> Seq<u8> {
    "Amt".spec_bytes()
}

/// Name of the attribute that holds the currency of an amount.
pub open spec fn currency_key() -> Seq<u8> {
    "Ccy".spec_bytes()
}

/// The currency that a list of attributes gives: the value of the last one
/// named `Ccy`, or the empty text where there is none. A currency that is not
/// UTF-8 is refused.
pub open spec fn currency_of(attributes: Seq<SourceAttributeView>) -> Result<Seq<char>, ParseError>
    decreases attributes.len(),
{
    if attributes.len() == 0 {
        Ok(Seq::empty())
    } else {
        match currency_of(attributes.drop_last()) {
            Err(error) => Err(error),
            Ok(before) => if attributes.last().key == currency_key() {
                if valid_utf8(attributes.last().value) {
                    Ok(decode_utf8(attributes.last().value))
                } else {
                    Err(ParseError::InvalidAttribute)
                }
            } else {
                Ok(before)
            },
        }
    }
}

/// The currency of an amount element, from the attributes of its start tag.
pub open spec fn amount_currency(attributes: Option<Seq<SourceAttributeView>>) -> Result<
    Seq<char>,
    ParseError,
> {
    match attributes {
        Some(list) => currency_of(list),
        None => Err(ParseError::InvalidAttribute),
    }
}

/// Finds the currency among the attributes of an amount element.
pub fn find_currency(attributes: &Option<Vec<SourceAttribute>>) -> (result: Result<
    String,
    ParseError,
>)
    ensures
        text_result(result) == amount_currency(
            match *attributes {
                Some(list) => Some(attribute_views(list@)),
                None => None,
            },
        ),
{
    match attributes {
        None => Err(ParseError::InvalidAttribute),
        Some(list) => {
            let ghost views = attribute_views(list@);
            let mut currency = String::new();
            let mut i: usize = 0;
            while i < list.len()
                invariant
                    i <= list.len(),
                    views == attribute_views(list@),
                    *attributes == Some(*list),
                    currency_of(views.take(i as int)) == Ok::<Seq<char>, ParseError>(currency@),
                decreases list.len() - i,
            {
                proof {
                    let next = views.take(i + 1);
                    assert(next.drop_last() == views.take(i as int));
                }
                if bytes_equal(list[i].key.as_slice(), "Ccy".as_bytes()) {
                    match utf8_string(copy_bytes(list[i].value.as_slice())) {
                        Some(text) => {
                            currency = text;
                        },
                        None => {
                            proof {
                                lemma_currency_refused(views, i + 1);
                            }
                            return Err(ParseError::InvalidAttribute);
                        },
                    }
                }
                i += 1;
            }
            assert(views.take(i as int) == views);
            Ok(currency)
        },
    }
}

/// Once a part of the attributes is refused, so is the whole list.
pub proof fn lemma_currency_refused(attributes: Seq<SourceAttributeView>, length: int)
    requires
        0 <= length <= attributes.len(),
        currency_of(attributes.take(length)) is Err,
    ensures
        currency_of(attributes) == currency_of(attributes.take(length)),
    decreases attributes.len() - length,
{
    if length == attributes.len() {
        assert(attributes.take(length) == attributes);
    } else {
        let next = attributes.take(length + 1);
        assert(next.drop_last() == attributes.take(length));
        lemma_currency_refused(attributes, length + 1);
    }
}

/// What the second pass knows at some point of the document: the statement
/// with the amounts found so far, the names of the open elements, whether a
/// balance or an entry is open, and how many of each have closed.
#[derive(Debug)]
pub struct Correlator {
    /// The statement, with the amounts found so far.
    pub statement: Statement,
    /// Names of the open elements, outermost first.
    pub path: Vec<Vec<u8>>,
    /// Whether a balance is open.
    pub in_balance: bool,
    /// Whether an entry is open.
    pub in_transaction: bool,
    /// Number of balances that have closed.
    pub balance_index: usize,
    /// Number of entries that have closed.
    pub transaction_index: usize,
}

/// Mathematical model of a [`Correlator`].
pub struct CorrelatorView {
    pub statement: StatementView,
    pub path: Seq<Seq<u8>>,
    pub in_balance: bool,
    pub in_transaction: bool,
    pub balance_index: nat,
    pub transaction_index: nat,
}

impl View for Correlator {
    type V = CorrelatorView;

    open spec fn view(&self) -> CorrelatorView {
        CorrelatorView {
            statement: self.statement@,
            path: byte_rows(self.path@),
            in_balance: self.in_balance,
            in_transaction: self.in_transaction,
            balance_index: self.balance_index as nat,
            transaction_index: self.transaction_index as nat,
        }
    }
}

/// The second pass before the first event, over the statement that the first
/// pass made.
pub open spec fn initial_correlation(statement: StatementView) -> CorrelatorView {
    CorrelatorView {
        statement,
        path: Seq::empty(),
        in_balance: false,
        in_transaction: false,
        balance_index: 0,
        transaction_index: 0,
    }
}

/// The second pass after a start tag: the name joins the path, and a balance
/// or an entry opens.
pub open spec fn correlate_start(state: CorrelatorView, name: Seq<u8>) -> CorrelatorView {
    let entered = CorrelatorView { path: state.path.push(name), ..state };
    if name == balance_tag() {
        CorrelatorView { in_balance: true, ..entered }
    } else if name == entry_tag() {
        CorrelatorView { in_transaction: true, ..entered }
    } else {
        entered
    }
}

/// The second pass after an end tag: a balance or an entry that closes is
/// counted, and the innermost name leaves the path.
pub open spec fn correlate_end(state: CorrelatorView, name: Seq<u8>) -> CorrelatorView {
    let left = CorrelatorView { path: parent_path(state.path), ..state };
    if name == balance_tag() {
        CorrelatorView { in_balance: false, balance_index: state.balance_index + 1, ..left }
    } else if name == entry_tag() {
        CorrelatorView {
            in_transaction: false,
            transaction_index: state.transaction_index + 1,
            ..left
        }
    } else {
        left
    }
}

/// Whether an amount found now belongs to a balance of the statement: a
/// balance is open, the amount element is its child, and the first pass has
/// made a balance of that number.
pub open spec fn is_balance_amount(state: CorrelatorView) -> bool {
    &&& state.in_balance
    &&& "Bal/Amt".spec_bytes().is_suffix_of(joined_path(state.path))
    &&& state.balance_index < state.statement.balances.len()
}

/// Whether an amount found now belongs to an entry of the statement.
pub open spec fn is_transaction_amount(state: CorrelatorView) -> bool {
    &&& state.in_transaction
    &&& "Ntry/Amt".spec_bytes().is_suffix_of(joined_path(state.path))
    &&& state.transaction_index < state.statement.transactions.len()
}

/// The statement after an amount was found: the balance or the entry that it
/// belongs to takes the amount and the currency, and an amount that belongs to
/// neither is dropped.
pub open spec fn with_amount(
    state: CorrelatorView,
    amount: Seq<char>,
    currency: Seq<char>,
) -> StatementView {
    if is_balance_amount(state) {
        let index = state.balance_index as int;
        StatementView {
            balances: state.statement.balances.update(
                index,
                BalanceView { amount, currency, ..state.statement.balances[index] },
            ),
            ..state.statement
        }
    } else if is_transaction_amount(state) {
        let index = state.transaction_index as int;
        StatementView {
            transactions: state.statement.transactions.update(
                index,
                TransactionView { amount, currency, ..state.statement.transactions[index] },
            ),
            ..state.statement
        }
    } else {
        state.statement
    }
}

/// The position after the event at `position` and the one that follows it,
/// or the end of the events where nothing follows.
pub open spec fn position_after_pair(events: Seq<SourceEventView>, position: int) -> int {
    if position + 1 < events.len() {
        position + 2
    } else {
        position + 1
    }
}

/// The second pass after the start tag of an amount element at `position`,
/// the tag itself taken in already. The event that follows the tag is used
/// up with it: character data is the amount, anything else is passed over.
pub open spec fn correlate_amount(
    events: Seq<SourceEventView>,
    position: int,
    entered: CorrelatorView,
    attributes: Option<Seq<SourceAttributeView>>,
) -> Result<CorrelatorView, ParseError> {
    match amount_currency(attributes) {
        Err(error) => Err(error),
        Ok(currency) => if position + 1 < events.len() {
            match events[position + 1] {
                SourceEventView::Text { content } => match decoded_text(content) {
                    Err(error) => Err(error),
                    Ok(amount) => Ok(
                        CorrelatorView {
                            statement: with_amount(entered, amount, currency),
                            ..entered
                        },
                    ),
                },
                _ => Ok(entered),
            }
        } else {
            Ok(entered)
        },
    }
}

/// Whether the event at `position` is the start tag of an amount element.
pub open spec fn is_amount_start(events: Seq<SourceEventView>, position: int) -> bool {
    events[position] matches SourceEventView::Start { name, .. } && name == amount_tag()
}

/// The position of the event that the second pass takes up after the one at
/// `position`.
pub open spec fn next_position(events: Seq<SourceEventView>, position: int) -> int {
    if is_amount_start(events, position) {
        position_after_pair(events, position)
    } else {
        position + 1
    }
}

/// The second pass after the event at `position`, or the error that the
/// event is refused with.
pub open spec fn correlate_event(
    events: Seq<SourceEventView>,
    position: int,
    state: CorrelatorView,
) -> Result<CorrelatorView, ParseError> {
    match events[position] {
        SourceEventView::Start { name, attributes } => if !valid_utf8(name) {
            Err(ParseError::InvalidName)
        } else if name == amount_tag() {
            correlate_amount(events, position, correlate_start(state, name), attributes)
        } else {
            Ok(correlate_start(state, name))
        },
        SourceEventView::End { name } => if !valid_utf8(name) {
            Err(ParseError::InvalidName)
        } else {
            Ok(correlate_end(state, name))
        },
        _ => Ok(state),
    }
}

/// The statement after the second pass has gone from `position` to the end
/// of the events, or the error of the first event that is refused.
pub open spec fn correlate_from(
    events: Seq<SourceEventView>,
    position: int,
    state: CorrelatorView,
) -> Result<StatementView, ParseError>
    decreases events.len() - position,
{
    if position < 0 || position >= events.len() {
        Ok(state.statement)
    } else {
        match correlate_event(events, position, state) {
            Ok(next) => correlate_from(events, next_position(events, position), next),
            Err(error) => Err(error),
        }
    }
}

/// The statement of the first pass with the amounts that `events` hold.
pub open spec fn correlated(events: Seq<SourceEventView>, statement: StatementView) -> Result<
    StatementView,
    ParseError,
> {
    correlate_from(events, 0, initial_correlation(statement))
}

/// The model of a statement that was handed back or refused.
pub open spec fn statement_result(result: Result<Statement, ParseError>) -> Result<
    StatementView,
    ParseError,
> {
    match result {
        Ok(statement) => Ok(statement@),
        Err(error) => Err(error),
    }
}

/// Whether a step of the second pass ended as its model says.
pub open spec fn correlation_matches(
    result: Result<(), ParseError>,
    after: CorrelatorView,
    expected: Result<CorrelatorView, ParseError>,
) -> bool {
    match expected {
        Ok(next) => result is Ok && after == next,
        Err(error) => result == Err::<(), ParseError>(error),
    }
}

impl Correlator {
    /// The second pass before the first event.
    pub fn new(statement: Statement) -> (correlator: Correlator)
        ensures
            correlator@ == initial_correlation(statement@),
    {
        let correlator = Correlator {
            statement,
            path: Vec::new(),
            in_balance: false,
            in_transaction: false,
            balance_index: 0,
            transaction_index: 0,
        };
        assert(correlator@.path =~= Seq::empty());
        correlator
    }

    /// Takes a start tag in, its name known to be UTF-8.
    pub fn start_element(&mut self, name: &[u8])
        ensures
            final(self)@ == correlate_start(old(self)@, name@),
    {
        self.path.push(copy_bytes(name));
        assert(byte_rows(self.path@) =~= byte_rows(old(self).path@).push(name@));
        if bytes_equal(name, "Bal".as_bytes()) {
            self.in_balance = true;
        } else if bytes_equal(name, "Ntry".as_bytes()) {
            self.in_transaction = true;
        }
    }

    /// Takes an end tag in, its name known to be UTF-8.
    pub fn end_element(&mut self, name: &[u8])
        requires
            old(self).balance_index < usize::MAX,
            old(self).transaction_index < usize::MAX,
        ensures
            final(self)@ == correlate_end(old(self)@, name@),
    {
        if bytes_equal(name, "Bal".as_bytes()) {
            self.in_balance = false;
            self.balance_index = self.balance_index + 1;
        } else if bytes_equal(name, "Ntry".as_bytes()) {
            self.in_transaction = false;
            self.transaction_index = self.transaction_index + 1;
        }
        self.path.pop();
        assert(byte_rows(self.path@) =~= parent_path(byte_rows(old(self).path@)));
    }

    /// Gives an amount and its currency to the balance or the entry that is
    /// open, if the statement holds one of that number.
    pub fn assign_amount(&mut self, amount: String, currency: String)
        ensures
            final(self)@ == (CorrelatorView {
                statement: with_amount(old(self)@, amount@, currency@),
                ..old(self)@
            }),
    {
        let path = join_path(&self.path);
        if self.in_balance && bytes_end_with(path.as_slice(), "Bal/Amt".as_bytes())
            && self.balance_index < self.statement.balances.len() {
            let mut balance = self.statement.balances[self.balance_index].clone();
            balance.amount = amount;
            balance.currency = currency;
            self.statement.balances.set(self.balance_index, balance);
            assert(balance_views(self.statement.balances@) =~= balance_views(
                old(self).statement.balances@,
            ).update(self.balance_index as int, balance@));
        } else if self.in_transaction && bytes_end_with(path.as_slice(), "Ntry/Amt".as_bytes())
            && self.transaction_index < self.statement.transactions.len() {
            let mut transaction = self.statement.transactions[self.transaction_index].clone();
            transaction.amount = amount;
            transaction.currency = currency;
            self.statement.transactions.set(self.transaction_index, transaction);
            assert(transaction_views(self.statement.transactions@) =~= transaction_views(
                old(self).statement.transactions@,
            ).update(self.transaction_index as int, transaction@));
        }
    }

    /// Takes the event at `position` in, and with the start tag of an amount
    /// element the event after it.
    pub fn step(&mut self, events: &Vec<SourceEvent>, position: usize) -> (result: Result<
        (),
        ParseError,
    >)
        requires
            position < events.len(),
            old(self).balance_index < usize::MAX,
            old(self).transaction_index < usize::MAX,
        ensures
            correlation_matches(
                result,
                final(self)@,
                correlate_event(event_views(events@), position as int, old(self)@),
            ),
    {
        match &events[position] {
            SourceEvent::Start { name, attributes } => {
                if utf8_string(copy_bytes(name.as_slice())).is_none() {
                    return Err(ParseError::InvalidName);
                }
                self.start_element(name.as_slice());
                if bytes_equal(name.as_slice(), "Amt".as_bytes()) {
                    let currency = match find_currency(attributes) {
                        Ok(currency) => currency,
                        Err(error) => {
                            return Err(error);
                        },
                    };
                    if position + 1 < events.len() {
                        match &events[position + 1] {
                            SourceEvent::Text { content } => {
                                match decode_text(content.as_slice()) {
                                    Ok(amount) => {
                                        self.assign_amount(amount, currency);
                                    },
                                    Err(error) => {
                                        return Err(error);
                                    },
                                }
                            },
                            _ => {},
                        }
                    }
                }
                Ok(())
            },
            SourceEvent::End { name } => {
                if utf8_string(copy_bytes(name.as_slice())).is_none() {
                    return Err(ParseError::InvalidName);
                }
                self.end_element(name.as_slice());
                Ok(())
            },
            _ => Ok(()),
        }
    }
}

/// Whether the event at `position` is the start tag of an amount element.
pub fn starts_amount(events: &Vec<SourceEvent>, position: usize) -> (found: bool)
    requires
        position < events.len(),
    ensures
        found == is_amount_start(event_views(events@), position as int),
{
    match &events[position] {
        SourceEvent::Start { name, attributes } => bytes_equal(name.as_slice(), "Amt".as_bytes()),
        _ => false,
    }
}

/// Runs the second pass over the events of a document: every balance and
/// entry of `statement` gets the amount and the currency that the events hold
/// for it.
pub fn correlate_amounts(events: &Vec<SourceEvent>, statement: Statement) -> (result: Result<
    Statement,
    ParseError,
>)
    ensures
        statement_result(result) == correlated(event_views(events@), statement@),
{
    let ghost views = event_views(events@);
    let mut correlator = Correlator::new(statement);
    let mut i: usize = 0;
    while i < events.len()
        invariant
            i <= events.len(),
            views == event_views(events@),
            correlator.balance_index <= i,
            correlator.transaction_index <= i,
            correlated(views, statement@) == correlate_from(views, i as int, correlator@),
        decreases events.len() - i,
    {
        let paired = starts_amount(events, i);
        match correlator.step(events, i) {
            Ok(()) => {},
            Err(error) => {
                return Err(error);
            },
        }
        if paired && i + 1 < events.len() {
            i += 2;
        } else {
            i += 1;
        }
    }
    Ok(correlator.statement)
}

/// Whether two balances differ in amount and currency at most.
pub open spec fn same_balance_but_amount(first: BalanceView, second: BalanceView) -> bool {
    first == (BalanceView { amount: first.amount, currency: first.currency, ..second })
}

/// Whether two entries differ in amount and currency at most.
pub open spec fn same_transaction_but_amount(
    first: TransactionView,
    second: TransactionView,
) -> bool {
    first == (TransactionView { amount: first.amount, currency: first.currency, ..second })
}

/// Whether two statements hold the same header and as many balances and
/// entries, each of which differs from the one of its number in amount and
/// currency at most.
pub open spec fn same_statement_but_amounts(first: StatementView, second: StatementView) -> bool {
    &&& first == (StatementView {
        balances: first.balances,
        transactions: first.transactions,
        ..second
    })
    &&& first.balances.len() == second.balances.len()
    &&& first.transactions.len() == second.transactions.len()
    &&& forall|i: int|
        0 <= i < first.balances.len() ==> same_balance_but_amount(
            #[trigger] first.balances[i],
            second.balances[i],
        )
    &&& forall|i: int|
        0 <= i < first.transactions.len() ==> same_transaction_but_amount(
            #[trigger] first.transactions[i],
            second.transactions[i],
        )
}

/// The second pass changes amounts and currencies and nothing else: the
/// statement keeps its header, and every balance and entry keeps its place and
/// what the first pass gave it.
pub proof fn lemma_correlation_keeps_order(
    events: Seq<SourceEventView>,
    position: int,
    state: CorrelatorView,
)
    ensures
        correlate_from(events, position, state) matches Ok(statement)
            ==> same_statement_but_amounts(statement, state.statement),
    decreases events.len() - position,
{
    if 0 <= position < events.len() {
        match correlate_event(events, position, state) {
            Ok(next) => {
                lemma_correlation_step(events, position, state);
                lemma_correlation_keeps_order(events, next_position(events, position), next);
            },
            Err(_) => {},
        }
    }
}

/// One step of the second pass changes, of the statement, at most the amount
/// and the currency of one balance or entry.
pub proof fn lemma_correlation_step(
    events: Seq<SourceEventView>,
    position: int,
    state: CorrelatorView,
)
    requires
        0 <= position < events.len(),
    ensures
        correlate_event(events, position, state) matches Ok(next) ==> same_statement_but_amounts(
            next.statement,
            state.statement,
        ),
{
}

/// The amount that a balance gets is the text that follows the start tag of
/// its amount element, decoded and unescaped and otherwise as it stands in the
/// source; its currency is the one that the tag names.
pub proof fn lemma_balance_amount_is_source_text(
    state: CorrelatorView,
    amount: Seq<char>,
    currency: Seq<char>,
)
    requires
        is_balance_amount(state),
    ensures
        with_amount(state, amount, currency).balances[state.balance_index as int].amount == amount,
        with_amount(state, amount, currency).balances[state.balance_index as int].currency
            == currency,
{
}

/// The amount that an entry gets is the text that follows the start tag of
/// its amount element, decoded and unescaped and otherwise as it stands in the
/// source; its currency is the one that the tag names.
pub proof fn lemma_transaction_amount_is_source_text(
    state: CorrelatorView,
    amount: Seq<char>,
    currency: Seq<char>,
)
    requires
        !is_balance_amount(state),
        is_transaction_amount(state),
    ensures
        with_amount(state, amount, currency).transactions[state.transaction_index as int].amount
            == amount,
        with_amount(state, amount, currency).transactions[state.transaction_index as int].currency
            == currency,
{
}

} // verus!
