//! The first pass over the source document: header fields and the skeleton of
//! every balance and entry.
//!
//! The scanner keeps the names of the open elements. Where character data is
//! met, the names joined by `/` are held against a table of path endings, and
//! the text goes to the field that the first matching ending stands for. Only
//! an ending is compared, so that the elements wrapped around a statement do
//! not matter.

use crate::error::ParseError;
use crate::model::{
    balance_views, empty_balance, empty_statement, empty_transaction, transaction_views, Balance,
    BalanceView, Statement, StatementView, Transaction, TransactionView,
};
use crate::source::{event_views, unescape, xml_unescaped, SourceEvent, SourceEventView};
use crate::text::{bytes_end_with, bytes_equal, copy_bytes, utf8_string};
use vstd::prelude::*;
use vstd::string::StringSliceAdditionalSpecFns;
use vstd::utf8::{decode_utf8, valid_utf8};

verus! {

/// The byte that stands between two element names of a path.
pub const PATH_SEPARATOR: u8 = 0x2f;

/// The views of a list of byte strings.
pub open spec fn byte_rows(rows: Seq<Vec<u8>>) -> Seq<Seq<u8>> {
    rows.map_values(|row: Vec<u8>| row@)
}

/// The element names of a path, outermost first, joined by the separator.
pub open spec fn joined_path(names: Seq<Seq<u8>>) -> Seq<u8>
    decreases names.len(),
{
    if names.len() == 0 {
        Seq::empty()
    } else if names.len() == 1 {
        names[0]
    } else {
        joined_path(names.drop_last()) + seq![PATH_SEPARATOR] + names.last()
    }
}

/// Joins the names of the open elements into one path.
pub fn join_path(names: &Vec<Vec<u8>>) -> (path: Vec<u8>)
    ensures
        path@ == joined_path(byte_rows(names@)),
{
    let ghost rows = byte_rows(names@);
    let mut path: Vec<u8> = Vec::new();
    let mut i: usize = 0;
    while i < names.len()
        invariant
            i <= names.len(),
            rows == byte_rows(names@),
            path@ == joined_path(rows.take(i as int)),
        decreases names.len() - i,
    {
        proof {
            let next = rows.take(i + 1);
            assert(next.drop_last() == rows.take(i as int));
        }
        if i > 0 {
            path.push(PATH_SEPARATOR);
        }
        path.extend_from_slice(names[i].as_slice());
        i += 1;
    }
    assert(rows.take(i as int) == rows);
    path
}

/// The header fields that the scanner fills.
#[derive(Debug, Clone, Copy, PartialEq, Eq, Structural)]
pub enum HeaderField {
    Id,
    CreationDateTime,
    FromDateTime,
    ToDateTime,
    Iban,
    Currency,
    OwnerName,
}

/// The fields of a balance that the scanner fills.
#[derive(Debug, Clone, Copy, PartialEq, Eq, Structural)]
pub enum BalanceField {
    Type,
    Indicator,
    Date,
}

/// The fields of an entry that the scanner fills.
#[derive(Debug, Clone, Copy, PartialEq, Eq, Structural)]
pub enum TransactionField {
    Indicator,
    BookingDate,
    BankCode,
    AdditionalInfo,
}

/// The header field that character data under `path` belongs to.
pub open spec fn header_field(path: Seq<u8>) -> Option<HeaderField> {
    if "Stmt/Id".spec_bytes().is_suffix_of(path) {
        Some(HeaderField::Id)
    } else if "Stmt/CreDtTm".spec_bytes().is_suffix_of(path) {
        Some(HeaderField::CreationDateTime)
    } else if "FrToDt/FrDtTm".spec_bytes().is_suffix_of(path) {
        Some(HeaderField::FromDateTime)
    } else if "FrToDt/ToDtTm".spec_bytes().is_suffix_of(path) {
        Some(HeaderField::ToDateTime)
    } else if "Acct/Id/IBAN".spec_bytes().is_suffix_of(path) {
        Some(HeaderField::Iban)
    } else if "Acct/Ccy".spec_bytes().is_suffix_of(path) {
        Some(HeaderField::Currency)
    } else if "Acct/Ownr/Nm".spec_bytes().is_suffix_of(path) {
        Some(HeaderField::OwnerName)
    } else {
        None
    }
}

/// The field of a balance that character data under `path` belongs to.
pub open spec fn balance_field(path: Seq<u8>) -> Option<BalanceField> {
    if "Bal/Tp/CdOrPrtry/Cd".spec_bytes().is_suffix_of(path) {
        Some(BalanceField::Type)
    } else if "Bal/CdtDbtInd".spec_bytes().is_suffix_of(path) {
        Some(BalanceField::Indicator)
    } else if "Bal/Dt/DtTm".spec_bytes().is_suffix_of(path) {
        Some(BalanceField::Date)
    } else {
        None
    }
}

/// The field of an entry that character data under `path` belongs to.
pub open spec fn transaction_field(path: Seq<u8>) -> Option<TransactionField> {
    if "Ntry/CdtDbtInd".spec_bytes().is_suffix_of(path) {
        Some(TransactionField::Indicator)
    } else if "Ntry/BookgDt/DtTm".spec_bytes().is_suffix_of(path) {
        Some(TransactionField::BookingDate)
    } else if "Ntry/BkTxCd/Prtry/Cd".spec_bytes().is_suffix_of(path) {
        Some(TransactionField::BankCode)
    } else if "Ntry/AddtlNtryInf".spec_bytes().is_suffix_of(path) {
        Some(TransactionField::AdditionalInfo)
    } else {
        None
    }
}

/// Whether character data under `path` is the total of an entry's charges.
pub open spec fn is_charges_path(path: Seq<u8>) -> bool {
    "Chrgs/TtlChrgsAndTaxAmt".spec_bytes().is_suffix_of(path)
}

/// Looks a path up in the table of header fields.
pub fn find_header_field(path: &[u8]) -> (field: Option<HeaderField>)
    ensures
        field == header_field(path@),
{
    if bytes_end_with(path, "Stmt/Id".as_bytes()) {
        Some(HeaderField::Id)
    } else if bytes_end_with(path, "Stmt/CreDtTm".as_bytes()) {
        Some(HeaderField::CreationDateTime)
    } else if bytes_end_with(path, "FrToDt/FrDtTm".as_bytes()) {
        Some(HeaderField::FromDateTime)
    } else if bytes_end_with(path, "FrToDt/ToDtTm".as_bytes()) {
        Some(HeaderField::ToDateTime)
    } else if bytes_end_with(path, "Acct/Id/IBAN".as_bytes()) {
        Some(HeaderField::Iban)
    } else if bytes_end_with(path, "Acct/Ccy".as_bytes()) {
        Some(HeaderField::Currency)
    } else if bytes_end_with(path, "Acct/Ownr/Nm".as_bytes()) {
        Some(HeaderField::OwnerName)
    } else {
        None
    }
}

/// Looks a path up in the table of balance fields.
pub fn find_balance_field(path: &[u8]) -> (field: Option<BalanceField>)
    ensures
        field == balance_field(path@),
{
    if bytes_end_with(path, "Bal/Tp/CdOrPrtry/Cd".as_bytes()) {
        Some(BalanceField::Type)
    } else if bytes_end_with(path, "Bal/CdtDbtInd".as_bytes()) {
        Some(BalanceField::Indicator)
    } else if bytes_end_with(path, "Bal/Dt/DtTm".as_bytes()) {
        Some(BalanceField::Date)
    } else {
        None
    }
}

/// Looks a path up in the table of entry fields.
pub fn find_transaction_field(path: &[u8]) -> (field: Option<TransactionField>)
    ensures
        field == transaction_field(path@),
{
    if bytes_end_with(path, "Ntry/CdtDbtInd".as_bytes()) {
        Some(TransactionField::Indicator)
    } else if bytes_end_with(path, "Ntry/BookgDt/DtTm".as_bytes()) {
        Some(TransactionField::BookingDate)
    } else if bytes_end_with(path, "Ntry/BkTxCd/Prtry/Cd".as_bytes()) {
        Some(TransactionField::BankCode)
    } else if bytes_end_with(path, "Ntry/AddtlNtryInf".as_bytes()) {
        Some(TransactionField::AdditionalInfo)
    } else {
        None
    }
}

/// Whether a path names the total of an entry's charges.
pub fn is_charges(path: &[u8]) -> (found: bool)
    ensures
        found == is_charges_path(path@),
{
    bytes_end_with(path, "Chrgs/TtlChrgsAndTaxAmt".as_bytes())
}

/// A statement with one header field replaced.
pub open spec fn with_header_field(
    statement: StatementView,
    field: HeaderField,
    text: Seq<char>,
) -> StatementView {
    match field {
        HeaderField::Id => StatementView { id: text, ..statement },
        HeaderField::CreationDateTime => StatementView { creation_datetime: text, ..statement },
        HeaderField::FromDateTime => StatementView { from_datetime: text, ..statement },
        HeaderField::ToDateTime => StatementView { to_datetime: text, ..statement },
        HeaderField::Iban => StatementView { iban: text, ..statement },
        HeaderField::Currency => StatementView { currency: text, ..statement },
        HeaderField::OwnerName => StatementView { owner_name: text, ..statement },
    }
}

/// A balance with one field replaced.
pub open spec fn with_balance_field(
    balance: BalanceView,
    field: BalanceField,
    text: Seq<char>,
) -> BalanceView {
    match field {
        BalanceField::Type => BalanceView { balance_type: text, ..balance },
        BalanceField::Indicator => BalanceView { credit_debit_ind: text, ..balance },
        BalanceField::Date => BalanceView { date: text, ..balance },
    }
}

/// An entry with one field replaced.
pub open spec fn with_transaction_field(
    transaction: TransactionView,
    field: TransactionField,
    text: Seq<char>,
) -> TransactionView {
    match field {
        TransactionField::Indicator => TransactionView { credit_debit_ind: text, ..transaction },
        TransactionField::BookingDate => TransactionView { booking_date: text, ..transaction },
        TransactionField::BankCode => TransactionView { bank_tx_code: text, ..transaction },
        TransactionField::AdditionalInfo => TransactionView {
            additional_info: text,
            ..transaction
        },
    }
}

/// The text of character data: its bytes decoded as UTF-8, then unescaped.
pub open spec fn decoded_text(content: Seq<u8>) -> Result<Seq<char>, ParseError> {
    if !valid_utf8(content) {
        Err(ParseError::InvalidEncoding)
    } else {
        match xml_unescaped(decode_utf8(content)) {
            Some(text) => Ok(text),
            None => Err(ParseError::InvalidEscape),
        }
    }
}

/// The model of a text that was read or refused.
pub open spec fn text_result(result: Result<String, ParseError>) -> Result<Seq<char>, ParseError> {
    match result {
        Ok(text) => Ok(text@),
        Err(error) => Err(error),
    }
}

/// Decodes and unescapes the character data of a text event.
pub fn decode_text(content: &[u8]) -> (result: Result<String, ParseError>)
    ensures
        text_result(result) == decoded_text(content@),
{
    match utf8_string(copy_bytes(content)) {
        None => Err(ParseError::InvalidEncoding),
        Some(escaped) => match unescape(escaped.as_str()) {
            Some(text) => Ok(text),
            None => Err(ParseError::InvalidEscape),
        },
    }
}

/// Name of the element that holds a balance.
pub open spec fn balance_tag() -> Seq<u8> {
    "Bal".spec_bytes()
}

/// Name of the element that holds an entry.
pub open spec fn entry_tag() -> Seq<u8> {
    "Ntry".spec_bytes()
}

/// Name of the element that holds the charges of an entry.
pub open spec fn charges_tag() -> Seq<u8> {
    "Chrgs".spec_bytes()
}

/// What the first pass knows at some point of the document: the statement so
/// far, the balance and the entry being filled, the names of the open
/// elements, and which of the three scopes it is in.
#[derive(Debug)]
pub struct Scanner {
    /// The statement as far as it has been read.
    pub statement: Statement,
    /// The balance opened last.
    pub balance: Balance,
    /// The entry opened last.
    pub transaction: Transaction,
    /// Names of the open elements, outermost first.
    pub path: Vec<Vec<u8>>,
    /// Whether a balance is open.
    pub in_balance: bool,
    /// Whether an entry is open.
    pub in_transaction: bool,
    /// Whether the charges of an entry are open.
    pub in_charges: bool,
}

/// Mathematical model of a [`Scanner`].
pub struct ScannerView {
    pub statement: StatementView,
    pub balance: BalanceView,
    pub transaction: TransactionView,
    pub path: Seq<Seq<u8>>,
    pub in_balance: bool,
    pub in_transaction: bool,
    pub in_charges: bool,
}

impl View for Scanner {
    type V = ScannerView;

    open spec fn view(&self) -> ScannerView {
        ScannerView {
            statement: self.statement@,
            balance: self.balance@,
            transaction: self.transaction@,
            path: byte_rows(self.path@),
            in_balance: self.in_balance,
            in_transaction: self.in_transaction,
            in_charges: self.in_charges,
        }
    }
}

/// The scanner before the first event.
pub open spec fn initial_scan() -> ScannerView {
    ScannerView {
        statement: empty_statement(),
        balance: empty_balance(),
        transaction: empty_transaction(),
        path: Seq::empty(),
        in_balance: false,
        in_transaction: false,
        in_charges: false,
    }
}

/// The scanner after a start tag. The name joins the path; a balance or an
/// entry starts afresh, and the scope of the element opens.
pub open spec fn scan_start(state: ScannerView, name: Seq<u8>) -> Result<ScannerView, ParseError> {
    if !valid_utf8(name) {
        Err(ParseError::InvalidName)
    } else {
        let entered = ScannerView { path: state.path.push(name), ..state };
        if name == balance_tag() {
            Ok(ScannerView { in_balance: true, balance: empty_balance(), ..entered })
        } else if name == entry_tag() {
            Ok(ScannerView { in_transaction: true, transaction: empty_transaction(), ..entered })
        } else if name == charges_tag() {
            Ok(ScannerView { in_charges: true, ..entered })
        } else {
            Ok(entered)
        }
    }
}

/// The path without its innermost name, if it has one.
pub open spec fn parent_path(path: Seq<Seq<u8>>) -> Seq<Seq<u8>> {
    if path.len() > 0 {
        path.drop_last()
    } else {
        path
    }
}

/// The scanner after an end tag. A balance or an entry that closes is
/// appended to the statement as it stands, the scope of the element closes,
/// and the innermost name leaves the path.
pub open spec fn scan_end(state: ScannerView, name: Seq<u8>) -> Result<ScannerView, ParseError> {
    if !valid_utf8(name) {
        Err(ParseError::InvalidName)
    } else {
        let left = ScannerView { path: parent_path(state.path), ..state };
        if name == balance_tag() {
            Ok(
                ScannerView {
                    in_balance: false,
                    statement: StatementView {
                        balances: state.statement.balances.push(state.balance),
                        ..state.statement
                    },
                    ..left
                },
            )
        } else if name == entry_tag() {
            Ok(
                ScannerView {
                    in_transaction: false,
                    in_charges: false,
                    statement: StatementView {
                        transactions: state.statement.transactions.push(state.transaction),
                        ..state.statement
                    },
                    ..left
                },
            )
        } else if name == charges_tag() {
            Ok(ScannerView { in_charges: false, ..left })
        } else {
            Ok(left)
        }
    }
}

/// The entry after character data under `path`: the field that the path
/// stands for is replaced, and so is the total of charges where the path names
/// it and the charges are open.
pub open spec fn transaction_after_text(
    transaction: TransactionView,
    in_charges: bool,
    path: Seq<u8>,
    text: Seq<char>,
) -> TransactionView {
    let filled = match transaction_field(path) {
        Some(field) => with_transaction_field(transaction, field, text),
        None => transaction,
    };
    if in_charges && is_charges_path(path) {
        TransactionView { charges: Some(text), ..filled }
    } else {
        filled
    }
}

/// The scanner after character data. The header takes the text where the
/// path stands for one of its fields; the open balance and the open entry
/// take it where the path stands for one of theirs.
pub open spec fn scan_text(state: ScannerView, text: Seq<char>) -> ScannerView {
    let path = joined_path(state.path);
    ScannerView {
        statement: match header_field(path) {
            Some(field) => with_header_field(state.statement, field, text),
            None => state.statement,
        },
        balance: if state.in_balance {
            match balance_field(path) {
                Some(field) => with_balance_field(state.balance, field, text),
                None => state.balance,
            }
        } else {
            state.balance
        },
        transaction: if state.in_transaction {
            transaction_after_text(state.transaction, state.in_charges, path, text)
        } else {
            state.transaction
        },
        ..state
    }
}

/// The scanner after one event, or the error that the event is refused with.
pub open spec fn scan_event(state: ScannerView, event: SourceEventView) -> Result<
    ScannerView,
    ParseError,
> {
    match event {
        SourceEventView::Start { name, attributes } => scan_start(state, name),
        SourceEventView::End { name } => scan_end(state, name),
        SourceEventView::Text { content } => match decoded_text(content) {
            Ok(text) => Ok(scan_text(state, text)),
            Err(error) => Err(error),
        },
        SourceEventView::Empty => Ok(state),
        SourceEventView::CData => Ok(state),
        SourceEventView::Comment => Ok(state),
        SourceEventView::Declaration => Ok(state),
        SourceEventView::Instruction => Ok(state),
        SourceEventView::DocType => Ok(state),
    }
}

/// The scanner after the events from `position` on, or the error of the
/// first event that is refused.
pub open spec fn scan_from(
    events: Seq<SourceEventView>,
    position: int,
    state: ScannerView,
) -> Result<ScannerView, ParseError>
    decreases events.len() - position,
{
    if position < 0 || position >= events.len() {
        Ok(state)
    } else {
        match scan_event(state, events[position]) {
            Ok(next) => scan_from(events, position + 1, next),
            Err(error) => Err(error),
        }
    }
}

/// The scanner after all of `events`, or the error of the first event that is
/// refused.
pub open spec fn scanned(events: Seq<SourceEventView>) -> Result<ScannerView, ParseError> {
    scan_from(events, 0, initial_scan())
}

/// The model of a scanner that was handed back or refused.
pub open spec fn scanner_result(result: Result<Scanner, ParseError>) -> Result<
    ScannerView,
    ParseError,
> {
    match result {
        Ok(scanner) => Ok(scanner@),
        Err(error) => Err(error),
    }
}

/// Whether a step of the scanner ended as its model says.
pub open spec fn step_matches(
    result: Result<(), ParseError>,
    after: ScannerView,
    expected: Result<ScannerView, ParseError>,
) -> bool {
    match expected {
        Ok(next) => result is Ok && after == next,
        Err(error) => result == Err::<(), ParseError>(error),
    }
}

impl Scanner {
    /// The scanner before the first event.
    pub fn new() -> (scanner: Scanner)
        ensures
            scanner@ == initial_scan(),
    {
        let scanner = Scanner {
            statement: Statement::default(),
            balance: Balance::default(),
            transaction: Transaction::default(),
            path: Vec::new(),
            in_balance: false,
            in_transaction: false,
            in_charges: false,
        };
        assert(scanner@.path =~= Seq::empty());
        scanner
    }

    /// Takes a start tag in.
    pub fn start_element(&mut self, name: &[u8]) -> (result: Result<(), ParseError>)
        ensures
            step_matches(result, final(self)@, scan_start(old(self)@, name@)),
    {
        if utf8_string(copy_bytes(name)).is_none() {
            return Err(ParseError::InvalidName);
        }
        self.path.push(copy_bytes(name));
        assert(byte_rows(self.path@) =~= byte_rows(old(self).path@).push(name@));
        if bytes_equal(name, "Bal".as_bytes()) {
            self.in_balance = true;
            self.balance = Balance::default();
        } else if bytes_equal(name, "Ntry".as_bytes()) {
            self.in_transaction = true;
            self.transaction = Transaction::default();
        } else if bytes_equal(name, "Chrgs".as_bytes()) {
            self.in_charges = true;
        }
        Ok(())
    }

    /// Takes an end tag in.
    pub fn end_element(&mut self, name: &[u8]) -> (result: Result<(), ParseError>)
        ensures
            step_matches(result, final(self)@, scan_end(old(self)@, name@)),
    {
        if utf8_string(copy_bytes(name)).is_none() {
            return Err(ParseError::InvalidName);
        }
        if bytes_equal(name, "Bal".as_bytes()) {
            self.in_balance = false;
            let balance = self.balance.clone();
            self.statement.balances.push(balance);
            assert(balance_views(self.statement.balances@) =~= balance_views(
                old(self).statement.balances@,
            ).push(balance@));
        } else if bytes_equal(name, "Ntry".as_bytes()) {
            self.in_transaction = false;
            self.in_charges = false;
            let transaction = self.transaction.clone();
            self.statement.transactions.push(transaction);
            assert(transaction_views(self.statement.transactions@) =~= transaction_views(
                old(self).statement.transactions@,
            ).push(transaction@));
        } else if bytes_equal(name, "Chrgs".as_bytes()) {
            self.in_charges = false;
        }
        self.path.pop();
        assert(byte_rows(self.path@) =~= parent_path(byte_rows(old(self).path@)));
        Ok(())
    }

    /// Takes character data in.
    pub fn character_data(&mut self, text: &String)
        ensures
            final(self)@ == scan_text(old(self)@, text@),
    {
        let path = join_path(&self.path);
        match find_header_field(path.as_slice()) {
            Some(HeaderField::Id) => {
                self.statement.id = text.clone();
            },
            Some(HeaderField::CreationDateTime) => {
                self.statement.creation_datetime = text.clone();
            },
            Some(HeaderField::FromDateTime) => {
                self.statement.from_datetime = text.clone();
            },
            Some(HeaderField::ToDateTime) => {
                self.statement.to_datetime = text.clone();
            },
            Some(HeaderField::Iban) => {
                self.statement.iban = text.clone();
            },
            Some(HeaderField::Currency) => {
                self.statement.currency = text.clone();
            },
            Some(HeaderField::OwnerName) => {
                self.statement.owner_name = text.clone();
            },
            None => {},
        }
        if self.in_balance {
            match find_balance_field(path.as_slice()) {
                Some(BalanceField::Type) => {
                    self.balance.balance_type = text.clone();
                },
                Some(BalanceField::Indicator) => {
                    self.balance.credit_debit_ind = text.clone();
                },
                Some(BalanceField::Date) => {
                    self.balance.date = text.clone();
                },
                None => {},
            }
        }
        if self.in_transaction {
            match find_transaction_field(path.as_slice()) {
                Some(TransactionField::Indicator) => {
                    self.transaction.credit_debit_ind = text.clone();
                },
                Some(TransactionField::BookingDate) => {
                    self.transaction.booking_date = text.clone();
                },
                Some(TransactionField::BankCode) => {
                    self.transaction.bank_tx_code = text.clone();
                },
                Some(TransactionField::AdditionalInfo) => {
                    self.transaction.additional_info = text.clone();
                },
                None => {},
            }
            if self.in_charges && is_charges(path.as_slice()) {
                self.transaction.charges = Some(text.clone());
            }
        }
    }

    /// Takes one event in.
    pub fn step(&mut self, event: &SourceEvent) -> (result: Result<(), ParseError>)
        ensures
            step_matches(result, final(self)@, scan_event(old(self)@, event@)),
    {
        match event {
            SourceEvent::Start { name, attributes } => self.start_element(name.as_slice()),
            SourceEvent::End { name } => self.end_element(name.as_slice()),
            SourceEvent::Text { content } => match decode_text(content.as_slice()) {
                Ok(text) => {
                    self.character_data(&text);
                    Ok(())
                },
                Err(error) => Err(error),
            },
            SourceEvent::Empty => Ok(()),
            SourceEvent::CData => Ok(()),
            SourceEvent::Comment => Ok(()),
            SourceEvent::Declaration => Ok(()),
            SourceEvent::Instruction => Ok(()),
            SourceEvent::DocType => Ok(()),
        }
    }
}

/// Runs the first pass over the events of a document.
pub fn scan_events(events: &Vec<SourceEvent>) -> (result: Result<Scanner, ParseError>)
    ensures
        scanner_result(result) == scanned(event_views(events@)),
{
    let ghost views = event_views(events@);
    let mut scanner = Scanner::new();
    let mut i: usize = 0;
    while i < events.len()
        invariant
            i <= events.len(),
            views == event_views(events@),
            scanned(views) == scan_from(views, i as int, scanner@),
        decreases events.len() - i,
    {
        match scanner.step(&events[i]) {
            Ok(()) => {},
            Err(error) => {
                return Err(error);
            },
        }
        i += 1;
    }
    Ok(scanner)
}

/// The first pass only ever appends: the balances and entries that the
/// statement holds at some point of the document are, in the same order, the
/// first ones of the statement at any later point. So the balance or entry of
/// some number in the statement is the one whose element closed as that many
/// had closed before it.
pub proof fn lemma_scan_keeps_order(
    events: Seq<SourceEventView>,
    position: int,
    state: ScannerView,
)
    ensures
        scan_from(events, position, state) matches Ok(last) ==> {
            &&& state.statement.balances.is_prefix_of(last.statement.balances)
            &&& state.statement.transactions.is_prefix_of(last.statement.transactions)
        },
    decreases events.len() - position,
{
    if 0 <= position < events.len() {
        match scan_event(state, events[position]) {
            Ok(next) => {
                lemma_scan_step_appends(state, events[position]);
                lemma_scan_keeps_order(events, position + 1, next);
            },
            Err(_) => {},
        }
    }
}

/// One event leaves the balances and the entries of the statement as they
/// are, but for the end tag of a balance or of an entry, which appends the one
/// that was open.
pub proof fn lemma_scan_step_appends(state: ScannerView, event: SourceEventView)
    ensures
        scan_event(state, event) matches Ok(next) ==> {
            &&& next.statement.balances == if event matches SourceEventView::End { name }
                && name == balance_tag() {
                state.statement.balances.push(state.balance)
            } else {
                state.statement.balances
            }
            &&& next.statement.transactions == if event matches SourceEventView::End { name }
                && name == entry_tag() {
                state.statement.transactions.push(state.transaction)
            } else {
                state.statement.transactions
            }
            &&& state.statement.balances.is_prefix_of(next.statement.balances)
            &&& state.statement.transactions.is_prefix_of(next.statement.transactions)
        },
{
    lemma_scope_tags_differ();
}

/// The names of the three elements that open a scope are pairwise different.
pub proof fn lemma_scope_tags_differ()
    ensures
        balance_tag() != entry_tag(),
        balance_tag() != charges_tag(),
        entry_tag() != charges_tag(),
{
    broadcast use vstd::string::is_ascii_spec_bytes;

    reveal_strlit("Bal");
    reveal_strlit("Ntry");
    reveal_strlit("Chrgs");
    assert(vstd::string::is_ascii("Bal"));
    assert(vstd::string::is_ascii("Ntry"));
    assert(vstd::string::is_ascii("Chrgs"));
}

/// The number of end tags named `tag` among the events from `position` on.
pub open spec fn closed_from(events: Seq<SourceEventView>, position: int, tag: Seq<u8>) -> nat
    decreases events.len() - position,
{
    if position < 0 || position >= events.len() {
        0
    } else if events[position] matches SourceEventView::End { name } && name == tag {
        1 + closed_from(events, position + 1, tag)
    } else {
        closed_from(events, position + 1, tag)
    }
}

/// From any point of a document on, the first pass appends one balance for
/// every balance element that closes and one entry for every entry element
/// that closes.
pub proof fn lemma_scan_counts(events: Seq<SourceEventView>, position: int, state: ScannerView)
    ensures
        scan_from(events, position, state) matches Ok(last) ==> {
            &&& last.statement.balances.len() == state.statement.balances.len() + closed_from(
                events,
                position,
                balance_tag(),
            )
            &&& last.statement.transactions.len() == state.statement.transactions.len()
                + closed_from(events, position, entry_tag())
        },
    decreases events.len() - position,
{
    if 0 <= position < events.len() {
        match scan_event(state, events[position]) {
            Ok(next) => {
                lemma_scope_tags_differ();
                lemma_scan_step_appends(state, events[position]);
                lemma_scan_counts(events, position + 1, next);
            },
            Err(_) => {},
        }
    }
}

/// A statement holds exactly one balance for every balance element of its
/// document and one entry for every entry element.
pub proof fn lemma_one_record_per_element(events: Seq<SourceEventView>)
    ensures
        scanned(events) matches Ok(last) ==> {
            &&& last.statement.balances.len() == closed_from(events, 0, balance_tag())
            &&& last.statement.transactions.len() == closed_from(events, 0, entry_tag())
        },
{
    lemma_scan_counts(events, 0, initial_scan());
}

/// What of the scanner the open balance depends on: the names of the open
/// elements, whether a balance is open, and the balance as far as it is
/// filled.
pub open spec fn balance_scope(state: ScannerView) -> (Seq<Seq<u8>>, bool, BalanceView) {
    (state.path, state.in_balance, state.balance)
}

/// What of the scanner the open entry depends on: the names of the open
/// elements, whether an entry and its charges are open, and the entry as far
/// as it is filled.
pub open spec fn transaction_scope(state: ScannerView) -> (
    Seq<Seq<u8>>,
    bool,
    bool,
    TransactionView,
) {
    (state.path, state.in_transaction, state.in_charges, state.transaction)
}

/// Whether an event is refused does not depend on the scanner, and what an
/// event makes of the open balance and of the open entry depends on nothing
/// but their own scopes.
pub proof fn lemma_scopes_step(first: ScannerView, second: ScannerView, event: SourceEventView)
    ensures
        scan_event(first, event) is Ok <==> scan_event(second, event) is Ok,
        scan_event(first, event) is Ok && scan_event(second, event) is Ok ==> {
            let a = scan_event(first, event)->Ok_0;
            let b = scan_event(second, event)->Ok_0;
            &&& balance_scope(first) == balance_scope(second) ==> balance_scope(a)
                == balance_scope(b)
            &&& transaction_scope(first) == transaction_scope(second) ==> transaction_scope(a)
                == transaction_scope(b)
        },
{
}

/// A balance holds the texts of its own element only: from the start tag of
/// a balance on, the balance that is open is the same whatever the statement,
/// the entries and the earlier balances hold, as long as the same elements are
/// open. The same is true of an entry.
pub proof fn lemma_records_hold_their_own_texts(
    events: Seq<SourceEventView>,
    position: int,
    first: ScannerView,
    second: ScannerView,
)
    ensures
        scan_from(events, position, first) is Ok <==> scan_from(events, position, second) is Ok,
        scan_from(events, position, first) is Ok && scan_from(events, position, second) is Ok
            ==> {
            let a = scan_from(events, position, first)->Ok_0;
            let b = scan_from(events, position, second)->Ok_0;
            &&& balance_scope(first) == balance_scope(second) ==> balance_scope(a)
                == balance_scope(b)
            &&& transaction_scope(first) == transaction_scope(second) ==> transaction_scope(a)
                == transaction_scope(b)
        },
    decreases events.len() - position,
{
    if 0 <= position < events.len() {
        lemma_scopes_step(first, second, events[position]);
        if scan_event(first, events[position]) is Ok {
            lemma_records_hold_their_own_texts(
                events,
                position + 1,
                scan_event(first, events[position])->Ok_0,
                scan_event(second, events[position])->Ok_0,
            );
        }
    }
}

/// The start tag of a balance leaves nothing of an earlier balance, and the
/// start tag of an entry nothing of an earlier entry: the record that opens
/// is empty.
pub proof fn lemma_record_opens_empty(state: ScannerView)
    ensures
        scan_start(state, balance_tag()) matches Ok(opened) ==> opened.in_balance && opened.balance
            == empty_balance(),
        scan_start(state, entry_tag()) matches Ok(opened) ==> opened.in_transaction
            && opened.transaction == empty_transaction(),
{
    lemma_scope_tags_differ();
}

/// Character data met while no balance is open leaves the balance as it is,
/// and character data met while no entry is open leaves the entry as it is.
pub proof fn lemma_text_outside_is_not_taken(state: ScannerView, text: Seq<char>)
    ensures
        !state.in_balance ==> scan_text(state, text).balance == state.balance,
        !state.in_transaction ==> scan_text(state, text).transaction == state.transaction,
{
}

} // verus!
