//! The layout of the target document.
//!
//! A statement is written as `camt.053.001.08`: the group header, then the
//! statement with its account, its balances and its entries. What the older
//! schema asks for and the source does not carry is filled with fixed values.

use crate::datetime::{convert_datetime, convert_datetime_to_date, date_part, offset_datetime};
use crate::error::WriteError;
use crate::model::{
    balance_views, transaction_views, Balance, BalanceView, Statement, StatementView, Transaction,
    TransactionView,
};
use crate::reference::{generate_transaction_reference, transaction_reference};
use crate::target::{
    document_bytes, event_views, render_events, TargetAttribute, TargetAttributeView, TargetEvent,
    TargetEventView,
};
use crate::text::{normalize_whitespace, normalized_whitespace, text_starts_with};
use vstd::prelude::*;

verus! {

/// Version of XML that the declaration names.
pub const XML_VERSION: &'static str = "1.0";

/// Encoding that the declaration names.
pub const XML_ENCODING: &'static str = "UTF-8";

/// Namespace of the target schema.
pub const TARGET_NAMESPACE: &'static str = "urn:iso:std:iso:20022:tech:xsd:camt.053.001.08";

/// Namespace of XML Schema instances.
pub const INSTANCE_NAMESPACE: &'static str = "http://www.w3.org/2001/XMLSchema-instance";

/// Stands in for the identifier of the recipient and of the servicer, which
/// the source does not name.
pub const PLACEHOLDER_BIC: &'static str = "XXXXXXXX";

/// Stands in for the name of the servicer.
pub const SERVICER_NAME: &'static str = "Bank";

/// Stands in for the servicer's other identifier.
pub const SERVICER_ID: &'static str = "XXX-000.000.000";

/// Issuer of the servicer's other identifier.
pub const SERVICER_ISSUER: &'static str = "ID";

/// The one page that a converted message has.
pub const PAGE_NUMBER: &'static str = "1";

/// Says that the one page is the last.
pub const LAST_PAGE: &'static str = "true";

/// Additional information of the group header.
pub const MESSAGE_INFO: &'static str = "SPS/2.1";

/// Electronic sequence number of the one statement.
pub const SEQUENCE_NUMBER: &'static str = "1";

/// Status of every entry.
pub const BOOKED_STATUS: &'static str = "BOOK";

/// Domain of every bank transaction code.
pub const PAYMENT_DOMAIN: &'static str = "PMNT";

/// A start tag without attributes.
pub open spec fn start(name: Seq<char>) -> TargetEventView {
    TargetEventView::Start { name, attributes: Seq::empty() }
}

/// An end tag.
pub open spec fn end(name: Seq<char>) -> TargetEventView {
    TargetEventView::End { name }
}

/// Character data.
pub open spec fn text(content: Seq<char>) -> TargetEventView {
    TargetEventView::Text { content }
}

/// An element that holds text only.
pub open spec fn element(name: Seq<char>, value: Seq<char>) -> Seq<TargetEventView> {
    seq![start(name), text(value), end(name)]
}

/// An element around other events.
pub open spec fn wrapped(name: Seq<char>, inner: Seq<TargetEventView>) -> Seq<TargetEventView> {
    seq![start(name)] + inner + seq![end(name)]
}

/// An amount: the text of the amount in an element that names the currency.
pub open spec fn amount_element(amount: Seq<char>, currency: Seq<char>) -> Seq<TargetEventView> {
    seq![
        TargetEventView::Start {
            name: "Amt"@,
            attributes: seq![TargetAttributeView { name: "Ccy"@, value: currency }],
        },
        text(amount),
        end("Amt"@),
    ]
}

/// Appends a start tag without attributes.
pub fn open_element(out: &mut Vec<TargetEvent>, name: &str)
    ensures
        event_views(final(out)@) == event_views(old(out)@).push(start(name@)),
{
    let event = TargetEvent::Start { name: name.to_owned(), attributes: Vec::new() };
    assert(event@ == start(name@)) by {
        assert(event@->Start_attributes =~= Seq::empty());
    }
    out.push(event);
    assert(event_views(out@) =~= event_views(old(out)@).push(start(name@)));
}

/// Appends an end tag.
pub fn close_element(out: &mut Vec<TargetEvent>, name: &str)
    ensures
        event_views(final(out)@) == event_views(old(out)@).push(end(name@)),
{
    out.push(TargetEvent::End { name: name.to_owned() });
}

/// Appends character data.
pub fn write_text(out: &mut Vec<TargetEvent>, content: &str)
    ensures
        event_views(final(out)@) == event_views(old(out)@).push(text(content@)),
{
    out.push(TargetEvent::Text { content: content.to_owned() });
}

/// Appends an element that holds text only.
pub fn write_element(out: &mut Vec<TargetEvent>, name: &str, value: &str)
    ensures
        event_views(final(out)@) == event_views(old(out)@) + element(name@, value@),
{
    open_element(out, name);
    write_text(out, value);
    close_element(out, name);
}

/// Appends an amount with its currency.
pub fn write_amount(out: &mut Vec<TargetEvent>, amount: &str, currency: &str)
    ensures
        event_views(final(out)@) == event_views(old(out)@) + amount_element(amount@, currency@),
{
    let mut attributes: Vec<TargetAttribute> = Vec::new();
    attributes.push(TargetAttribute { name: "Ccy".to_owned(), value: currency.to_owned() });
    let event = TargetEvent::Start { name: "Amt".to_owned(), attributes };
    assert(event@ == amount_element(amount@, currency@)[0]) by {
        assert(event@->Start_attributes =~= seq![
            TargetAttributeView { name: "Ccy"@, value: currency@ },
        ]);
    }
    out.push(event);
    write_text(out, amount);
    close_element(out, "Amt");
    assert(event_views(out@) =~= event_views(old(out)@) + amount_element(amount@, currency@));
}

/// The group header: the identifier of the message, when it was created, a
/// recipient, one page that is the last, and the additional information.
pub open spec fn group_header(statement: StatementView) -> Seq<TargetEventView> {
    wrapped(
        "GrpHdr"@,
        element("MsgId"@, statement.id)
            + element("CreDtTm"@, offset_datetime(statement.creation_datetime))
            + wrapped(
                "MsgRcpt"@,
                wrapped("Id"@, wrapped("OrgId"@, element("AnyBIC"@, PLACEHOLDER_BIC@))),
            )
            + wrapped(
                "MsgPgntn"@,
                element("PgNb"@, PAGE_NUMBER@) + element("LastPgInd"@, LAST_PAGE@),
            )
            + element("AddtlInf"@, MESSAGE_INFO@),
    )
}

/// Appends the group header of a statement's message.
pub fn write_group_header(out: &mut Vec<TargetEvent>, statement: &Statement)
    ensures
        event_views(final(out)@) == event_views(old(out)@) + group_header(statement@),
{
    open_element(out, "GrpHdr");
    write_element(out, "MsgId", statement.id.as_str());
    write_element(out, "CreDtTm", convert_datetime(statement.creation_datetime.as_str()).as_str());
    open_element(out, "MsgRcpt");
    open_element(out, "Id");
    open_element(out, "OrgId");
    write_element(out, "AnyBIC", PLACEHOLDER_BIC);
    close_element(out, "OrgId");
    close_element(out, "Id");
    close_element(out, "MsgRcpt");
    open_element(out, "MsgPgntn");
    write_element(out, "PgNb", PAGE_NUMBER);
    write_element(out, "LastPgInd", LAST_PAGE);
    close_element(out, "MsgPgntn");
    write_element(out, "AddtlInf", MESSAGE_INFO);
    close_element(out, "GrpHdr");
}

/// What the bank transaction code of a card payment starts with.
pub const CARD_PREFIX: &'static str = "CARD";

/// The two families of transactions that the target document tells apart.
#[derive(Debug, Clone, Copy, PartialEq, Eq, Structural)]
pub enum TransactionFamily {
    /// A card payment at a point of sale.
    CardPayment,
    /// A credit transfer; every entry that is no card payment counts as one.
    CreditTransfer,
}

impl TransactionFamily {
    /// The family code of the target schema.
    pub open spec fn family_code(self) -> Seq<char> {
        match self {
            TransactionFamily::CardPayment => "CCRD"@,
            TransactionFamily::CreditTransfer => "ICDT"@,
        }
    }

    /// The sub-family code of the target schema.
    pub open spec fn sub_family_code(self) -> Seq<char> {
        match self {
            TransactionFamily::CardPayment => "POSD"@,
            TransactionFamily::CreditTransfer => "ESCT"@,
        }
    }

    /// The family code of the target schema.
    pub fn code(self) -> (code: &'static str)
        ensures
            code@ == self.family_code(),
    {
        match self {
            TransactionFamily::CardPayment => "CCRD",
            TransactionFamily::CreditTransfer => "ICDT",
        }
    }

    /// The sub-family code of the target schema.
    pub fn sub_code(self) -> (code: &'static str)
        ensures
            code@ == self.sub_family_code(),
    {
        match self {
            TransactionFamily::CardPayment => "POSD",
            TransactionFamily::CreditTransfer => "ESCT",
        }
    }
}

/// The family of an entry with this bank transaction code: a card payment
/// where the code starts with `CARD`, a credit transfer otherwise.
pub open spec fn family_of(bank_tx_code: Seq<char>) -> TransactionFamily {
    if CARD_PREFIX@.is_prefix_of(bank_tx_code) {
        TransactionFamily::CardPayment
    } else {
        TransactionFamily::CreditTransfer
    }
}

/// Tells the family of an entry from its bank transaction code.
pub fn classify(bank_tx_code: &str) -> (family: TransactionFamily)
    ensures
        family == family_of(bank_tx_code@),
{
    if text_starts_with(bank_tx_code, CARD_PREFIX) {
        TransactionFamily::CardPayment
    } else {
        TransactionFamily::CreditTransfer
    }
}

/// A balance: its type, its amount, its indicator, and the date of its
/// timestamp.
pub open spec fn balance_events(balance: BalanceView) -> Seq<TargetEventView> {
    wrapped(
        "Bal"@,
        wrapped("Tp"@, wrapped("CdOrPrtry"@, element("Cd"@, balance.balance_type)))
            + amount_element(balance.amount, balance.currency)
            + element("CdtDbtInd"@, balance.credit_debit_ind)
            + wrapped("Dt"@, element("Dt"@, date_part(balance.date))),
    )
}

/// Appends a balance.
pub fn write_balance(out: &mut Vec<TargetEvent>, balance: &Balance)
    ensures
        event_views(final(out)@) == event_views(old(out)@) + balance_events(balance@),
{
    open_element(out, "Bal");
    open_element(out, "Tp");
    open_element(out, "CdOrPrtry");
    write_element(out, "Cd", balance.balance_type.as_str());
    close_element(out, "CdOrPrtry");
    close_element(out, "Tp");
    write_amount(out, balance.amount.as_str(), balance.currency.as_str());
    write_element(out, "CdtDbtInd", balance.credit_debit_ind.as_str());
    open_element(out, "Dt");
    write_element(out, "Dt", convert_datetime_to_date(balance.date.as_str()).as_str());
    close_element(out, "Dt");
    close_element(out, "Bal");
}

/// The classification of an entry: the payment domain, the family and the
/// sub-family that its bank transaction code stands for, and the code itself
/// as the bank's own.
pub open spec fn bank_transaction_code(bank_tx_code: Seq<char>) -> Seq<TargetEventView> {
    let family = family_of(bank_tx_code);
    wrapped(
        "BkTxCd"@,
        wrapped(
            "Domn"@,
            element("Cd"@, PAYMENT_DOMAIN@)
                + wrapped(
                    "Fmly"@,
                    element("Cd"@, family.family_code())
                        + element("SubFmlyCd"@, family.sub_family_code()),
                ),
        )
            + wrapped("Prtry"@, element("Cd"@, bank_tx_code)),
    )
}

/// Appends the classification of an entry.
pub fn write_bank_transaction_code(out: &mut Vec<TargetEvent>, bank_tx_code: &str)
    ensures
        event_views(final(out)@) == event_views(old(out)@) + bank_transaction_code(bank_tx_code@),
{
    let family = classify(bank_tx_code);
    open_element(out, "BkTxCd");
    open_element(out, "Domn");
    write_element(out, "Cd", PAYMENT_DOMAIN);
    open_element(out, "Fmly");
    write_element(out, "Cd", family.code());
    write_element(out, "SubFmlyCd", family.sub_code());
    close_element(out, "Fmly");
    close_element(out, "Domn");
    open_element(out, "Prtry");
    write_element(out, "Cd", bank_tx_code);
    close_element(out, "Prtry");
    close_element(out, "BkTxCd");
}

/// The details of an entry, which are written only where the entry has
/// additional information: the reference once more, the amount, the
/// indicator, and the information with its white space normalised as
/// unstructured remittance information.
pub open spec fn entry_details(transaction: TransactionView, reference: Seq<char>) -> Seq<
    TargetEventView,
> {
    if transaction.additional_info.len() == 0 {
        Seq::empty()
    } else {
        wrapped(
            "NtryDtls"@,
            wrapped(
                "TxDtls"@,
                wrapped("Refs"@, element("AcctSvcrRef"@, reference))
                    + amount_element(transaction.amount, transaction.currency)
                    + element("CdtDbtInd"@, transaction.credit_debit_ind)
                    + wrapped(
                        "RmtInf"@,
                        element("Ustrd"@, normalized_whitespace(transaction.additional_info)),
                    ),
            ),
        )
    }
}

/// Appends the details of an entry, if it has additional information.
pub fn write_entry_details(out: &mut Vec<TargetEvent>, transaction: &Transaction, reference: &str)
    ensures
        event_views(final(out)@) == event_views(old(out)@) + entry_details(
            transaction@,
            reference@,
        ),
{
    if !transaction.additional_info.as_str().is_empty() {
        open_element(out, "NtryDtls");
        open_element(out, "TxDtls");
        open_element(out, "Refs");
        write_element(out, "AcctSvcrRef", reference);
        close_element(out, "Refs");
        write_amount(out, transaction.amount.as_str(), transaction.currency.as_str());
        write_element(out, "CdtDbtInd", transaction.credit_debit_ind.as_str());
        open_element(out, "RmtInf");
        write_element(
            out,
            "Ustrd",
            normalize_whitespace(transaction.additional_info.as_str()).as_str(),
        );
        close_element(out, "RmtInf");
        close_element(out, "TxDtls");
        close_element(out, "NtryDtls");
    }
}

/// An entry: its amount, its indicator, the status of a booked entry, the
/// date of its booking as booking date and as value date, its reference, its
/// classification, its details where it has additional information, and the
/// additional information itself.
pub open spec fn transaction_events(transaction: TransactionView) -> Seq<TargetEventView> {
    let reference = transaction_reference(transaction);
    wrapped(
        "Ntry"@,
        amount_element(transaction.amount, transaction.currency)
            + element("CdtDbtInd"@, transaction.credit_debit_ind)
            + wrapped("Sts"@, element("Cd"@, BOOKED_STATUS@))
            + wrapped("BookgDt"@, element("Dt"@, date_part(transaction.booking_date)))
            + wrapped("ValDt"@, element("Dt"@, date_part(transaction.booking_date)))
            + element("AcctSvcrRef"@, reference)
            + bank_transaction_code(transaction.bank_tx_code)
            + entry_details(transaction, reference)
            + element("AddtlNtryInf"@, transaction.additional_info),
    )
}

/// Appends an entry.
pub fn write_transaction(out: &mut Vec<TargetEvent>, transaction: &Transaction)
    ensures
        event_views(final(out)@) == event_views(old(out)@) + transaction_events(transaction@),
{
    open_element(out, "Ntry");
    write_amount(out, transaction.amount.as_str(), transaction.currency.as_str());
    write_element(out, "CdtDbtInd", transaction.credit_debit_ind.as_str());
    open_element(out, "Sts");
    write_element(out, "Cd", BOOKED_STATUS);
    close_element(out, "Sts");
    open_element(out, "BookgDt");
    write_element(out, "Dt", convert_datetime_to_date(transaction.booking_date.as_str()).as_str());
    close_element(out, "BookgDt");
    open_element(out, "ValDt");
    write_element(out, "Dt", convert_datetime_to_date(transaction.booking_date.as_str()).as_str());
    close_element(out, "ValDt");
    let reference = generate_transaction_reference(transaction);
    write_element(out, "AcctSvcrRef", reference.as_str());
    write_bank_transaction_code(out, transaction.bank_tx_code.as_str());
    write_entry_details(out, transaction, reference.as_str());
    write_element(out, "AddtlNtryInf", transaction.additional_info.as_str());
    close_element(out, "Ntry");
}

/// The balances of a statement, one after the other.
pub open spec fn all_balances(balances: Seq<BalanceView>) -> Seq<TargetEventView>
    decreases balances.len(),
{
    if balances.len() == 0 {
        Seq::empty()
    } else {
        all_balances(balances.drop_last()) + balance_events(balances.last())
    }
}

/// The entries of a statement, one after the other.
pub open spec fn all_transactions(transactions: Seq<TransactionView>) -> Seq<TargetEventView>
    decreases transactions.len(),
{
    if transactions.len() == 0 {
        Seq::empty()
    } else {
        all_transactions(transactions.drop_last()) + transaction_events(transactions.last())
    }
}

/// Appends balances in their order.
pub fn write_balances(out: &mut Vec<TargetEvent>, balances: &Vec<Balance>)
    ensures
        event_views(final(out)@) == event_views(old(out)@) + all_balances(
            balance_views(balances@),
        ),
{
    let ghost views = balance_views(balances@);
    let mut i: usize = 0;
    while i < balances.len()
        invariant
            i <= balances.len(),
            views == balance_views(balances@),
            event_views(out@) == event_views(old(out)@) + all_balances(views.take(i as int)),
        decreases balances.len() - i,
    {
        proof {
            let next = views.take(i + 1);
            assert(next.drop_last() == views.take(i as int));
        }
        write_balance(out, &balances[i]);
        assert(event_views(out@) =~= event_views(old(out)@) + all_balances(views.take(i + 1)));
        i += 1;
    }
    assert(views.take(i as int) == views);
}

/// Appends entries in their order.
pub fn write_transactions(out: &mut Vec<TargetEvent>, transactions: &Vec<Transaction>)
    ensures
        event_views(final(out)@) == event_views(old(out)@) + all_transactions(
            transaction_views(transactions@),
        ),
{
    let ghost views = transaction_views(transactions@);
    let mut i: usize = 0;
    while i < transactions.len()
        invariant
            i <= transactions.len(),
            views == transaction_views(transactions@),
            event_views(out@) == event_views(old(out)@) + all_transactions(views.take(i as int)),
        decreases transactions.len() - i,
    {
        proof {
            let next = views.take(i + 1);
            assert(next.drop_last() == views.take(i as int));
        }
        write_transaction(out, &transactions[i]);
        assert(event_views(out@) =~= event_views(old(out)@) + all_transactions(
            views.take(i + 1),
        ));
        i += 1;
    }
    assert(views.take(i as int) == views);
}

/// The servicer of the account, which the source does not name: fixed
/// values throughout.
pub open spec fn servicer() -> Seq<TargetEventView> {
    wrapped(
        "Svcr"@,
        wrapped(
            "FinInstnId"@,
            element("BICFI"@, PLACEHOLDER_BIC@)
                + element("Nm"@, SERVICER_NAME@)
                + wrapped(
                    "Othr"@,
                    element("Id"@, SERVICER_ID@) + element("Issr"@, SERVICER_ISSUER@),
                ),
        ),
    )
}

/// The account: its IBAN, its currency, its owner and its servicer.
pub open spec fn account(statement: StatementView) -> Seq<TargetEventView> {
    wrapped(
        "Acct"@,
        wrapped("Id"@, element("IBAN"@, statement.iban))
            + element("Ccy"@, statement.currency)
            + wrapped("Ownr"@, element("Nm"@, statement.owner_name))
            + servicer(),
    )
}

/// Appends the account of a statement.
pub fn write_account(out: &mut Vec<TargetEvent>, statement: &Statement)
    ensures
        event_views(final(out)@) == event_views(old(out)@) + account(statement@),
{
    open_element(out, "Acct");
    open_element(out, "Id");
    write_element(out, "IBAN", statement.iban.as_str());
    close_element(out, "Id");
    write_element(out, "Ccy", statement.currency.as_str());
    open_element(out, "Ownr");
    write_element(out, "Nm", statement.owner_name.as_str());
    close_element(out, "Ownr");
    open_element(out, "Svcr");
    open_element(out, "FinInstnId");
    write_element(out, "BICFI", PLACEHOLDER_BIC);
    write_element(out, "Nm", SERVICER_NAME);
    open_element(out, "Othr");
    write_element(out, "Id", SERVICER_ID);
    write_element(out, "Issr", SERVICER_ISSUER);
    close_element(out, "Othr");
    close_element(out, "FinInstnId");
    close_element(out, "Svcr");
    close_element(out, "Acct");
}

/// What a statement is written with before its balances: its identifier,
/// the sequence number of the one statement, when it was created, the period
/// it covers, and the account.
pub open spec fn statement_head(statement: StatementView) -> Seq<TargetEventView> {
    element("Id"@, statement.id)
        + element("ElctrncSeqNb"@, SEQUENCE_NUMBER@)
        + element("CreDtTm"@, offset_datetime(statement.creation_datetime))
        + wrapped(
            "FrToDt"@,
            element("FrDtTm"@, offset_datetime(statement.from_datetime))
                + element("ToDtTm"@, offset_datetime(statement.to_datetime)),
        )
        + account(statement)
}

/// The statement: its head, then every balance and every entry in the order
/// of the model.
pub open spec fn statement_events(statement: StatementView) -> Seq<TargetEventView> {
    wrapped(
        "Stmt"@,
        statement_head(statement)
            + all_balances(statement.balances)
            + all_transactions(statement.transactions),
    )
}

/// Appends the statement.
pub fn write_statement(out: &mut Vec<TargetEvent>, statement: &Statement)
    ensures
        event_views(final(out)@) == event_views(old(out)@) + statement_events(statement@),
{
    open_element(out, "Stmt");
    write_element(out, "Id", statement.id.as_str());
    write_element(out, "ElctrncSeqNb", SEQUENCE_NUMBER);
    write_element(out, "CreDtTm", convert_datetime(statement.creation_datetime.as_str()).as_str());
    open_element(out, "FrToDt");
    write_element(out, "FrDtTm", convert_datetime(statement.from_datetime.as_str()).as_str());
    write_element(out, "ToDtTm", convert_datetime(statement.to_datetime.as_str()).as_str());
    close_element(out, "FrToDt");
    write_account(out, statement);
    write_balances(out, &statement.balances);
    write_transactions(out, &statement.transactions);
    close_element(out, "Stmt");
}

/// The start tag of the document, which names the two namespaces.
pub open spec fn document_start() -> TargetEventView {
    TargetEventView::Start {
        name: "Document"@,
        attributes: seq![
            TargetAttributeView { name: "xmlns"@, value: TARGET_NAMESPACE@ },
            TargetAttributeView { name: "xmlns:xsi"@, value: INSTANCE_NAMESPACE@ },
        ],
    }
}

/// The target document of a statement: the declaration, then the document
/// element around one message, which holds the group header and the
/// statement.
pub open spec fn statement_document(statement: StatementView) -> Seq<TargetEventView> {
    seq![
        TargetEventView::Declaration { version: XML_VERSION@, encoding: XML_ENCODING@ },
        document_start(),
    ]
        + wrapped("BkToCstmrStmt"@, group_header(statement) + statement_events(statement))
        + seq![end("Document"@)]
}

/// Lays a statement out as the events of the target document.
pub fn layout_document(statement: &Statement) -> (events: Vec<TargetEvent>)
    ensures
        event_views(events@) == statement_document(statement@),
{
    let mut out: Vec<TargetEvent> = Vec::new();
    out.push(
        TargetEvent::Declaration {
            version: XML_VERSION.to_owned(),
            encoding: XML_ENCODING.to_owned(),
        },
    );
    let mut attributes: Vec<TargetAttribute> = Vec::new();
    attributes.push(
        TargetAttribute { name: "xmlns".to_owned(), value: TARGET_NAMESPACE.to_owned() },
    );
    attributes.push(
        TargetAttribute { name: "xmlns:xsi".to_owned(), value: INSTANCE_NAMESPACE.to_owned() },
    );
    let root = TargetEvent::Start { name: "Document".to_owned(), attributes };
    assert(root@ == document_start()) by {
        assert(root@->Start_attributes =~= document_start()->Start_attributes);
    }
    out.push(root);
    open_element(&mut out, "BkToCstmrStmt");
    write_group_header(&mut out, statement);
    write_statement(&mut out, statement);
    close_element(&mut out, "BkToCstmrStmt");
    close_element(&mut out, "Document");
    out
}

/// The bytes of the target document of a statement.
pub open spec fn camt_08_bytes(statement: StatementView) -> Seq<u8> {
    document_bytes(statement_document(statement))
}

/// Writes a statement as a `camt.053.001.08` document. The document is held
/// in memory, so that every statement is written.
pub fn write_camt_08(statement: &Statement) -> (result: Result<Vec<u8>, WriteError>)
    ensures
        result matches Ok(bytes) && bytes@ == camt_08_bytes(statement@),
{
    let events = layout_document(statement);
    render_events(&events)
}

/// The balances of a list that is made of two lists are written as the
/// balances of the first followed by those of the second.
pub proof fn lemma_all_balances_concat(first: Seq<BalanceView>, second: Seq<BalanceView>)
    ensures
        all_balances(first + second) == all_balances(first) + all_balances(second),
    decreases second.len(),
{
    if second.len() > 0 {
        assert((first + second).drop_last() == first + second.drop_last());
        lemma_all_balances_concat(first, second.drop_last());
    }
}

/// The entries of a list that is made of two lists are written as the
/// entries of the first followed by those of the second.
pub proof fn lemma_all_transactions_concat(
    first: Seq<TransactionView>,
    second: Seq<TransactionView>,
)
    ensures
        all_transactions(first + second) == all_transactions(first) + all_transactions(second),
    decreases second.len(),
{
    if second.len() > 0 {
        assert((first + second).drop_last() == first + second.drop_last());
        lemma_all_transactions_concat(first, second.drop_last());
    }
}

/// The balance of some number is written after all balances of lower number
/// and before all of higher number.
pub proof fn lemma_balances_in_order(balances: Seq<BalanceView>, index: int)
    requires
        0 <= index < balances.len(),
    ensures
        all_balances(balances) == all_balances(balances.take(index)) + balance_events(
            balances[index],
        ) + all_balances(balances.skip(index + 1)),
{
    let upto = balances.take(index + 1);
    assert(balances == upto + balances.skip(index + 1));
    lemma_all_balances_concat(upto, balances.skip(index + 1));
    assert(upto.drop_last() == balances.take(index));
}

/// The entry of some number is written after all entries of lower number and
/// before all of higher number.
pub proof fn lemma_transactions_in_order(transactions: Seq<TransactionView>, index: int)
    requires
        0 <= index < transactions.len(),
    ensures
        all_transactions(transactions) == all_transactions(transactions.take(index))
            + transaction_events(transactions[index]) + all_transactions(
            transactions.skip(index + 1),
        ),
{
    let upto = transactions.take(index + 1);
    assert(transactions == upto + transactions.skip(index + 1));
    lemma_all_transactions_concat(upto, transactions.skip(index + 1));
    assert(upto.drop_last() == transactions.take(index));
}

/// Where the amount of a balance stands among its events.
pub const BALANCE_AMOUNT_AT: usize = 8;

/// Where the amount of an entry stands among its events.
pub const TRANSACTION_AMOUNT_AT: usize = 1;

/// Where the reference of an entry stands among its events.
pub const REFERENCE_AT: usize = 22;

/// Where the reference of an entry stands once more, among the events of an
/// entry with details.
pub const DETAIL_REFERENCE_AT: usize = 48;

/// The amount of a balance is written as the model holds it, character for
/// character, under the currency that the model holds.
pub proof fn lemma_balance_amount_written(balance: BalanceView)
    ensures
        balance_events(balance).subrange(BALANCE_AMOUNT_AT as int, BALANCE_AMOUNT_AT + 3)
            == amount_element(balance.amount, balance.currency),
        balance_events(balance)[BALANCE_AMOUNT_AT + 1] == text(balance.amount),
{
}

/// The amount of an entry is written as the model holds it, character for
/// character, under the currency that the model holds.
pub proof fn lemma_transaction_amount_written(transaction: TransactionView)
    ensures
        transaction_events(transaction).subrange(
            TRANSACTION_AMOUNT_AT as int,
            TRANSACTION_AMOUNT_AT + 3,
        ) == amount_element(transaction.amount, transaction.currency),
        transaction_events(transaction)[TRANSACTION_AMOUNT_AT + 1] == text(transaction.amount),
{
}

/// An entry with details carries one reference in both places.
pub proof fn lemma_reference_repeated(transaction: TransactionView)
    ensures
        transaction_events(transaction).subrange(REFERENCE_AT as int, REFERENCE_AT + 3) == element(
            "AcctSvcrRef"@,
            transaction_reference(transaction),
        ),
        transaction.additional_info.len() > 0 ==> transaction_events(transaction).subrange(
            DETAIL_REFERENCE_AT as int,
            DETAIL_REFERENCE_AT + 3,
        ) == element("AcctSvcrRef"@, transaction_reference(transaction)),
{
}

/// A statement without balances and entries is still written in full: its
/// head within the statement element, and after the head nothing.
pub proof fn lemma_empty_statement_keeps_skeleton(statement: StatementView)
    requires
        statement.balances.len() == 0,
        statement.transactions.len() == 0,
    ensures
        all_balances(statement.balances) == Seq::<TargetEventView>::empty(),
        all_transactions(statement.transactions) == Seq::<TargetEventView>::empty(),
        statement_events(statement) == wrapped("Stmt"@, statement_head(statement)),
{
    assert(statement_head(statement) + all_balances(statement.balances) + all_transactions(
        statement.transactions,
    ) =~= statement_head(statement));
}

} // verus!
