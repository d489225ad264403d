use camt_converter::document::{
    classify, layout_document, write_balance, write_camt_08, write_element, write_transaction,
    TransactionFamily,
};
use camt_converter::model::{Balance, Statement, Transaction};
use camt_converter::reference::generate_transaction_reference;
use camt_converter::error::WriteError;
use camt_converter::target::{render_events, write_outcome, TargetEvent};

const EMPTY_DOCUMENT: &str = r#"<?xml version="1.0" encoding="UTF-8"?>
<Document xmlns="urn:iso:std:iso:20022:tech:xsd:camt.053.001.08" xmlns:xsi="http://www.w3.org/2001/XMLSchema-instance">
    <BkToCstmrStmt>
        <GrpHdr>
            <MsgId></MsgId>
            <CreDtTm></CreDtTm>
            <MsgRcpt>
                <Id>
                    <OrgId>
                        <AnyBIC>XXXXXXXX</AnyBIC>
                    </OrgId>
                </Id>
            </MsgRcpt>
            <MsgPgntn>
                <PgNb>1</PgNb>
                <LastPgInd>true</LastPgInd>
            </MsgPgntn>
            <AddtlInf>SPS/2.1</AddtlInf>
        </GrpHdr>
        <Stmt>
            <Id></Id>
            <ElctrncSeqNb>1</ElctrncSeqNb>
            <CreDtTm></CreDtTm>
            <FrToDt>
                <FrDtTm></FrDtTm>
                <ToDtTm></ToDtTm>
            </FrToDt>
            <Acct>
                <Id>
                    <IBAN></IBAN>
                </Id>
                <Ccy></Ccy>
                <Ownr>
                    <Nm></Nm>
                </Ownr>
                <Svcr>
                    <FinInstnId>
                        <BICFI>XXXXXXXX</BICFI>
                        <Nm>Bank</Nm>
                        <Othr>
                            <Id>XXX-000.000.000</Id>
                            <Issr>ID</Issr>
                        </Othr>
                    </FinInstnId>
                </Svcr>
            </Acct>
        </Stmt>
    </BkToCstmrStmt>
</Document>"#;

fn closing_balance() -> Balance {
    Balance {
        balance_type: "CLBD".to_string(),
        amount: "1234.56".to_string(),
        currency: "EUR".to_string(),
        credit_debit_ind: "CRDT".to_string(),
        date: "2025-06-20T00:00:00+02:00".to_string(),
    }
}

fn coffee() -> Transaction {
    Transaction {
        amount: "50.00".to_string(),
        currency: "EUR".to_string(),
        credit_debit_ind: "DBIT".to_string(),
        booking_date: "2025-06-20T00:00:00+02:00".to_string(),
        bank_tx_code: "CARD001".to_string(),
        additional_info: "  Coffee   shop  ".to_string(),
        charges: None,
    }
}

fn rendered(events: &Vec<TargetEvent>) -> String {
    String::from_utf8(render_events(events).unwrap()).unwrap()
}

fn written(statement: &Statement) -> String {
    String::from_utf8(write_camt_08(statement).unwrap()).unwrap()
}

#[test]
fn empty_statement_is_a_full_skeleton() {
    let text = written(&Statement::default());
    assert_eq!(text, EMPTY_DOCUMENT);
    assert!(!text.contains("<Bal>"));
    assert!(!text.contains("<Ntry>"));
}

#[test]
fn header_fields_are_written() {
    let mut statement = Statement::default();
    statement.id = "STMT-001".to_string();
    statement.creation_datetime = "2025-06-22T17:33:43.291656435Z".to_string();
    statement.from_datetime = "2025-06-20T00:00:00+02:00".to_string();
    statement.to_datetime = "not a timestamp".to_string();
    statement.iban = "CH9300762011623852957".to_string();
    statement.currency = "EUR".to_string();
    statement.owner_name = "Doe & Sons".to_string();
    let text = written(&statement);
    assert!(text.contains("<MsgId>STMT-001</MsgId>"));
    assert!(text.contains("<Id>STMT-001</Id>"));
    assert_eq!(text.matches("<CreDtTm>2025-06-22T17:33:43+00:00</CreDtTm>").count(), 2);
    assert!(text.contains("<FrDtTm>2025-06-20T00:00:00+02:00</FrDtTm>"));
    assert!(text.contains("<ToDtTm>not a timestamp</ToDtTm>"));
    assert!(text.contains("<IBAN>CH9300762011623852957</IBAN>"));
    assert!(text.contains("<Ccy>EUR</Ccy>"));
    assert!(text.contains("<Nm>Doe &amp; Sons</Nm>"));
}

#[test]
fn balance_block() {
    let mut events = Vec::new();
    write_balance(&mut events, &closing_balance());
    assert_eq!(
        rendered(&events),
        r#"<Bal>
    <Tp>
        <CdOrPrtry>
            <Cd>CLBD</Cd>
        </CdOrPrtry>
    </Tp>
    <Amt Ccy="EUR">1234.56</Amt>
    <CdtDbtInd>CRDT</CdtDbtInd>
    <Dt>
        <Dt>2025-06-20</Dt>
    </Dt>
</Bal>"#
    );
}

#[test]
fn entry_block_with_details() {
    let reference = generate_transaction_reference(&coffee());
    let mut events = Vec::new();
    write_transaction(&mut events, &coffee());
    let expected = r#"<Ntry>
    <Amt Ccy="EUR">50.00</Amt>
    <CdtDbtInd>DBIT</CdtDbtInd>
    <Sts>
        <Cd>BOOK</Cd>
    </Sts>
    <BookgDt>
        <Dt>2025-06-20</Dt>
    </BookgDt>
    <ValDt>
        <Dt>2025-06-20</Dt>
    </ValDt>
    <AcctSvcrRef>REFERENCE</AcctSvcrRef>
    <BkTxCd>
        <Domn>
            <Cd>PMNT</Cd>
            <Fmly>
                <Cd>CCRD</Cd>
                <SubFmlyCd>POSD</SubFmlyCd>
            </Fmly>
        </Domn>
        <Prtry>
            <Cd>CARD001</Cd>
        </Prtry>
    </BkTxCd>
    <NtryDtls>
        <TxDtls>
            <Refs>
                <AcctSvcrRef>REFERENCE</AcctSvcrRef>
            </Refs>
            <Amt Ccy="EUR">50.00</Amt>
            <CdtDbtInd>DBIT</CdtDbtInd>
            <RmtInf>
                <Ustrd>Coffee shop</Ustrd>
            </RmtInf>
        </TxDtls>
    </NtryDtls>
    <AddtlNtryInf>  Coffee   shop  </AddtlNtryInf>
</Ntry>"#
        .replace("REFERENCE", &reference);
    assert_eq!(rendered(&events), expected);
}

#[test]
fn entry_block_without_details() {
    let mut transfer = coffee();
    transfer.bank_tx_code = "SCT-INBOUND".to_string();
    transfer.additional_info = String::new();
    let reference = generate_transaction_reference(&transfer);
    let mut events = Vec::new();
    write_transaction(&mut events, &transfer);
    let expected = r#"<Ntry>
    <Amt Ccy="EUR">50.00</Amt>
    <CdtDbtInd>DBIT</CdtDbtInd>
    <Sts>
        <Cd>BOOK</Cd>
    </Sts>
    <BookgDt>
        <Dt>2025-06-20</Dt>
    </BookgDt>
    <ValDt>
        <Dt>2025-06-20</Dt>
    </ValDt>
    <AcctSvcrRef>REFERENCE</AcctSvcrRef>
    <BkTxCd>
        <Domn>
            <Cd>PMNT</Cd>
            <Fmly>
                <Cd>ICDT</Cd>
                <SubFmlyCd>ESCT</SubFmlyCd>
            </Fmly>
        </Domn>
        <Prtry>
            <Cd>SCT-INBOUND</Cd>
        </Prtry>
    </BkTxCd>
    <AddtlNtryInf></AddtlNtryInf>
</Ntry>"#
        .replace("REFERENCE", &reference);
    assert_eq!(rendered(&events), expected);
}

#[test]
fn card_codes_are_card_payments() {
    assert_eq!(classify("CARD-POS-01"), TransactionFamily::CardPayment);
    assert_eq!(classify("CARD-POS-01").code(), "CCRD");
    assert_eq!(classify("CARD-POS-01").sub_code(), "POSD");
    assert_eq!(classify("CARD"), TransactionFamily::CardPayment);
}

#[test]
fn other_codes_are_credit_transfers() {
    assert_eq!(classify("SCT-INBOUND"), TransactionFamily::CreditTransfer);
    assert_eq!(classify("SCT-INBOUND").code(), "ICDT");
    assert_eq!(classify("SCT-INBOUND").sub_code(), "ESCT");
    assert_eq!(classify(""), TransactionFamily::CreditTransfer);
    assert_eq!(classify("CAR"), TransactionFamily::CreditTransfer);
    assert_eq!(classify("card-pos"), TransactionFamily::CreditTransfer);
    assert_eq!(classify(" CARD"), TransactionFamily::CreditTransfer);
    assert_eq!(classify("ÇARD"), TransactionFamily::CreditTransfer);
}

#[test]
fn blocks_follow_the_order_of_the_model() {
    let mut statement = Statement::default();
    for code in ["OPBD", "ITBD", "CLBD"] {
        let mut balance = closing_balance();
        balance.balance_type = code.to_string();
        statement.balances.push(balance);
    }
    for amount in ["1.00", "2.00", "3.00", "4.00"] {
        let mut entry = coffee();
        entry.amount = amount.to_string();
        entry.additional_info = String::new();
        statement.transactions.push(entry);
    }
    let text = written(&statement);
    let place = |needle: &str| text.find(needle).unwrap();
    assert!(place("</Acct>") < place("<Cd>OPBD</Cd>"));
    assert!(place("<Cd>OPBD</Cd>") < place("<Cd>ITBD</Cd>"));
    assert!(place("<Cd>ITBD</Cd>") < place("<Cd>CLBD</Cd>"));
    assert!(place("<Cd>CLBD</Cd>") < place("<Ntry>"));
    assert!(place(r#"<Amt Ccy="EUR">1.00</Amt>"#) < place(r#"<Amt Ccy="EUR">2.00</Amt>"#));
    assert!(place(r#"<Amt Ccy="EUR">2.00</Amt>"#) < place(r#"<Amt Ccy="EUR">3.00</Amt>"#));
    assert!(place(r#"<Amt Ccy="EUR">3.00</Amt>"#) < place(r#"<Amt Ccy="EUR">4.00</Amt>"#));
    assert_eq!(text.matches("<Bal>").count(), 3);
    assert_eq!(text.matches("<Ntry>").count(), 4);
}

#[test]
fn amounts_are_written_as_they_are_held() {
    let mut statement = Statement::default();
    let mut balance = closing_balance();
    balance.amount = "0001234.5600".to_string();
    statement.balances.push(balance);
    let mut entry = coffee();
    entry.amount = "1e3".to_string();
    statement.transactions.push(entry);
    let text = written(&statement);
    assert!(text.contains(r#"<Amt Ccy="EUR">0001234.5600</Amt>"#));
    assert_eq!(text.matches(r#"<Amt Ccy="EUR">1e3</Amt>"#).count(), 2);
}

#[test]
fn markup_in_values_is_escaped() {
    let mut events = Vec::new();
    write_element(&mut events, "Nm", "<a href=\"x\">Tom & Jerry's</a>");
    assert_eq!(
        rendered(&events),
        "<Nm>&lt;a href=&quot;x&quot;&gt;Tom &amp; Jerry&apos;s&lt;/a&gt;</Nm>"
    );
    let mut balance = closing_balance();
    balance.currency = "E\"&R".to_string();
    let mut events = Vec::new();
    write_balance(&mut events, &balance);
    assert!(rendered(&events).contains(r#"<Amt Ccy="E&quot;&amp;R">1234.56</Amt>"#));
}

#[test]
fn layout_starts_with_declaration_and_root() {
    let events = layout_document(&Statement::default());
    assert_eq!(events.len(), 85);
    match &events[0] {
        TargetEvent::Declaration { version, encoding } => {
            assert_eq!(version, "1.0");
            assert_eq!(encoding, "UTF-8");
        }
        _ => panic!("no declaration"),
    }
    match &events[1] {
        TargetEvent::Start { name, attributes } => {
            assert_eq!(name, "Document");
            assert_eq!(attributes.len(), 2);
            assert_eq!(attributes[0].name, "xmlns");
            assert_eq!(attributes[0].value, "urn:iso:std:iso:20022:tech:xsd:camt.053.001.08");
            assert_eq!(attributes[1].name, "xmlns:xsi");
            assert_eq!(attributes[1].value, "http://www.w3.org/2001/XMLSchema-instance");
        }
        _ => panic!("no root"),
    }
    match &events[84] {
        TargetEvent::End { name } => assert_eq!(name, "Document"),
        _ => panic!("root not closed"),
    }
}

#[test]
fn nothing_rendered_is_empty() {
    assert_eq!(render_events(&Vec::new()).unwrap(), Vec::<u8>::new());
}

#[test]
fn answer_of_the_writer_decides_the_outcome() {
    assert_eq!(write_outcome(Ok(())), Ok(()));
    let refused = std::io::Error::new(std::io::ErrorKind::Other, "refused");
    assert_eq!(write_outcome(Err(refused)), Err(WriteError::Output));
}

#[test]
fn events_of_a_document_are_rendered() {
    let events = layout_document(&Statement::default());
    assert!(render_events(&events).is_ok());
    assert!(write_camt_08(&Statement::default()).is_ok());
}

#[test]
fn ampersand_in_the_owner_name_is_escaped() {
    let mut statement = Statement::default();
    statement.owner_name = "A&B".to_string();
    let bytes = write_camt_08(&statement).unwrap();
    let text = String::from_utf8(bytes.clone()).unwrap();
    assert!(text.contains("<Ownr>\n                    <Nm>A&amp;B</Nm>"));
    assert_eq!(text.matches('&').count(), 1);
    let again = camt_converter::parser::parse_camt_10(&bytes).unwrap();
    assert_eq!(again.owner_name, "A&B");
}

#[test]
fn every_statement_is_written() {
    let mut statement = Statement::default();
    statement.id = "\u{0}<>&\"'".to_string();
    statement.balances.push(Balance::default());
    statement.transactions.push(Transaction::default());
    assert!(write_camt_08(&statement).is_ok());
}
