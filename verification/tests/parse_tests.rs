use camt_converter::amounts::correlate_amounts;
use camt_converter::error::ParseError;
use camt_converter::model::{Balance, Statement};
use camt_converter::parser::{parse_camt_10, statement_from_events};
use camt_converter::scanner::{join_path, scan_events};
use camt_converter::source::{read_events, SourceAttribute, SourceEvent};

const SAMPLE: &str = r#"<?xml version="1.0" encoding="UTF-8"?>
<Document xmlns="urn:iso:std:iso:20022:tech:xsd:camt.053.001.10">
  <BkToCstmrStmt>
    <GrpHdr>
      <MsgId>MSG-1</MsgId>
      <CreDtTm>2025-06-22T17:33:43.291656435Z</CreDtTm>
    </GrpHdr>
    <Stmt>
      <Id>STMT-001</Id>
      <CreDtTm>2025-06-22T17:33:43.291656435Z</CreDtTm>
      <FrToDt>
        <FrDtTm>2025-06-20T00:00:00+02:00</FrDtTm>
        <ToDtTm>2025-06-20T23:59:59+02:00</ToDtTm>
      </FrToDt>
      <Acct>
        <Id><IBAN>CH9300762011623852957</IBAN></Id>
        <Ccy>EUR</Ccy>
        <Ownr><Nm>Doe &amp; Sons</Nm></Ownr>
      </Acct>
      <Bal>
        <Tp><CdOrPrtry><Cd>OPBD</Cd></CdOrPrtry></Tp>
        <Amt Ccy="EUR">1000.00</Amt>
        <CdtDbtInd>CRDT</CdtDbtInd>
        <Dt><DtTm>2025-06-19T00:00:00+02:00</DtTm></Dt>
      </Bal>
      <Bal>
        <Tp><CdOrPrtry><Cd>CLBD</Cd></CdOrPrtry></Tp>
        <Amt Ccy="CHF">1234.56</Amt>
        <CdtDbtInd>DBIT</CdtDbtInd>
        <Dt><DtTm>2025-06-20T00:00:00+02:00</DtTm></Dt>
      </Bal>
      <Ntry>
        <Amt Ccy="EUR">50.00</Amt>
        <CdtDbtInd>DBIT</CdtDbtInd>
        <BookgDt><DtTm>2025-06-20T00:00:00+02:00</DtTm></BookgDt>
        <BkTxCd><Prtry><Cd>CARD001</Cd></Prtry></BkTxCd>
        <Chrgs><TtlChrgsAndTaxAmt Ccy="EUR">1.50</TtlChrgsAndTaxAmt></Chrgs>
        <NtryDtls><TxDtls><Amt Ccy="USD">9.99</Amt></TxDtls></NtryDtls>
        <AddtlNtryInf>  Coffee   shop  </AddtlNtryInf>
      </Ntry>
      <Ntry>
        <Amt Ccy="USD">0.10</Amt>
        <CdtDbtInd>CRDT</CdtDbtInd>
        <BookgDt><DtTm>2025-06-21T08:00:00+02:00</DtTm></BookgDt>
        <BkTxCd><Prtry><Cd>SCT-INBOUND</Cd></Prtry></BkTxCd>
      </Ntry>
    </Stmt>
  </BkToCstmrStmt>
</Document>
"#;

fn start(name: &str) -> SourceEvent {
    SourceEvent::Start { name: name.as_bytes().to_vec(), attributes: Some(Vec::new()) }
}

fn start_with(name: &str, key: &str, value: &str) -> SourceEvent {
    SourceEvent::Start {
        name: name.as_bytes().to_vec(),
        attributes: Some(vec![SourceAttribute {
            key: key.as_bytes().to_vec(),
            value: value.as_bytes().to_vec(),
        }]),
    }
}

fn end(name: &str) -> SourceEvent {
    SourceEvent::End { name: name.as_bytes().to_vec() }
}

fn text(content: &str) -> SourceEvent {
    SourceEvent::Text { content: content.as_bytes().to_vec() }
}

fn parse(source: &str) -> Result<Statement, ParseError> {
    parse_camt_10(source.as_bytes())
}

fn error_of(source: &[u8]) -> ParseError {
    match parse_camt_10(source) {
        Ok(_) => panic!("the document was read"),
        Err(error) => error,
    }
}

#[test]
fn header_is_read() {
    let statement = parse(SAMPLE).unwrap();
    assert_eq!(statement.id, "STMT-001");
    assert_eq!(statement.creation_datetime, "2025-06-22T17:33:43.291656435Z");
    assert_eq!(statement.from_datetime, "2025-06-20T00:00:00+02:00");
    assert_eq!(statement.to_datetime, "2025-06-20T23:59:59+02:00");
    assert_eq!(statement.iban, "CH9300762011623852957");
    assert_eq!(statement.currency, "EUR");
    assert_eq!(statement.owner_name, "Doe & Sons");
}

#[test]
fn balances_come_in_document_order() {
    let statement = parse(SAMPLE).unwrap();
    assert_eq!(statement.balances.len(), 2);
    assert_eq!(statement.balances[0].balance_type, "OPBD");
    assert_eq!(statement.balances[0].amount, "1000.00");
    assert_eq!(statement.balances[0].currency, "EUR");
    assert_eq!(statement.balances[0].credit_debit_ind, "CRDT");
    assert_eq!(statement.balances[0].date, "2025-06-19T00:00:00+02:00");
    assert_eq!(statement.balances[1].balance_type, "CLBD");
    assert_eq!(statement.balances[1].amount, "1234.56");
    assert_eq!(statement.balances[1].currency, "CHF");
    assert_eq!(statement.balances[1].credit_debit_ind, "DBIT");
    assert_eq!(statement.balances[1].date, "2025-06-20T00:00:00+02:00");
}

#[test]
fn entries_come_in_document_order() {
    let statement = parse(SAMPLE).unwrap();
    assert_eq!(statement.transactions.len(), 2);
    let first = &statement.transactions[0];
    assert_eq!(first.amount, "50.00");
    assert_eq!(first.currency, "EUR");
    assert_eq!(first.credit_debit_ind, "DBIT");
    assert_eq!(first.booking_date, "2025-06-20T00:00:00+02:00");
    assert_eq!(first.bank_tx_code, "CARD001");
    assert_eq!(first.additional_info, "Coffee   shop");
    assert_eq!(first.charges, Some("1.50".to_string()));
    let second = &statement.transactions[1];
    assert_eq!(second.amount, "0.10");
    assert_eq!(second.currency, "USD");
    assert_eq!(second.credit_debit_ind, "CRDT");
    assert_eq!(second.booking_date, "2025-06-21T08:00:00+02:00");
    assert_eq!(second.bank_tx_code, "SCT-INBOUND");
    assert_eq!(second.additional_info, "");
    assert_eq!(second.charges, None);
}

#[test]
fn amount_text_is_kept_as_written() {
    let statement =
        parse(r#"<Stmt><Bal><Amt Ccy="EUR">0001234.5600</Amt></Bal><Ntry><Amt Ccy="JPY">1e3</Amt></Ntry></Stmt>"#)
            .unwrap();
    assert_eq!(statement.balances[0].amount, "0001234.5600");
    assert_eq!(statement.transactions[0].amount, "1e3");
    assert_eq!(statement.transactions[0].currency, "JPY");
}

#[test]
fn text_around_values_is_trimmed() {
    let statement = parse("<Stmt><Id>\n   STMT 7 \t</Id></Stmt>").unwrap();
    assert_eq!(statement.id, "STMT 7");
}

#[test]
fn empty_document_is_an_empty_statement() {
    let statement = parse("").unwrap();
    assert_eq!(statement.id, "");
    assert_eq!(statement.creation_datetime, "");
    assert_eq!(statement.from_datetime, "");
    assert_eq!(statement.to_datetime, "");
    assert_eq!(statement.iban, "");
    assert_eq!(statement.currency, "");
    assert_eq!(statement.owner_name, "");
    assert!(statement.balances.is_empty());
    assert!(statement.transactions.is_empty());
}

#[test]
fn missing_fields_are_empty() {
    let statement = parse("<Stmt><Bal></Bal><Ntry></Ntry></Stmt>").unwrap();
    assert_eq!(statement.balances.len(), 1);
    assert_eq!(statement.balances[0].balance_type, "");
    assert_eq!(statement.balances[0].amount, "");
    assert_eq!(statement.balances[0].currency, "");
    assert_eq!(statement.balances[0].credit_debit_ind, "");
    assert_eq!(statement.balances[0].date, "");
    assert_eq!(statement.transactions.len(), 1);
    assert_eq!(statement.transactions[0].amount, "");
    assert_eq!(statement.transactions[0].currency, "");
    assert_eq!(statement.transactions[0].credit_debit_ind, "");
    assert_eq!(statement.transactions[0].booking_date, "");
    assert_eq!(statement.transactions[0].bank_tx_code, "");
    assert_eq!(statement.transactions[0].additional_info, "");
    assert_eq!(statement.transactions[0].charges, None);
}

#[test]
fn only_the_end_of_a_path_counts() {
    let statement = parse("<a><b><Stmt><Id>1</Id></Stmt></b></a>").unwrap();
    assert_eq!(statement.id, "1");
    let statement = parse("<MyStmt><Id>2</Id></MyStmt>").unwrap();
    assert_eq!(statement.id, "2");
    let statement = parse("<Stmt><x><Id>3</Id></x></Stmt>").unwrap();
    assert_eq!(statement.id, "");
}

#[test]
fn fields_of_a_balance_need_an_open_balance() {
    let statement =
        parse("<Stmt><XBal><CdtDbtInd>CRDT</CdtDbtInd></XBal><Bal></Bal></Stmt>").unwrap();
    assert_eq!(statement.balances.len(), 1);
    assert_eq!(statement.balances[0].credit_debit_ind, "");
    let statement =
        parse("<Stmt><Bal><XBal><CdtDbtInd>CRDT</CdtDbtInd></XBal></Bal></Stmt>").unwrap();
    assert_eq!(statement.balances[0].credit_debit_ind, "CRDT");
}

#[test]
fn fields_of_an_entry_need_an_open_entry() {
    let statement =
        parse("<Stmt><XNtry><AddtlNtryInf>x</AddtlNtryInf></XNtry><Ntry></Ntry></Stmt>").unwrap();
    assert_eq!(statement.transactions.len(), 1);
    assert_eq!(statement.transactions[0].additional_info, "");
}

#[test]
fn charges_need_open_charges() {
    let statement = parse(
        "<Stmt><Ntry><XChrgs><TtlChrgsAndTaxAmt>1</TtlChrgsAndTaxAmt></XChrgs></Ntry>\
         <Ntry><Chrgs><TtlChrgsAndTaxAmt>2</TtlChrgsAndTaxAmt></Chrgs></Ntry></Stmt>",
    )
    .unwrap();
    assert_eq!(statement.transactions[0].charges, None);
    assert_eq!(statement.transactions[1].charges, Some("2".to_string()));
}

#[test]
fn a_new_balance_starts_empty() {
    let statement = parse(
        "<Stmt><Bal><CdtDbtInd>CRDT</CdtDbtInd></Bal><Bal><Tp><CdOrPrtry><Cd>CLBD</Cd></CdOrPrtry></Tp></Bal></Stmt>",
    )
    .unwrap();
    assert_eq!(statement.balances[0].credit_debit_ind, "CRDT");
    assert_eq!(statement.balances[0].balance_type, "");
    assert_eq!(statement.balances[1].credit_debit_ind, "");
    assert_eq!(statement.balances[1].balance_type, "CLBD");
}

#[test]
fn a_balance_closed_twice_is_appended_twice() {
    let statement =
        parse("<Stmt><Bal><Bal><CdtDbtInd>CRDT</CdtDbtInd></Bal></Bal></Stmt>").unwrap();
    assert_eq!(statement.balances.len(), 2);
    assert_eq!(statement.balances[0].credit_debit_ind, "CRDT");
    assert_eq!(statement.balances[1].credit_debit_ind, "CRDT");
}

#[test]
fn empty_elements_and_cdata_carry_nothing() {
    let statement = parse("<Stmt><Bal/><Ntry/><Id><![CDATA[X]]></Id></Stmt>").unwrap();
    assert!(statement.balances.is_empty());
    assert!(statement.transactions.is_empty());
    assert_eq!(statement.id, "");
}

#[test]
fn amount_of_a_nested_element_is_not_the_entry_amount() {
    let statement = parse(
        r#"<Stmt><Ntry><NtryDtls><TxDtls><Amt Ccy="USD">9.99</Amt></TxDtls></NtryDtls><Amt Ccy="EUR">50.00</Amt></Ntry></Stmt>"#,
    )
    .unwrap();
    assert_eq!(statement.transactions[0].amount, "50.00");
    assert_eq!(statement.transactions[0].currency, "EUR");
}

#[test]
fn amount_without_currency_has_empty_currency() {
    let statement = parse("<Stmt><Bal><Amt>5</Amt></Bal></Stmt>").unwrap();
    assert_eq!(statement.balances[0].amount, "5");
    assert_eq!(statement.balances[0].currency, "");
}

#[test]
fn currency_is_taken_as_written() {
    let statement = parse(r#"<Stmt><Bal><Amt x="1" Ccy="E&amp;R" y="2">5</Amt></Bal></Stmt>"#).unwrap();
    assert_eq!(statement.balances[0].currency, "E&amp;R");
}

#[test]
fn amount_element_without_text_gives_nothing() {
    let statement = parse(
        r#"<Stmt><Bal><Amt Ccy="EUR"></Amt></Bal><Bal><Amt Ccy="CHF">2</Amt></Bal></Stmt>"#,
    )
    .unwrap();
    assert_eq!(statement.balances[0].amount, "");
    assert_eq!(statement.balances[0].currency, "");
    assert_eq!(statement.balances[1].amount, "2");
    assert_eq!(statement.balances[1].currency, "CHF");
}

#[test]
fn event_after_an_amount_tag_is_used_up() {
    let events = vec![
        start("Bal"),
        start_with("Amt", "Ccy", "EUR"),
        end("Bal"),
        text("7"),
        end("Amt"),
        end("Bal"),
    ];
    let mut only = Statement::default();
    only.balances.push(Balance::default());
    let statement = correlate_amounts(&events, only).unwrap();
    assert_eq!(statement.balances[0].amount, "");
    let events = vec![
        start("Bal"),
        start_with("Amt", "Ccy", "EUR"),
        text("7"),
        end("Amt"),
        end("Bal"),
    ];
    let mut only = Statement::default();
    only.balances.push(Balance::default());
    let statement = correlate_amounts(&events, only).unwrap();
    assert_eq!(statement.balances[0].amount, "7");
    assert_eq!(statement.balances[0].currency, "EUR");
}

#[test]
fn amounts_beyond_the_statement_are_dropped() {
    let events = vec![
        start("Bal"),
        start_with("Amt", "Ccy", "EUR"),
        text("1"),
        end("Amt"),
        end("Bal"),
        start("Bal"),
        start_with("Amt", "Ccy", "CHF"),
        text("2"),
        end("Amt"),
        end("Bal"),
        start("Ntry"),
        start_with("Amt", "Ccy", "USD"),
        text("3"),
        end("Amt"),
        end("Ntry"),
    ];
    let mut only = Statement::default();
    only.balances.push(Balance::default());
    let statement = correlate_amounts(&events, only).unwrap();
    assert_eq!(statement.balances.len(), 1);
    assert_eq!(statement.balances[0].amount, "1");
    assert_eq!(statement.balances[0].currency, "EUR");
    assert!(statement.transactions.is_empty());
}

#[test]
fn last_currency_attribute_wins() {
    let events = vec![
        start("Bal"),
        SourceEvent::Start {
            name: b"Amt".to_vec(),
            attributes: Some(vec![
                SourceAttribute { key: b"Ccy".to_vec(), value: b"EUR".to_vec() },
                SourceAttribute { key: b"x".to_vec(), value: b"\xff".to_vec() },
                SourceAttribute { key: b"Ccy".to_vec(), value: b"CHF".to_vec() },
            ]),
        },
        text("1"),
        end("Amt"),
        end("Bal"),
    ];
    let statement = statement_from_events(&events, true).unwrap();
    assert_eq!(statement.balances[0].currency, "CHF");
}

#[test]
fn events_make_the_statement() {
    let events = vec![
        start("Stmt"),
        start("Id"),
        text("A&amp;B"),
        end("Id"),
        SourceEvent::Comment,
        SourceEvent::Empty,
        SourceEvent::CData,
        SourceEvent::Declaration,
        SourceEvent::Instruction,
        SourceEvent::DocType,
        start("Ntry"),
        start_with("Amt", "Ccy", "EUR"),
        text("12.00"),
        end("Amt"),
        end("Ntry"),
        end("Stmt"),
    ];
    let statement = statement_from_events(&events, true).unwrap();
    assert_eq!(statement.id, "A&B");
    assert_eq!(statement.transactions.len(), 1);
    assert_eq!(statement.transactions[0].amount, "12.00");
    assert_eq!(statement.transactions[0].currency, "EUR");
}

#[test]
fn events_cut_short_are_malformed() {
    let events = vec![start("Stmt"), end("Stmt")];
    assert_eq!(statement_from_events(&events, false).err(), Some(ParseError::Malformed));
    assert!(statement_from_events(&events, true).is_ok());
}

#[test]
fn mismatched_tags_are_malformed() {
    assert_eq!(error_of(b"<a><b></a></b>"), ParseError::Malformed);
    assert_eq!(error_of(b"</a>"), ParseError::Malformed);
}

#[test]
fn tag_without_end_is_malformed() {
    assert_eq!(error_of(b"<Stmt><Id"), ParseError::Malformed);
}

#[test]
fn open_element_at_the_end_is_refused() {
    assert_eq!(error_of(b"<Document><Stmt><Id>1</Id>"), ParseError::UnclosedElement);
    assert_eq!(error_of(b"<Stmt>"), ParseError::UnclosedElement);
}

#[test]
fn name_that_is_not_utf8_is_refused() {
    assert_eq!(error_of(b"<\xff></\xff>"), ParseError::InvalidName);
}

#[test]
fn text_that_is_not_utf8_is_refused() {
    assert_eq!(error_of(b"<a>\xff\xfe</a>"), ParseError::InvalidEncoding);
}

#[test]
fn unknown_entity_is_refused() {
    assert_eq!(error_of(b"<a>&bogus;</a>"), ParseError::InvalidEscape);
}

#[test]
fn broken_attributes_of_an_amount_are_refused() {
    assert_eq!(error_of(b"<Bal><Amt Ccy=EUR>1</Amt></Bal>"), ParseError::InvalidAttribute);
    assert_eq!(
        error_of(b"<Bal><Amt Ccy=\"EUR\" Ccy=\"CHF\">1</Amt></Bal>"),
        ParseError::InvalidAttribute
    );
}

#[test]
fn currency_that_is_not_utf8_is_refused() {
    assert_eq!(error_of(b"<Bal><Amt Ccy=\"\xff\">1</Amt></Bal>"), ParseError::InvalidAttribute);
}

#[test]
fn attributes_of_other_elements_are_not_looked_at() {
    let statement = parse("<Stmt a=b><Id x=\"1\" x=\"2\">S</Id></Stmt>").unwrap();
    assert_eq!(statement.id, "S");
}

#[test]
fn first_refused_event_decides() {
    assert_eq!(error_of(b"<a>&bogus;</a><b></c>"), ParseError::InvalidEscape);
    assert_eq!(error_of(b"<a></b>&bogus;"), ParseError::Malformed);
    assert_eq!(error_of(b"<Amt Ccy=X>1</Amt><a>&bogus;</a>"), ParseError::InvalidEscape);
    assert_eq!(error_of(b"<Amt Ccy=X>1</Amt><a>"), ParseError::UnclosedElement);
}

#[test]
fn reader_hands_out_events_in_order() {
    let document = read_events(b"<a x=\"1\"> t </a><!-- c --><b/>");
    assert!(document.complete);
    assert_eq!(document.events.len(), 5);
    match &document.events[0] {
        SourceEvent::Start { name, attributes } => {
            assert_eq!(name, b"a");
            let attributes = attributes.as_ref().unwrap();
            assert_eq!(attributes.len(), 1);
            assert_eq!(attributes[0].key, b"x");
            assert_eq!(attributes[0].value, b"1");
        }
        _ => panic!("no start tag"),
    }
    match &document.events[1] {
        SourceEvent::Text { content } => assert_eq!(content, b"t"),
        _ => panic!("no text"),
    }
    match &document.events[2] {
        SourceEvent::End { name } => assert_eq!(name, b"a"),
        _ => panic!("no end tag"),
    }
    assert!(matches!(document.events[3], SourceEvent::Comment));
    assert!(matches!(document.events[4], SourceEvent::Empty));
}

#[test]
fn reader_tells_the_kinds_of_markup_apart() {
    let document = read_events(
        b"<?xml version=\"1.0\"?><!DOCTYPE a><?pi x?><a><![CDATA[t]]><!--c--><b/></a>",
    );
    assert!(document.complete);
    assert_eq!(document.events.len(), 8);
    assert!(matches!(document.events[0], SourceEvent::Declaration));
    assert!(matches!(document.events[1], SourceEvent::DocType));
    assert!(matches!(document.events[2], SourceEvent::Instruction));
    assert!(matches!(document.events[3], SourceEvent::Start { .. }));
    assert!(matches!(document.events[4], SourceEvent::CData));
    assert!(matches!(document.events[5], SourceEvent::Comment));
    assert!(matches!(document.events[6], SourceEvent::Empty));
    assert!(matches!(document.events[7], SourceEvent::End { .. }));
}

#[test]
fn markup_without_data_changes_nothing() {
    let plain = parse("<Stmt><Id>S</Id><Bal><Amt Ccy=\"EUR\">1</Amt></Bal></Stmt>").unwrap();
    let busy = parse(
        "<?xml version=\"1.0\"?><!DOCTYPE Stmt><Stmt><!--c--><Id>S</Id><?pi x?><Bal><x/>\
         <Amt Ccy=\"EUR\">1</Amt><![CDATA[t]]></Bal></Stmt>",
    )
    .unwrap();
    assert_eq!(busy.id, plain.id);
    assert_eq!(busy.balances.len(), 1);
    assert_eq!(busy.balances[0].amount, plain.balances[0].amount);
    assert_eq!(busy.balances[0].currency, plain.balances[0].currency);
}

#[test]
fn reader_stops_at_its_first_error() {
    let document = read_events(b"<a></b><c></c>");
    assert!(!document.complete);
    assert_eq!(document.events.len(), 1);
}

#[test]
fn scanner_keeps_the_open_elements() {
    let scanner = scan_events(&vec![start("a"), start("b"), end("b"), start("c")]).unwrap();
    assert_eq!(scanner.path, vec![b"a".to_vec(), b"c".to_vec()]);
    assert_eq!(join_path(&scanner.path), b"a/c");
    assert_eq!(join_path(&Vec::new()), b"");
    assert_eq!(join_path(&vec![b"only".to_vec()]), b"only");
}

#[test]
fn end_of_an_entry_closes_its_charges() {
    let scanner = scan_events(&vec![start("Ntry"), start("Chrgs")]).unwrap();
    assert!(scanner.in_transaction);
    assert!(scanner.in_charges);
    let scanner = scan_events(&vec![start("Ntry"), start("Chrgs"), end("Chrgs")]).unwrap();
    assert!(scanner.in_transaction);
    assert!(!scanner.in_charges);
    let scanner = scan_events(&vec![start("Ntry"), start("Chrgs"), end("Ntry")]).unwrap();
    assert!(!scanner.in_transaction);
    assert!(!scanner.in_charges);
    assert_eq!(scanner.statement.transactions.len(), 1);
}

#[test]
fn end_of_a_balance_closes_the_balance_only() {
    let scanner = scan_events(&vec![start("Ntry"), start("Bal"), end("Bal")]).unwrap();
    assert!(scanner.in_transaction);
    assert!(!scanner.in_balance);
    assert_eq!(scanner.statement.balances.len(), 1);
    assert!(scanner.statement.transactions.is_empty());
}

#[test]
fn charges_outside_an_entry_are_not_kept() {
    let statement = parse(
        "<Stmt><Chrgs><TtlChrgsAndTaxAmt>9</TtlChrgsAndTaxAmt></Chrgs><Ntry></Ntry></Stmt>",
    )
    .unwrap();
    assert_eq!(statement.transactions[0].charges, None);
}

#[test]
fn end_tag_on_an_empty_path_is_passed_over() {
    let scanner = scan_events(&vec![end("a"), start("b")]).unwrap();
    assert_eq!(scanner.path, vec![b"b".to_vec()]);
}

#[test]
fn later_text_replaces_earlier_text() {
    let statement = parse("<Stmt><Id>1</Id><Id>2</Id></Stmt>").unwrap();
    assert_eq!(statement.id, "2");
}

#[test]
fn byte_order_mark_is_passed_over() {
    let statement = parse_camt_10(b"\xef\xbb\xbf<Stmt><Id>1</Id></Stmt>").unwrap();
    assert_eq!(statement.id, "1");
}
