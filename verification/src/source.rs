//! Reading the source document as a sequence of markup events.
//!
//! Tokenising is left to `quick_xml`. What its reader yields is handed on as
//! [`SourceEvent`] values made of bytes only, so that everything done with an
//! event afterwards is verified.

use quick_xml::events::Event::{
    CData, Comment, Decl, DocType, Empty, End, Eof, Start, Text, PI,
};
use quick_xml::reader::Reader;
use vstd::prelude::*;

verus! {

/// One attribute of a start tag: its name and its value as they stand in the
/// source, the value neither unescaped nor normalised.
#[derive(Debug)]
pub struct SourceAttribute {
    pub key: Vec<u8>,
    pub value: Vec<u8>,
}

/// Mathematical model of a [`SourceAttribute`].
pub struct SourceAttributeView {
    pub key: Seq<u8>,
    pub value: Seq<u8>,
}

impl View for SourceAttribute {
    type V = SourceAttributeView;

    open spec fn view(&self) -> SourceAttributeView {
        SourceAttributeView { key: self.key@, value: self.value@ }
    }
}

/// The models of a list of attributes, in order.
pub open spec fn attribute_views(attributes: Seq<SourceAttribute>) -> Seq<SourceAttributeView> {
    attributes.map_values(|a: SourceAttribute| a@)
}

/// What the reader found next in the source document.
#[derive(Debug)]
pub enum SourceEvent {
    /// A start tag. `attributes` is `None` where the tag's attributes do not
    /// parse.
    Start { name: Vec<u8>, attributes: Option<Vec<SourceAttribute>> },
    /// An end tag.
    End { name: Vec<u8> },
    /// Character data between tags, still escaped and undecoded.
    Text { content: Vec<u8> },
    /// An element without content, written as one tag.
    Empty,
    /// A CDATA section.
    CData,
    /// A comment.
    Comment,
    /// The XML declaration.
    Declaration,
    /// A processing instruction.
    Instruction,
    /// A document type declaration.
    DocType,
}

/// Mathematical model of a [`SourceEvent`].
pub enum SourceEventView {
    Start { name: Seq<u8>, attributes: Option<Seq<SourceAttributeView>> },
    End { name: Seq<u8> },
    Text { content: Seq<u8> },
    Empty,
    CData,
    Comment,
    Declaration,
    Instruction,
    DocType,
}

impl View for SourceEvent {
    type V = SourceEventView;

    open spec fn view(&self) -> SourceEventView {
        match *self {
            SourceEvent::Start { name, attributes } => SourceEventView::Start {
                name: name@,
                attributes: match attributes {
                    Some(list) => Some(attribute_views(list@)),
                    None => None,
                },
            },
            SourceEvent::End { name } => SourceEventView::End { name: name@ },
            SourceEvent::Text { content } => SourceEventView::Text { content: content@ },
            SourceEvent::Empty => SourceEventView::Empty,
            SourceEvent::CData => SourceEventView::CData,
            SourceEvent::Comment => SourceEventView::Comment,
            SourceEvent::Declaration => SourceEventView::Declaration,
            SourceEvent::Instruction => SourceEventView::Instruction,
            SourceEvent::DocType => SourceEventView::DocType,
        }
    }
}

/// The models of a list of events, in order.
pub open spec fn event_views(events: Seq<SourceEvent>) -> Seq<SourceEventView> {
    events.map_values(|e: SourceEvent| e@)
}

/// `quick_xml::reader::Reader`, of which nothing is known but what the
/// functions below say of it.
#[verifier::external_type_specification]
#[verifier::external_body]
#[verifier::reject_recursive_types(R)]
pub struct ExReader<R>(Reader<R>);

/// `quick_xml::Error`, which is handed on unread.
#[verifier::external_type_specification]
#[verifier::external_body]
pub struct ExXmlError(quick_xml::Error);

/// The bytes that a reader was opened on.
pub uninterp spec fn reader_source(reader: Reader<&[u8]>) -> Seq<u8>;

/// Whether a reader strips the white space around character data.
pub uninterp spec fn reader_trims(reader: Reader<&[u8]>) -> bool;

/// The number of events that have been asked of a reader so far.
pub uninterp spec fn reader_reads(reader: Reader<&[u8]>) -> nat;

/// What a reader answers when it is asked for an event.
pub enum ReadOutcome {
    /// Markup or character data.
    Event(SourceEventView),
    /// The end of the document.
    End,
    /// An error in place of an event.
    Failure,
}

/// What `quick_xml::reader::Reader::read_event_into` answers on a reader
/// over `source`, trimming or not, to the read numbered `index`, counting from
/// zero.
pub uninterp spec fn xml_read(source: Seq<u8>, trims: bool, index: nat) -> ReadOutcome;

/// How an answer of the reader is named.
pub open spec fn read_outcome(
    result: Result<Option<SourceEvent>, quick_xml::Error>,
) -> ReadOutcome {
    match result {
        Ok(Some(event)) => ReadOutcome::Event(event@),
        Ok(None) => ReadOutcome::End,
        Err(_) => ReadOutcome::Failure,
    }
}

/// What `quick_xml::escape::unescape` makes of a text: the text with its
/// entity and character references resolved, or `None` where one of them
/// cannot be.
pub uninterp spec fn xml_unescaped(text: Seq<char>) -> Option<Seq<char>>;

/// `quick_xml::reader::Reader::from_reader` on a byte slice. The new reader
/// stands before the first event and, as `quick_xml::reader::Config::default`
/// has it, does not trim.
#[verifier::external_body]
fn open_reader<'a>(source: &'a [u8]) -> (reader: Reader<&'a [u8]>)
    ensures
        reader_source(reader) == source@,
        reader_reads(reader) == 0,
        !reader_trims(reader),
{
    Reader::from_reader(source)
}

/// `quick_xml::reader::Config::trim_text` on the reader's configuration. It
/// is set before the first event is read, so that one setting holds for the
/// whole document.
#[verifier::external_body]
fn set_trim_text(reader: &mut Reader<&[u8]>, trim: bool)
    requires
        reader_reads(*old(reader)) == 0,
    ensures
        reader_source(*final(reader)) == reader_source(*old(reader)),
        reader_reads(*final(reader)) == 0,
        reader_trims(*final(reader)) == trim,
{
    reader.config_mut().trim_text(trim);
}

/// `quick_xml::reader::Reader::read_event_into`, the event copied out of the
/// buffer as bytes, whatever the buffer held before: the name of a tag as
/// `BytesStart::name` and `BytesEnd::name` give it, the attributes of a start
/// tag as `BytesStart::attributes` parses them, character data as it stands
/// in the event. Of the other events only the kind is handed on. The answer is
/// the one that [`xml_read`] names for the reader's source, its trimming and
/// the number of this read. Every event takes at least one byte of the source
/// that no earlier read took, so a reader that yields one has been asked fewer
/// times than its source has bytes.
#[verifier::external_body]
fn next_event(reader: &mut Reader<&[u8]>, buffer: &mut Vec<u8>) -> (result: Result<
    Option<SourceEvent>,
    quick_xml::Error,
>)
    ensures
        reader_source(*final(reader)) == reader_source(*old(reader)),
        reader_trims(*final(reader)) == reader_trims(*old(reader)),
        reader_reads(*final(reader)) == reader_reads(*old(reader)) + 1,
        read_outcome(result) == xml_read(
            reader_source(*old(reader)),
            reader_trims(*old(reader)),
            reader_reads(*old(reader)),
        ),
        result matches Ok(Some(_)) ==> reader_reads(*old(reader)) < reader_source(
            *old(reader),
        ).len(),
{
    Ok(Some(match reader.read_event_into(buffer)? {
        Start(e) => SourceEvent::Start {
            name: e.name().0.to_vec(),
            attributes: e.attributes().map(|a| a.ok().map(|a| SourceAttribute { key: a.key.0.to_vec(), value: a.value.into_owned() })).collect()
        },
        End(e) => SourceEvent::End { name: e.name().0.to_vec() },
        Text(e) => SourceEvent::Text { content: e.to_vec() },
        Empty(_) => SourceEvent::Empty,
        CData(_) => SourceEvent::CData,
        Comment(_) => SourceEvent::Comment,
        Decl(_) => SourceEvent::Declaration,
        PI(_) => SourceEvent::Instruction,
        DocType(_) => SourceEvent::DocType,
        Eof => return Ok(None)
    }))
}

/// `quick_xml::escape::unescape`: the text with the predefined entities and
/// the character references resolved.
#[verifier::external_body]
pub(crate) fn unescape(text: &str) -> (result: Option<String>)
    ensures
        xml_unescaped(text@) == match result {
            Some(plain) => Some(plain@),
            None => None,
        },
{
    quick_xml::escape::unescape(text).ok().map(|plain| plain.into_owned())
}

/// Whether the first `count` reads of a trimming reader over `source` yield
/// events and the next one does not.
pub open spec fn is_event_count(source: Seq<u8>, count: nat) -> bool {
    &&& forall|i: nat| i < count ==> #[trigger] xml_read(source, true, i) is Event
    &&& !(xml_read(source, true, count) is Event)
}

/// The number of events that a trimming reader yields before it reports the
/// end of `source` or an error.
pub open spec fn event_count(source: Seq<u8>) -> nat {
    choose|count: nat| is_event_count(source, count)
}

/// The events of `source`: what a trimming reader yields, in order, before it
/// reports the end of the document or an error.
pub open spec fn document_events(source: Seq<u8>) -> Seq<SourceEventView> {
    Seq::new(event_count(source), |i: int| xml_read(source, true, i as nat)->Event_0)
}

/// Whether the reader gets to the end of `source` without reporting an error.
pub open spec fn document_complete(source: Seq<u8>) -> bool {
    xml_read(source, true, event_count(source)) is End
}

/// No two numbers are the event count of one source.
pub proof fn lemma_event_count_unique(source: Seq<u8>, count: nat)
    requires
        is_event_count(source, count),
    ensures
        event_count(source) == count,
{
}

/// A source document as the reader sees it.
#[derive(Debug)]
pub struct SourceDocument {
    /// The events before the end of the document or the first error.
    pub events: Vec<SourceEvent>,
    /// Whether the end of the document was reached.
    pub complete: bool,
}

/// Reads a document to its end, or to the first error of the reader, with the
/// white space around character data trimmed.
pub fn read_events(source: &[u8]) -> (document: SourceDocument)
    ensures
        event_views(document.events@) == document_events(source@),
        document.complete == document_complete(source@),
{
    let mut reader = open_reader(source);
    set_trim_text(&mut reader, true);
    let mut buffer: Vec<u8> = Vec::new();
    let mut events: Vec<SourceEvent> = Vec::new();
    let mut complete = false;
    loop
        invariant_except_break
            reader_source(reader) == source@,
            reader_trims(reader),
            reader_reads(reader) == events.len(),
            !complete,
        invariant
            events.len() <= source.len(),
            forall|i: int|
                0 <= i < events.len() ==> xml_read(source@, true, i as nat) == ReadOutcome::Event(
                    #[trigger] events[i]@,
                ),
        ensures
            !(xml_read(source@, true, events.len() as nat) is Event),
            complete == (xml_read(source@, true, events.len() as nat) is End),
        decreases source.len() - events.len(),
    {
        match next_event(&mut reader, &mut buffer) {
            Ok(Some(event)) => {
                events.push(event);
                buffer.clear();
            },
            Ok(None) => {
                complete = true;
                break ;
            },
            Err(_) => {
                break ;
            },
        }
    }
    proof {
        assert(is_event_count(source@, events.len() as nat)) by {
            assert forall|i: nat| i < events.len() implies #[trigger] xml_read(
                source@,
                true,
                i,
            ) is Event by {
                assert(xml_read(source@, true, i) == ReadOutcome::Event(events[i as int]@));
            }
        }
        lemma_event_count_unique(source@, events.len() as nat);
    }
    SourceDocument { events, complete }
}

} // verus!
