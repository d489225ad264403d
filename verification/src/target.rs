//! Writing the target document as a sequence of markup events.
//!
//! The statement is first laid out as [`TargetEvent`] values, which is
//! verified. Turning the events into bytes, with escaping, line breaks and
//! indentation, is left to `quick_xml`.

use crate::error::WriteError;
use quick_xml::events::{BytesDecl, BytesEnd, BytesStart, BytesText, Event};
use quick_xml::writer::Writer;
use vstd::prelude::*;

verus! {

/// One attribute of a start tag, its value not yet escaped.
#[derive(Debug)]
pub struct TargetAttribute {
    pub name: String,
    pub value: String,
}

/// Mathematical model of a [`TargetAttribute`].
pub struct TargetAttributeView {
    pub name: Seq<char>,
    pub value: Seq<char>,
}

impl View for TargetAttribute {
    type V = TargetAttributeView;

    open spec fn view(&self) -> TargetAttributeView {
        TargetAttributeView { name: self.name@, value: self.value@ }
    }
}

/// The models of a list of attributes, in order.
pub open spec fn attribute_views(attributes: Seq<TargetAttribute>) -> Seq<TargetAttributeView> {
    attributes.map_values(|a: TargetAttribute| a@)
}

/// One piece of the target document.
#[derive(Debug)]
pub enum TargetEvent {
    /// The XML declaration.
    Declaration { version: String, encoding: String },
    /// A start tag.
    Start { name: String, attributes: Vec<TargetAttribute> },
    /// An end tag.
    End { name: String },
    /// Character data, not yet escaped.
    Text { content: String },
}

/// Mathematical model of a [`TargetEvent`].
pub enum TargetEventView {
    Declaration { version: Seq<char>, encoding: Seq<char> },
    Start { name: Seq<char>, attributes: Seq<TargetAttributeView> },
    End { name: Seq<char> },
    Text { content: Seq<char> },
}

impl View for TargetEvent {
    type V = TargetEventView;

    open spec fn view(&self) -> TargetEventView {
        match *self {
            TargetEvent::Declaration { version, encoding } => TargetEventView::Declaration {
                version: version@,
                encoding: encoding@,
            },
            TargetEvent::Start { name, attributes } => TargetEventView::Start {
                name: name@,
                attributes: attribute_views(attributes@),
            },
            TargetEvent::End { name } => TargetEventView::End { name: name@ },
            TargetEvent::Text { content } => TargetEventView::Text { content: content@ },
        }
    }
}

/// The models of a list of events, in order.
pub open spec fn event_views(events: Seq<TargetEvent>) -> Seq<TargetEventView> {
    events.map_values(|e: TargetEvent| e@)
}

/// `quick_xml::writer::Writer`, of which nothing is known but what the
/// functions below say of it.
#[verifier::external_type_specification]
#[verifier::external_body]
#[verifier::reject_recursive_types(W)]
pub struct ExWriter<W>(Writer<W>);

/// `std::io::Error`, which is handed on unread.
#[verifier::external_type_specification]
#[verifier::external_body]
pub struct ExIoError(std::io::Error);

/// The widest step of indentation that a writer is made with.
pub const MAX_INDENT_SIZE: usize = 0xffff;

/// The events that have been written to a writer, in order.
pub uninterp spec fn writer_events(writer: Writer<Vec<u8>>) -> Seq<TargetEventView>;

/// The byte that a writer indents with, and how many of it make one step.
pub uninterp spec fn writer_indent(writer: Writer<Vec<u8>>) -> (u8, nat);

/// The bytes that a `quick_xml::writer::Writer` made with this indentation
/// holds once the events have been written to it, each by
/// `quick_xml::writer::Writer::write_event`.
pub uninterp spec fn xml_rendering(
    indent_char: u8,
    indent_size: nat,
    events: Seq<TargetEventView>,
) -> Seq<u8>;

/// `quick_xml::writer::Writer::new_with_indent` over an empty vector of
/// bytes. Nothing has been written to the new writer. The writer keeps the
/// current indentation in a buffer that grows by `indent_size` with every
/// open element; the bound on the size keeps its length within `usize`.
#[verifier::external_body]
fn new_writer(indent_char: u8, indent_size: usize) -> (writer: Writer<Vec<u8>>)
    requires
        indent_size <= MAX_INDENT_SIZE,
    ensures
        writer_events(writer) == Seq::<TargetEventView>::empty(),
        writer_indent(writer) == (indent_char, indent_size as nat),
{
    Writer::new_with_indent(Vec::new(), indent_char, indent_size)
}

/// `quick_xml::writer::Writer::write_event`, on the event built by
/// `BytesDecl::new`, by `BytesStart::new` with `with_attributes`, by
/// `BytesEnd::new` or by `BytesText::new`. The event is written after the
/// earlier ones, and the write succeeds: `write_event` reports an error only
/// where `write_all` of what it writes to does, and that is a vector of bytes,
/// for which `std` implements `Write` by appending to the vector, which grows
/// as needed.
#[verifier::external_body]
fn write_event(writer: &mut Writer<Vec<u8>>, event: &TargetEvent) -> (result: Result<
    (),
    std::io::Error,
>)
    ensures
        result is Ok,
        writer_indent(*final(writer)) == writer_indent(*old(writer)),
        writer_events(*final(writer)) == writer_events(*old(writer)).push(event@),
{
    writer.write_event(
        match event {
            TargetEvent::Declaration { version, encoding } => Event::Decl(
                BytesDecl::new(version, Some(encoding), None),
            ),
            TargetEvent::Start { name, attributes } => Event::Start(
                BytesStart::new(name.as_str()).with_attributes(
                    attributes.iter().map(|a| (a.name.as_str(), a.value.as_str())),
                ),
            ),
            TargetEvent::End { name } => Event::End(BytesEnd::new(name.as_str())),
            TargetEvent::Text { content } => Event::Text(BytesText::new(content)),
        },
    )
}

/// `quick_xml::writer::Writer::into_inner`: the bytes that the writer holds,
/// which are the rendering of the events written to it.
#[verifier::external_body]
fn into_bytes(writer: Writer<Vec<u8>>) -> (bytes: Vec<u8>)
    ensures
        bytes@ == xml_rendering(
            writer_indent(writer).0,
            writer_indent(writer).1,
            writer_events(writer),
        ),
{
    writer.into_inner()
}

/// The byte that the target document is indented with.
pub const INDENT_CHAR: u8 = 0x20;

/// The number of indentation bytes per level of nesting.
pub const INDENT_SIZE: usize = 4;

/// The target document that these events make: their rendering with four
/// spaces of indentation per level.
pub open spec fn document_bytes(events: Seq<TargetEventView>) -> Seq<u8> {
    xml_rendering(INDENT_CHAR, INDENT_SIZE as nat, events)
}

/// Renders the events of a document, in order, indented by four spaces per
/// level. The output is held in memory, so that rendering always succeeds.
pub fn render_events(events: &Vec<TargetEvent>) -> (result: Result<Vec<u8>, WriteError>)
    ensures
        result matches Ok(bytes) && bytes@ == document_bytes(event_views(events@)),
{
    let ghost views = event_views(events@);
    let mut writer = new_writer(INDENT_CHAR, INDENT_SIZE);
    let mut i: usize = 0;
    while i < events.len()
        invariant
            i <= events.len(),
            views == event_views(events@),
            writer_indent(writer) == (INDENT_CHAR, INDENT_SIZE as nat),
            writer_events(writer) == views.take(i as int),
        decreases events.len() - i,
    {
        let answer = write_event(&mut writer, &events[i]);
        match write_outcome(answer) {
            Ok(()) => {},
            Err(error) => {
                return Err(error);
            },
        }
        i += 1;
    }
    assert(views.take(i as int) == views);
    Ok(into_bytes(writer))
}

/// What a write comes to, given the answer of the writer: done where the
/// writer reports success, an output failure where it reports an error.
pub open spec fn outcome_of(answer: Result<(), std::io::Error>) -> Result<(), WriteError> {
    match answer {
        Ok(_) => Ok(()),
        Err(_) => Err(WriteError::Output),
    }
}

/// Turns the answer of the writer into the outcome of the write.
pub fn write_outcome(answer: Result<(), std::io::Error>) -> (outcome: Result<(), WriteError>)
    ensures
        outcome == outcome_of(answer),
{
    match answer {
        Ok(()) => Ok(()),
        Err(_) => Err(WriteError::Output),
    }
}

} // verus!
