//! The XML event stream of a feed body, read with `quick-xml`.
//!
//! Events are handed to the namespace pass as plain values: element names,
//! attribute keys and values and CDATA sections as the raw bytes of the
//! document, character data unescaped, and the attribute section of an empty
//! element as text, to be split into attributes by `quick-xml` on demand.

use quick_xml::events::attributes::Attributes;
use quick_xml::events::Event::{CData, Empty, End, Eof, Start, Text};
use vstd::prelude::*;
use vstd::utf8::{decode_utf8, valid_utf8};

verus! {

/// One event of the XML stream.
#[derive(Debug, Clone, PartialEq, Eq)]
pub enum XmlEvent {
    /// `<name ...>`, with the qualified name.
    Start { name: Vec<u8> },
    /// `<name .../>`, with the qualified name and the text of the tag after
    /// the name (its attributes).
    Empty { name: Vec<u8>, attributes: String },
    /// `</name>`, with the qualified name.
    End { name: Vec<u8> },
    /// Character data, unescaped (empty when unescaping failed).
    Text { text: String },
    /// A CDATA section's content.
    CData { bytes: Vec<u8> },
    /// Declarations, processing instructions, comments, doctypes.
    Other,
    /// A syntax error the reader reported.
    Malformed,
    /// End of input.
    Eof,
}

/// The mathematical value of an `XmlEvent`.
pub enum XmlEventView {
    Start { name: Seq<u8> },
    Empty { name: Seq<u8>, attributes: Seq<char> },
    End { name: Seq<u8> },
    Text { text: Seq<char> },
    CData { bytes: Seq<u8> },
    Other,
    Malformed,
    Eof,
}

impl View for XmlEvent {
    type V = XmlEventView;

    open spec fn view(&self) -> XmlEventView {
        match self {
            XmlEvent::Start { name } => XmlEventView::Start { name: name@ },
            XmlEvent::Empty { name, attributes } => XmlEventView::Empty {
                name: name@,
                attributes: attributes@,
            },
            XmlEvent::End { name } => XmlEventView::End { name: name@ },
            XmlEvent::Text { text } => XmlEventView::Text { text: text@ },
            XmlEvent::CData { bytes } => XmlEventView::CData { bytes: bytes@ },
            XmlEvent::Other => XmlEventView::Other,
            XmlEvent::Malformed => XmlEventView::Malformed,
            XmlEvent::Eof => XmlEventView::Eof,
        }
    }
}

/// `quick-xml`'s pull reader.
#[verifier::external_type_specification]
#[verifier::external_body]
#[verifier::reject_recursive_types(R)]
pub struct ExXmlReader<R>(quick_xml::Reader<R>);

/// The events that `quick-xml` yields for the text `xml`, in order, up to the
/// end of input (the final `Eof` not included).
pub uninterp spec fn document_events(xml: Seq<char>) -> Seq<XmlEventView>;

/// The events that the reader `r` has still to yield before `Eof`.
pub uninterp spec fn pending_events(r: quick_xml::Reader<&[u8]>) -> Seq<XmlEventView>;

/// The (key, value) pairs, as raw bytes, that `quick-xml` reads from the
/// attribute text of a tag, duplicates kept and malformed ones left out.
pub uninterp spec fn raw_attributes(text: Seq<char>) -> Seq<(Seq<u8>, Seq<u8>)>;

/// The text that `String::from_utf8_lossy` makes of `bytes`.
pub uninterp spec fn utf8_lossy(bytes: Seq<u8>) -> Seq<char>;

/// Calls `quick_xml::Reader::from_str`. The reader is claimed to have the
/// whole event stream of `xml` ahead of it, none of it an `Eof`.
#[verifier::external_body]
pub(crate) fn xml_reader(xml: &str) -> (r: quick_xml::Reader<&[u8]>)
    ensures
        pending_events(r) == document_events(xml@),
        forall|i: int|
            0 <= i < pending_events(r).len() ==> !(#[trigger] pending_events(r)[i] is Eof),
{
    quick_xml::Reader::from_str(xml)
}

/// Calls `quick_xml::Reader::read_event` and converts the event to a plain
/// value. Claimed: the event is the next pending one, and it is consumed;
/// once none is pending the reader yields `Eof` and stays there.
#[verifier::external_body]
pub(crate) fn next_xml_event(reader: &mut quick_xml::Reader<&[u8]>) -> (ev: XmlEvent)
    ensures
        pending_events(*old(reader)).len() == 0 ==> ev is Eof && pending_events(*final(reader))
            == pending_events(*old(reader)),
        pending_events(*old(reader)).len() > 0 ==> ev@ == pending_events(*old(reader))[0]
            && pending_events(*final(reader)) == pending_events(*old(reader)).drop_first(),
{
    match reader.read_event() {
        Ok(Start(e)) => XmlEvent::Start { name: e.name().0.to_vec() },
        Ok(Empty(e)) => XmlEvent::Empty {
            name: e.name().0.to_vec(),
            attributes: String::from_utf8_lossy(e.attributes_raw()).into_owned(),
        },
        Ok(End(e)) => XmlEvent::End { name: e.name().0.to_vec() },
        Ok(Text(t)) => XmlEvent::Text { text: t.unescape().unwrap_or_default().into_owned() },
        Ok(CData(t)) => XmlEvent::CData { bytes: t.to_vec() },
        Ok(Eof) => XmlEvent::Eof,
        Ok(_) => XmlEvent::Other,
        Err(_) => XmlEvent::Malformed,
    }
}

/// Calls `quick_xml::events::attributes::Attributes::new` on the attribute
/// text of a tag, with the duplicate check off, and keeps the attributes that
/// parsed, as (key, value) bytes in document order.
#[verifier::external_body]
pub(crate) fn attribute_pairs(text: &str) -> (r: Vec<(Vec<u8>, Vec<u8>)>)
    ensures
        r@.map_values(|p: (Vec<u8>, Vec<u8>)| (p.0@, p.1@)) == raw_attributes(text@),
{
    Attributes::new(text, 0).with_checks(false).flatten().map(
        |a| (a.key.0.to_vec(), a.value.to_vec()),
    ).collect()
}

/// Calls `String::from_utf8_lossy`. Claimed beyond the name: valid UTF-8 is
/// decoded as it stands.
#[verifier::external_body]
pub(crate) fn decode_lossy(bytes: &[u8]) -> (s: String)
    ensures
        s@ == utf8_lossy(bytes@),
        valid_utf8(bytes@) ==> s@ == decode_utf8(bytes@),
{
    String::from_utf8_lossy(bytes).into_owned()
}

} // verus!
